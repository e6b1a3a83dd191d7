use bloop_box::state::PersistAction;
use bloop_box::state::PersistEvent;
use bloop_box::state::PersistPhase;
use bloop_box::state::PersistenceTask;

/// A value with the channel that reports its changes, and the files, as far
/// as the persistence task can tell them apart.
struct Store {
    value: u32,
    version: u64,
    seen: u64,
    clock: u64,
    temp: Option<u32>,
    kept: Option<u32>,
    writes: u32,
}

impl Store {
    fn new() -> Self {
        Store { value: 0, version: 0, seen: 0, clock: 0, temp: None, kept: None, writes: 0 }
    }

    fn mutate(&mut self, value: u32) {
        self.value = value;
        self.version += 1;
    }
}

/// Runs the task until it waits for a change that has not come. `mutations`
/// are the times, in milliseconds, at which the value is set, and the values.
fn run(debounce: Option<u64>, mutations: &[(u64, u32)]) -> Store {
    let mut store = Store::new();
    let mut pending: Vec<(u64, u32)> = mutations.to_vec();
    let (mut task, mut action) = PersistenceTask::new(debounce);
    for _ in 0..1000 {
        let apply_until = |store: &mut Store, pending: &mut Vec<(u64, u32)>, time: u64| {
            while !pending.is_empty() && pending[0].0 <= time {
                let (_, value) = pending.remove(0);
                store.mutate(value);
            }
        };
        let event = match action {
            PersistAction::WaitForChange => {
                if store.version == store.seen {
                    if pending.is_empty() {
                        return store;
                    }
                    store.clock = store.clock.max(pending[0].0);
                    let (_, value) = pending.remove(0);
                    store.mutate(value);
                }
                store.seen = store.version;
                PersistEvent::Changed
            }
            PersistAction::Sleep(millis) => {
                store.clock += millis;
                let now = store.clock;
                apply_until(&mut store, &mut pending, now);
                PersistEvent::DebounceElapsed { superseded: store.version != store.seen }
            }
            PersistAction::WriteTempFile => {
                store.temp = Some(store.value);
                PersistEvent::TempFileWritten { ok: true }
            }
            PersistAction::Rename => {
                store.kept = store.temp.take();
                store.writes += 1;
                PersistEvent::Renamed { ok: true }
            }
            PersistAction::Stop => panic!("the task stopped"),
        };
        action = task.next(event);
    }
    panic!("the task did not come to rest");
}

#[test]
fn five_changes_within_the_debounce_time_are_one_write() {
    let store = run(Some(200), &[(0, 1), (10, 2), (20, 3), (30, 4), (50, 5)]);
    assert_eq!(store.writes, 1);
    assert_eq!(store.kept, Some(5));
}

#[test]
fn changes_apart_are_written_each() {
    let store = run(Some(200), &[(0, 1), (1000, 2), (2000, 3)]);
    assert_eq!(store.writes, 3);
    assert_eq!(store.kept, Some(3));
}

#[test]
fn without_debounce_every_change_is_written_at_once() {
    let store = run(None, &[(0, 1), (10, 2), (20, 3)]);
    assert_eq!(store.writes, 3);
    assert_eq!(store.kept, Some(3));
}

#[test]
fn each_step_of_the_task() {
    let (mut task, first) = PersistenceTask::new(Some(5000));
    assert_eq!(first, PersistAction::WaitForChange);
    assert_eq!(task.next(PersistEvent::Changed), PersistAction::Sleep(5000));
    assert_eq!(
        task.next(PersistEvent::DebounceElapsed { superseded: true }),
        PersistAction::WaitForChange
    );
    assert_eq!(task.next(PersistEvent::Changed), PersistAction::Sleep(5000));
    assert_eq!(
        task.next(PersistEvent::DebounceElapsed { superseded: false }),
        PersistAction::WriteTempFile
    );
    assert_eq!(task.next(PersistEvent::TempFileWritten { ok: true }), PersistAction::Rename);
    assert_eq!(task.next(PersistEvent::Renamed { ok: false }), PersistAction::WaitForChange);
    assert_eq!(task.phase, PersistPhase::Change);
}

#[test]
fn failed_write_is_not_renamed() {
    let (mut task, _) = PersistenceTask::new(None);
    assert_eq!(task.next(PersistEvent::Changed), PersistAction::WriteTempFile);
    assert_eq!(task.next(PersistEvent::TempFileWritten { ok: false }), PersistAction::WaitForChange);
    assert_eq!(task.next(PersistEvent::Changed), PersistAction::WriteTempFile);
}

#[test]
fn task_stops_when_the_value_is_gone() {
    let (mut task, _) = PersistenceTask::new(Some(1));
    assert_eq!(task.next(PersistEvent::Closed), PersistAction::Stop);
    assert_eq!(task.phase, PersistPhase::Stopped);
    assert_eq!(task.next(PersistEvent::Changed), PersistAction::Stop);
    let (mut sleeping, _) = PersistenceTask::new(Some(1));
    sleeping.next(PersistEvent::Changed);
    assert_eq!(sleeping.next(PersistEvent::Closed), PersistAction::Stop);
}
