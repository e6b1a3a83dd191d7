//! The decisions of the task that writes a kept value to disk: when to
//! write, and in which order, so that a reader of the file never finds half
//! of a value.

use vstd::prelude::*;

verus! {

/// What the persistence task waits for.
#[derive(Clone, Copy, Debug, PartialEq, Eq, Structural)]
pub enum PersistPhase {
    /// A change of the value.
    Change,
    /// The end of the debounce time.
    Debounce,
    /// The end of writing the temporary file.
    TempFile,
    /// The end of renaming the temporary file to the kept one.
    Rename,
    /// Nothing: the value is gone and the task has stopped.
    Stopped,
}

/// What comes back from the work that the persistence task handed out.
#[derive(Clone, Copy, Debug, PartialEq, Eq, Structural)]
pub enum PersistEvent {
    /// The value has changed since it was last looked at.
    Changed,
    /// The owner of the value is gone.
    Closed,
    /// The debounce time is over; `superseded` says whether the value has
    /// changed again meanwhile.
    DebounceElapsed { superseded: bool },
    /// The latest value was written to the temporary file, or could not be.
    TempFileWritten { ok: bool },
    /// The temporary file was renamed to the kept one, or could not be.
    Renamed { ok: bool },
}

/// What the persistence task hands out.
#[derive(Clone, Copy, Debug, PartialEq, Eq, Structural)]
pub enum PersistAction {
    /// Wait until the value changes, and mark the change as seen.
    WaitForChange,
    /// Wait for this many milliseconds, then look whether the value has
    /// changed again, without marking that change as seen.
    Sleep(u64),
    /// Write the latest value, as text, to the temporary file.
    WriteTempFile,
    /// Rename the temporary file to the kept one.
    Rename,
    /// Stop.
    Stop,
}

/// The persistence task without its files: the debounce time and what the
/// task waits for.
#[derive(Clone, Copy, Debug, PartialEq, Eq, Structural)]
pub struct PersistenceTask {
    /// The debounce time in milliseconds, if there is one.
    pub debounce: Option<u64>,
    /// What the task waits for.
    pub phase: PersistPhase,
}

impl PersistenceTask {
    /// The step after a change that is to be written: the write itself.
    pub open spec fn spec_write(self) -> (PersistenceTask, PersistAction) {
        (PersistenceTask { phase: PersistPhase::TempFile, ..self }, PersistAction::WriteTempFile)
    }

    /// The step back to waiting for a change.
    pub open spec fn spec_wait(self) -> (PersistenceTask, PersistAction) {
        (PersistenceTask { phase: PersistPhase::Change, ..self }, PersistAction::WaitForChange)
    }

    /// The step that ends the task.
    pub open spec fn spec_stop(self) -> (PersistenceTask, PersistAction) {
        (PersistenceTask { phase: PersistPhase::Stopped, ..self }, PersistAction::Stop)
    }

    /// One step of the task. A change is written at once where there is no
    /// debounce time; with one, the task sleeps first, and gives the change up
    /// where a newer one has come meanwhile: the wait for that one writes it.
    /// The value goes to a temporary file, which is renamed to the kept file
    /// only when it is whole. A write or a rename that fails is given up, and
    /// the task waits for the next change. When the owner of the value is
    /// gone, or an event comes that the task does not wait for, it stops.
    pub open spec fn spec_next(self, event: PersistEvent) -> (PersistenceTask, PersistAction) {
        match (self.phase, event) {
            (PersistPhase::Change, PersistEvent::Changed) => match self.debounce {
                Some(millis) => (
                    PersistenceTask { phase: PersistPhase::Debounce, ..self },
                    PersistAction::Sleep(millis),
                ),
                None => self.spec_write(),
            },
            (PersistPhase::Debounce, PersistEvent::DebounceElapsed { superseded }) => {
                if superseded {
                    self.spec_wait()
                } else {
                    self.spec_write()
                }
            },
            (PersistPhase::TempFile, PersistEvent::TempFileWritten { ok }) => if ok {
                (PersistenceTask { phase: PersistPhase::Rename, ..self }, PersistAction::Rename)
            } else {
                self.spec_wait()
            },
            (PersistPhase::Rename, PersistEvent::Renamed { .. }) => self.spec_wait(),
            _ => self.spec_stop(),
        }
    }

    /// The task at its start, and its first action: to wait for a change.
    pub fn new(debounce: Option<u64>) -> (start: (Self, PersistAction))
        ensures
            start.0 == (PersistenceTask { debounce, phase: PersistPhase::Change }),
            start.1 == PersistAction::WaitForChange,
    {
        (PersistenceTask { debounce, phase: PersistPhase::Change }, PersistAction::WaitForChange)
    }

    /// Takes an event: moves on, and says what to do next.
    pub fn next(&mut self, event: PersistEvent) -> (action: PersistAction)
        ensures
            (*final(self), action) == old(self).spec_next(event),
    {
        let (phase, action) = match (self.phase, event) {
            (PersistPhase::Change, PersistEvent::Changed) => match self.debounce {
                Some(millis) => (PersistPhase::Debounce, PersistAction::Sleep(millis)),
                None => (PersistPhase::TempFile, PersistAction::WriteTempFile),
            },
            (PersistPhase::Debounce, PersistEvent::DebounceElapsed { superseded }) => {
                if superseded {
                    (PersistPhase::Change, PersistAction::WaitForChange)
                } else {
                    (PersistPhase::TempFile, PersistAction::WriteTempFile)
                }
            },
            (PersistPhase::TempFile, PersistEvent::TempFileWritten { ok }) => if ok {
                (PersistPhase::Rename, PersistAction::Rename)
            } else {
                (PersistPhase::Change, PersistAction::WaitForChange)
            },
            (PersistPhase::Rename, PersistEvent::Renamed { .. }) => (
                PersistPhase::Change,
                PersistAction::WaitForChange,
            ),
            _ => (PersistPhase::Stopped, PersistAction::Stop),
        };
        self.phase = phase;
        action
    }
}

/// The kept file is replaced only by a temporary file that was written
/// whole: a rename follows nothing but a write that succeeded.
pub proof fn lemma_rename_follows_whole_write(task: PersistenceTask, event: PersistEvent)
    ensures
        task.spec_next(event).1 == PersistAction::Rename <==> task.phase == PersistPhase::TempFile
            && event == (PersistEvent::TempFileWritten { ok: true }),
{
}

/// A change that a newer one supersedes during the debounce time is not
/// written, and a value is written only after a change: at once without a
/// debounce time, and with one only when the time passed with no newer
/// change.
pub proof fn lemma_superseded_change_is_not_written(task: PersistenceTask, event: PersistEvent)
    ensures
        task.spec_next(event).1 == PersistAction::WriteTempFile <==> (task.phase
            == PersistPhase::Change && event == PersistEvent::Changed && task.debounce is None) || (
        task.phase == PersistPhase::Debounce && event == (PersistEvent::DebounceElapsed {
            superseded: false,
        })),
        task.phase == PersistPhase::Debounce && event == (PersistEvent::DebounceElapsed {
            superseded: true,
        }) ==> task.spec_next(event) == task.spec_wait(),
{
}

} // verus!
