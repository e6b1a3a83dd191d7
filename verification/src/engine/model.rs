//! The engine as a function from its state and an event to its next state
//! and the actions it hands out.

use crate::engine::config::config_command;
use crate::engine::config::ConfigCommandView;
use crate::engine::idle_led;
use crate::engine::state::EngineStateView;
use crate::engine::wants_preload;
use crate::engine::ActionView;
use crate::engine::EventView;
use crate::engine::Phase;
use crate::engine::CONFIG_PAUSE_MILLIS;
use crate::hardware::led::Color;
use crate::hardware::led::LedState;
use crate::hardware::nfc::NfcUid;
use crate::network::message::cache_filename;
use crate::network::message::AchievementRecordView;
use crate::network::task::NetworkStatus;
use crate::network::AudioResponseView;
use crate::network::BloopResponseView;
use crate::network::PreloadCheckResponseView;
use vstd::prelude::*;

verus! {

/// What the engine holds.
pub struct EngineView {
    /// What is kept on disk.
    pub state: EngineStateView,
    /// The network status as it was last seen: with a card, or as a change.
    pub status: NetworkStatus,
    /// What the engine waits for.
    pub phase: Phase,
    /// The card that is being handled.
    pub card: NfcUid,
    /// The achievements that are being worked through.
    pub queue: Seq<AchievementRecordView>,
    /// The place of the current achievement among them.
    pub index: nat,
    /// The manifest hash that a preload takes over if it succeeds.
    pub manifest: Option<Seq<u8>>,
    /// Whether no audio failed to arrive in the preload so far.
    pub succeeded: bool,
}

/// The next state and the actions of one step.
pub type Step = (EngineView, Seq<ActionView>);

impl EngineView {
    /// The engine before `start`.
    pub open spec fn initial(state: EngineStateView, status: NetworkStatus) -> EngineView {
        EngineView {
            state,
            status,
            phase: Phase::Start,
            card: NfcUid::Single([0u8, 0u8, 0u8, 0u8]),
            queue: Seq::empty(),
            index: 0,
            manifest: None,
            succeeded: false,
        }
    }

    /// Back to waiting for a card or a new status, with the indicator
    /// showing the network status.
    pub open spec fn to_idle(self) -> Step {
        (
            EngineView { phase: Phase::Idle, ..self },
            seq![ActionView::SetLed(idle_led(self.status)), ActionView::WaitForCardOrStatus],
        )
    }

    /// The engine stops.
    pub open spec fn stop(self) -> Step {
        (EngineView { phase: Phase::Stopped, ..self }, seq![ActionView::Stop])
    }

    /// Waiting for the removal of the card.
    pub open spec fn to_removal(self) -> Step {
        (EngineView { phase: Phase::Removal, ..self }, seq![ActionView::WaitForRemoval])
    }

    /// The end of a configuration card: the indicator shows cyan where the
    /// command was done and red where not, for half a second.
    pub open spec fn config_done(self, ok: bool) -> Step {
        (
            EngineView { phase: Phase::ConfigPause, ..self },
            seq![
                ActionView::SetLed(
                    LedState::Static(
                        if ok {
                            Color::Cyan
                        } else {
                            Color::Red
                        },
                    ),
                ),
                ActionView::Sleep(CONFIG_PAUSE_MILLIS),
            ],
        )
    }

    /// A step with `action` done before the actions of `step`.
    pub open spec fn after(action: ActionView, step: Step) -> Step {
        (step.0, seq![action] + step.1)
    }

    /// The current achievement, where there is one.
    pub open spec fn current(self) -> Option<AchievementRecordView> {
        if self.index < self.queue.len() {
            Some(self.queue[self.index as int])
        } else {
            None
        }
    }

    /// The name of the cache file of the current achievement, where there
    /// is one and it has audio.
    pub open spec fn current_file(self) -> Option<Seq<char>> {
        match self.current() {
            Some(record) => match record.audio_file_hash {
                Some(hash) => Some(cache_filename(record.id, hash)),
                None => None,
            },
            None => None,
        }
    }

    /// The start: without a configuration card the next card becomes one;
    /// else the engine waits for a card or a new status.
    pub open spec fn on_start(self) -> Step {
        if self.state.config_nfc_uids.len() == 0 {
            (
                EngineView { phase: Phase::SeedCard, ..self },
                seq![
                    ActionView::SetLed(LedState::Breathing(Color::Magenta)),
                    ActionView::WaitForCard,
                ],
            )
        } else {
            self.to_idle()
        }
    }

    /// A scanned card: a configuration card has its text read; any other
    /// card is passed over unless the session is live, and bloops if it is.
    /// The network status that counts is the one that came with the card.
    pub open spec fn on_scan(self, nfc_uid: NfcUid, status: NetworkStatus) -> Step {
        let scanned = EngineView { card: nfc_uid, status, ..self };
        let magenta = ActionView::SetLed(LedState::Static(Color::Magenta));
        if self.state.config_nfc_uids.contains(nfc_uid) {
            (
                EngineView { phase: Phase::ConfigData, ..scanned },
                seq![magenta, magenta, ActionView::ReadCardData],
            )
        } else if !(status is Connected) {
            (EngineView { phase: Phase::Removal, ..scanned }, seq![magenta, ActionView::WaitForRemoval])
        } else {
            (
                EngineView { phase: Phase::Bloop, ..scanned },
                seq![magenta, magenta, ActionView::BloopAndPlay(nfc_uid)],
            )
        }
    }

    /// A new network status: a live session with a server that answers
    /// preload checks starts a preload with the kept manifest hash.
    pub open spec fn on_status(self, status: NetworkStatus) -> Step {
        let seen = EngineView { status, ..self };
        if wants_preload(status) {
            (
                EngineView { phase: Phase::PreloadCheck, ..seen },
                seq![ActionView::PreloadCheck(self.state.audio_manifest_hash)],
            )
        } else {
            seen.to_idle()
        }
    }

    /// The text of a configuration card: what its command asks for is
    /// handed out or done; a text that is no command ends the card in red.
    pub open spec fn on_card_data(self, data: Option<Seq<char>>) -> Step {
        match config_command(data) {
            Err(_) => self.config_done(false),
            Ok(ConfigCommandView::SetWifiCredentials { ssid, password }) => (
                EngineView { phase: Phase::ConfigCall, ..self },
                seq![ActionView::SetWifiCredentials { ssid, password }],
            ),
            Ok(ConfigCommandView::SetConnectionState(state)) => (
                EngineView { phase: Phase::ConfigCall, ..self },
                seq![ActionView::SetConnectionState(state)],
            ),
            Ok(ConfigCommandView::SetVolumeRange { argument }) => (
                EngineView { phase: Phase::ConfigCall, ..self },
                seq![ActionView::SetVolumeRange(argument)],
            ),
            Ok(ConfigCommandView::AddConfigCard) => (
                EngineView { phase: Phase::ConfigAddRemoval, ..self },
                seq![ActionView::WaitForRemoval],
            ),
            Ok(ConfigCommandView::ResetConfigCards) => Self::after(
                ActionView::Persist,
                EngineView { state: self.state.with_only_card(self.card), ..self }.config_done(true),
            ),
            Ok(ConfigCommandView::Shutdown) => (
                EngineView { phase: Phase::ConfigNetworkShutdown, ..self },
                seq![ActionView::NetworkShutdown],
            ),
        }
    }

    /// The next achievement of an accepted bloop gets its award sound; after
    /// the last one the card has to go.
    pub open spec fn award_next(self) -> Step {
        if self.index < self.queue.len() {
            (EngineView { phase: Phase::AwardSound, ..self }, seq![ActionView::PlayAward])
        } else {
            self.to_removal()
        }
    }

    /// The answer to a bloop: the achievements are worked through, or the
    /// sound for a throttled or a rejected bloop is played.
    pub open spec fn on_bloop(self, response: BloopResponseView) -> Step {
        match response {
            BloopResponseView::Accepted { achievements } => EngineView {
                queue: achievements,
                index: 0,
                ..self
            }.award_next(),
            BloopResponseView::Throttled => (
                EngineView { phase: Phase::Verdict, ..self },
                seq![ActionView::PlayThrottled],
            ),
            BloopResponseView::Rejected => (
                EngineView { phase: Phase::Verdict, ..self },
                seq![ActionView::PlayError],
            ),
        }
    }

    /// The engine with the next achievement as the current one.
    pub open spec fn advanced(self) -> EngineView {
        if self.index < self.queue.len() {
            EngineView { index: self.index + 1, ..self }
        } else {
            self
        }
    }

    /// The end of a preload: the new manifest hash is taken over and stored
    /// where no audio failed to arrive, and left where one did.
    pub open spec fn preload_end(self) -> Step {
        if self.succeeded {
            Self::after(
                ActionView::Persist,
                EngineView { state: self.state.with_manifest(self.manifest), ..self }.to_idle(),
            )
        } else {
            self.to_idle()
        }
    }

    /// The next achievement of a preload that has audio is looked up in the
    /// cache; those without audio are passed over; after the last one the
    /// preload ends.
    pub open spec fn preload_next(self) -> Step
        decreases self.queue.len() - self.index,
    {
        if self.index >= self.queue.len() {
            self.preload_end()
        } else {
            match self.current_file() {
                None => self.advanced().preload_next(),
                Some(name) => (
                    EngineView { phase: Phase::PreloadCache, ..self },
                    seq![ActionView::CheckCache(name)],
                ),
            }
        }
    }

    /// The answer to a preload check: nothing to do on a match; on a
    /// mismatch the achievements are worked through.
    pub open spec fn on_preload(self, response: PreloadCheckResponseView) -> Step {
        match response {
            PreloadCheckResponseView::Match => self.to_idle(),
            PreloadCheckResponseView::Mismatch { audio_manifest_hash, achievements } => EngineView {
                queue: achievements,
                index: 0,
                manifest: Some(audio_manifest_hash),
                succeeded: true,
                ..self
            }.preload_next(),
        }
    }

    /// One step of the engine. An event that the engine does not wait for,
    /// and the failure of any work outside a configuration card, stop it.
    pub open spec fn next(self, event: EventView) -> Step {
        match (self.phase, event) {
            (Phase::SeedCard, EventView::CardPresent { nfc_uid, status }) => (
                EngineView { phase: Phase::SeedRemoval, card: nfc_uid, status, ..self },
                seq![ActionView::WaitForRemoval],
            ),
            (Phase::SeedRemoval, EventView::CardRemoved) => Self::after(
                ActionView::Persist,
                EngineView { state: self.state.with_card(self.card), ..self }.to_idle(),
            ),
            (Phase::Idle, EventView::CardPresent { nfc_uid, status }) => self.on_scan(
                nfc_uid,
                status,
            ),
            (Phase::Idle, EventView::StatusChanged(status)) => self.on_status(status),
            (Phase::ConfigData, EventView::CardData(data)) => self.on_card_data(data),
            (Phase::ConfigData, EventView::Failed) => self.config_done(false),
            (Phase::ConfigCall, EventView::Done) => self.config_done(true),
            (Phase::ConfigCall, EventView::Failed) => self.config_done(false),
            (Phase::ConfigAddRemoval, EventView::CardRemoved) => (
                EngineView { phase: Phase::ConfigAddCard, ..self },
                seq![
                    ActionView::SetLed(LedState::Breathing(Color::Magenta)),
                    ActionView::WaitForCard,
                ],
            ),
            (Phase::ConfigAddRemoval, EventView::Failed) => self.config_done(false),
            (Phase::ConfigAddCard, EventView::CardPresent { nfc_uid, status }) => (
                EngineView { phase: Phase::ConfigAddCardRemoval, card: nfc_uid, status, ..self },
                seq![ActionView::WaitForRemoval],
            ),
            (Phase::ConfigAddCard, EventView::Failed) => self.config_done(false),
            (Phase::ConfigAddCardRemoval, EventView::CardRemoved) => Self::after(
                ActionView::Persist,
                EngineView { state: self.state.with_card(self.card), ..self }.config_done(true),
            ),
            (Phase::ConfigAddCardRemoval, EventView::Failed) => self.config_done(false),
            (Phase::ConfigNetworkShutdown, EventView::Done) => (
                EngineView { phase: Phase::ConfigSystemShutdown, ..self },
                seq![ActionView::SystemShutdown],
            ),
            (Phase::ConfigNetworkShutdown, EventView::Failed) => self.config_done(false),
            (Phase::ConfigSystemShutdown, EventView::Done) => Self::after(
                ActionView::RequestShutdown,
                self.config_done(true),
            ),
            (Phase::ConfigSystemShutdown, EventView::Failed) => self.config_done(false),
            (Phase::ConfigPause, EventView::Slept) => self.to_removal(),
            (Phase::Removal, EventView::CardRemoved) => self.to_idle(),
            (Phase::Bloop, EventView::Bloop(response)) => self.on_bloop(response),
            (Phase::AwardSound, EventView::Played) => match self.current_file() {
                Some(name) => (
                    EngineView { phase: Phase::AwardCache, ..self },
                    seq![ActionView::CheckCache(name)],
                ),
                None => self.advanced().award_next(),
            },
            (Phase::AwardCache, EventView::CacheChecked(cached)) => match (
                self.current(),
                self.current_file(),
            ) {
                (Some(record), Some(name)) => if cached {
                    (
                        EngineView { phase: Phase::AwardFile, ..self },
                        seq![ActionView::PlayFile(name)],
                    )
                } else {
                    (
                        EngineView { phase: Phase::AwardAudio, ..self },
                        seq![ActionView::RetrieveAudio(record.id)],
                    )
                },
                _ => self.stop(),
            },
            (Phase::AwardAudio, EventView::Audio(response)) => match (
                response,
                self.current_file(),
            ) {
                (AudioResponseView::Data(data), Some(name)) => (
                    EngineView { phase: Phase::AwardWrite, ..self },
                    seq![ActionView::WriteCache(name, data)],
                ),
                (AudioResponseView::Data(_), None) => self.stop(),
                _ => self.advanced().award_next(),
            },
            (Phase::AwardWrite, EventView::Written) => match self.current_file() {
                Some(name) => (
                    EngineView { phase: Phase::AwardFile, ..self },
                    seq![ActionView::PlayFile(name)],
                ),
                None => self.stop(),
            },
            (Phase::AwardFile, EventView::Played) => self.advanced().award_next(),
            (Phase::Verdict, EventView::Played) => self.to_removal(),
            (Phase::PreloadCheck, EventView::Preload(response)) => self.on_preload(response),
            (Phase::PreloadCache, EventView::CacheChecked(cached)) => match self.current() {
                Some(record) => if cached {
                    self.advanced().preload_next()
                } else {
                    (
                        EngineView { phase: Phase::PreloadAudio, ..self },
                        seq![ActionView::RetrieveAudio(record.id)],
                    )
                },
                None => self.stop(),
            },
            (Phase::PreloadAudio, EventView::Audio(response)) => match (
                response,
                self.current_file(),
            ) {
                (AudioResponseView::Data(data), Some(name)) => (
                    EngineView { phase: Phase::PreloadWrite, ..self },
                    seq![ActionView::WriteCache(name, data)],
                ),
                (AudioResponseView::Data(_), None) => self.stop(),
                _ => EngineView { succeeded: false, ..self }.advanced().preload_next(),
            },
            (Phase::PreloadWrite, EventView::Written) => self.advanced().preload_next(),
            _ => self.stop(),
        }
    }
}

/// Whether the engine works through the achievements of a preload.
pub open spec fn in_preload_work(phase: Phase) -> bool {
    phase == Phase::PreloadCache || phase == Phase::PreloadAudio || phase == Phase::PreloadWrite
}

/// Whether the engine handles the audio of one achievement.
pub open spec fn handles_audio(phase: Phase) -> bool {
    in_preload_work(phase) || phase == Phase::AwardCache || phase == Phase::AwardAudio || phase
        == Phase::AwardWrite || phase == Phase::AwardFile
}

/// Whether none of the actions asks the server for audio.
pub open spec fn asks_for_no_audio(actions: Seq<ActionView>) -> bool {
    forall|i: int| 0 <= i < actions.len() ==> !(#[trigger] actions[i] is RetrieveAudio)
}

impl EngineView {
    /// What holds of the engine between any two steps: no card is kept
    /// twice, and while the audio of an achievement is handled, there is such
    /// an achievement and it has audio.
    pub open spec fn wf(self) -> bool {
        &&& self.state.wf()
        &&& handles_audio(self.phase) ==> self.current_file() is Some
    }

    /// The engine after the events, one step for each.
    pub open spec fn run(self, events: Seq<EventView>) -> EngineView
        decreases events.len(),
    {
        if events.len() == 0 {
            self
        } else {
            self.next(events[0]).0.run(events.skip(1))
        }
    }

    /// Whether the engine works through a preload before each of the
    /// events.
    pub open spec fn stays_in_preload(self, events: Seq<EventView>) -> bool
        decreases events.len(),
    {
        events.len() == 0 || (in_preload_work(self.phase) && self.next(
            events[0],
        ).0.stays_in_preload(events.skip(1)))
    }
}

/// What going on in a preload gives: it asks the server for nothing, keeps
/// the cards, and either names the cache file of an achievement that has
/// audio or ends the preload; the end takes the new manifest hash over
/// exactly where no audio failed to arrive.
pub open spec fn preload_goes_on(engine: EngineView) -> bool {
    let (after, actions) = engine.preload_next();
    &&& asks_for_no_audio(actions)
    &&& after.state.config_nfc_uids == engine.state.config_nfc_uids
    &&& after.succeeded == engine.succeeded
    &&& after.phase == Phase::PreloadCache || after.phase == Phase::Idle
    &&& after.phase == Phase::PreloadCache ==> after.current_file() is Some && after.state
        == engine.state
    &&& after.phase == Phase::Idle ==> after.state == if engine.succeeded {
        engine.state.with_manifest(engine.manifest)
    } else {
        engine.state
    }
}

/// Going on in a preload always gives what `preload_goes_on` says.
pub proof fn lemma_preload_next(engine: EngineView)
    ensures
        preload_goes_on(engine),
    decreases engine.queue.len() - engine.index,
{
    if engine.index < engine.queue.len() && engine.current_file() is None {
        lemma_preload_next(engine.advanced());
    }
}

/// The same, of each way in which one step goes on in a preload: after an
/// achievement that was cached or written, after one whose audio did not
/// arrive, and at the start.
proof fn lemma_preload_in_step(engine: EngineView, event: EventView)
    ensures
        preload_goes_on(engine.advanced()),
        preload_goes_on(EngineView { succeeded: false, ..engine }.advanced()),
        event matches EventView::Preload(
            PreloadCheckResponseView::Mismatch { audio_manifest_hash, achievements },
        ) ==> preload_goes_on(
            EngineView {
                queue: achievements,
                index: 0,
                manifest: Some(audio_manifest_hash),
                succeeded: true,
                ..engine
            },
        ),
{
    lemma_preload_next(engine.advanced());
    lemma_preload_next(EngineView { succeeded: false, ..engine }.advanced());
    match event {
        EventView::Preload(PreloadCheckResponseView::Mismatch { audio_manifest_hash, achievements }) => {
            lemma_preload_next(
                EngineView {
                    queue: achievements,
                    index: 0,
                    manifest: Some(audio_manifest_hash),
                    succeeded: true,
                    ..engine
                },
            );
        },
        _ => {},
    }
}

/// Every step keeps the engine well-formed.
pub proof fn lemma_next_wf(engine: EngineView, event: EventView)
    requires
        engine.wf(),
    ensures
        engine.next(event).0.wf(),
{
    lemma_preload_in_step(engine, event);
    let after = engine.next(event).0;
    assert(after.state.wf()) by {
        lemma_with_card_wf(engine.state, engine.card);
    }
}

/// Keeping one more card keeps every card once.
pub proof fn lemma_with_card_wf(state: EngineStateView, nfc_uid: NfcUid)
    requires
        state.wf(),
    ensures
        state.with_card(nfc_uid).wf(),
        state.with_only_card(nfc_uid).wf(),
{
}

/// The server is asked for audio in one case only: the cache was looked
/// up for the current achievement, which has audio, and does not hold it.
/// So an achievement without audio, one whose audio is cached, and a preload
/// check that matches cost no request.
pub proof fn lemma_audio_is_asked_on_cache_miss_only(engine: EngineView, event: EventView)
    requires
        engine.wf(),
    ensures
        !asks_for_no_audio(engine.next(event).1) ==> {
            &&& event == EventView::CacheChecked(false)
            &&& engine.phase == Phase::AwardCache || engine.phase == Phase::PreloadCache
            &&& engine.current_file() is Some
            &&& engine.next(event).1 == seq![
                ActionView::RetrieveAudio(engine.current().unwrap().id),
            ]
        },
{
    lemma_preload_in_step(engine, event);
}

/// The audio of an awarded achievement that is not cached is fetched,
/// written and played in this order, after the award sound: the end of the
/// sound has the cache looked up, the miss has the audio asked for, the audio
/// has the file written, and the written file is played; the end of that
/// goes on to the next achievement.
pub proof fn lemma_uncached_award_order(engine: EngineView, data: Seq<u8>)
    requires
        engine.phase == Phase::AwardSound,
        engine.current_file() is Some,
    ensures
        ({
            let name = engine.current_file().unwrap();
            let id = engine.current().unwrap().id;
            let (looked, first) = engine.next(EventView::Played);
            let (asked, second) = looked.next(EventView::CacheChecked(false));
            let (written, third) = asked.next(EventView::Audio(AudioResponseView::Data(data)));
            let (playing, fourth) = written.next(EventView::Written);
            &&& first == seq![ActionView::CheckCache(name)]
            &&& second == seq![ActionView::RetrieveAudio(id)]
            &&& third == seq![ActionView::WriteCache(name, data)]
            &&& fourth == seq![ActionView::PlayFile(name)]
            &&& playing.next(EventView::Played) == engine.advanced().award_next()
        }),
{
    let (looked, first) = engine.next(EventView::Played);
    let (asked, second) = looked.next(EventView::CacheChecked(false));
    let (written, third) = asked.next(EventView::Audio(AudioResponseView::Data(data)));
    let (playing, fourth) = written.next(EventView::Written);
    assert(looked == EngineView { phase: Phase::AwardCache, ..engine });
    assert(asked == EngineView { phase: Phase::AwardAudio, ..engine });
    assert(written == EngineView { phase: Phase::AwardWrite, ..engine });
    assert(playing == EngineView { phase: Phase::AwardFile, ..engine });
    assert(playing.advanced().award_next() == engine.advanced().award_next());
}

/// Audio that does not arrive in a preload marks the preload as failed,
/// and a preload that is marked so leaves the kept manifest hash as it is
/// and stays marked.
pub proof fn lemma_failed_preload_step(engine: EngineView, event: EventView)
    requires
        in_preload_work(engine.phase),
        !engine.succeeded || (engine.phase == Phase::PreloadAudio && (event == EventView::Audio(
            AudioResponseView::NotFound,
        ) || event == EventView::Audio(AudioResponseView::Disconnected))),
    ensures
        engine.next(event).0.state.audio_manifest_hash == engine.state.audio_manifest_hash,
        in_preload_work(engine.next(event).0.phase) ==> !engine.next(event).0.succeeded,
{
    lemma_preload_in_step(engine, event);
}

/// The kept manifest hash is replaced only when every achievement that
/// needed audio got it: once audio failed to arrive, the hash stays as it was
/// through every further step of the preload, its last one included.
pub proof fn lemma_failed_preload_keeps_manifest(engine: EngineView, events: Seq<EventView>)
    requires
        in_preload_work(engine.phase),
        !engine.succeeded,
        engine.stays_in_preload(events),
    ensures
        engine.run(events).state.audio_manifest_hash == engine.state.audio_manifest_hash,
    decreases events.len(),
{
    if events.len() > 0 {
        lemma_failed_preload_step(engine, events[0]);
        let after = engine.next(events[0]).0;
        let rest = events.skip(1);
        assert(after.stays_in_preload(rest));
        assert(engine.run(events) == after.run(rest));
        if rest.len() > 0 {
            assert(in_preload_work(after.phase));
            lemma_failed_preload_keeps_manifest(after, rest);
        } else {
            assert(after.run(rest) == after);
        }
    }
}

/// A preload in which every achievement that needs audio is cached or
/// arrives takes the new manifest hash over: the step that ends a preload
/// that is not marked as failed keeps the hash that the server named.
pub proof fn lemma_preload_end(engine: EngineView)
    ensures
        engine.preload_end().0.state.audio_manifest_hash == if engine.succeeded {
            engine.manifest
        } else {
            engine.state.audio_manifest_hash
        },
        engine.preload_end().0.phase == Phase::Idle,
{
}

} // verus!
