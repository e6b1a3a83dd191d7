//! The engine that runs: it takes the events and gives the actions that the
//! model names.

use crate::engine::actions_view;
use crate::engine::config::parse_config_command;
use crate::engine::config::ConfigCommand;
use crate::engine::idle_led;
use crate::engine::model::EngineView;
use crate::engine::state::EngineState;
use crate::engine::wants_preload;
use crate::engine::Action;
use crate::engine::ActionView;
use crate::engine::Event;
use crate::engine::Phase;
use crate::engine::CONFIG_PAUSE_MILLIS;
use crate::hardware::led::Color;
use crate::hardware::led::LedState;
use crate::hardware::nfc::NfcUid;
use crate::network::message::hash_opt_view;
use crate::network::message::records_view;
use crate::network::message::AchievementId;
use crate::network::message::AchievementRecord;
use crate::network::message::Capabilities;
use crate::network::message::DataHash;
use crate::network::task::NetworkStatus;
use crate::network::AudioResponse;
use crate::network::BloopResponse;
use crate::network::PreloadCheckResponse;
use vstd::prelude::*;

verus! {

/// What the indicator shows while the engine waits for a card.
pub fn set_idle_led(status: NetworkStatus) -> (led: LedState)
    ensures
        led == idle_led(status),
{
    match status {
        NetworkStatus::Connected { .. } => LedState::Static(Color::Green),
        NetworkStatus::Disconnected => LedState::Breathing(Color::Blue),
        NetworkStatus::Unconfigured => LedState::Breathing(Color::Yellow),
        NetworkStatus::InvalidCredentials => LedState::Breathing(Color::Red),
    }
}

/// Whether a network status asks for a preload.
pub fn status_wants_preload(status: NetworkStatus) -> (wanted: bool)
    ensures
        wanted == wants_preload(status),
{
    match status {
        NetworkStatus::Connected { capabilities } => capabilities.contains(
            Capabilities::preload_check(),
        ),
        _ => false,
    }
}

/// The engine without the parts it drives: what it keeps, what it knows of
/// the network, and what it waits for.
#[derive(Debug, PartialEq, Eq)]
pub struct Engine {
    state: EngineState,
    status: NetworkStatus,
    phase: Phase,
    card: NfcUid,
    queue: Vec<AchievementRecord>,
    index: usize,
    manifest: Option<DataHash>,
    succeeded: bool,
}

impl View for Engine {
    type V = EngineView;

    closed spec fn view(&self) -> EngineView {
        EngineView {
            state: self.state@,
            status: self.status,
            phase: self.phase,
            card: self.card,
            queue: records_view(self.queue@),
            index: self.index as nat,
            manifest: hash_opt_view(self.manifest),
            succeeded: self.succeeded,
        }
    }
}

impl Engine {
    /// The engine before its start, with the state that was kept and the
    /// network status as it is.
    pub fn new(state: EngineState, status: NetworkStatus) -> (engine: Self)
        ensures
            engine@ == EngineView::initial(state@, status),
    {
        let engine = Engine {
            state,
            status,
            phase: Phase::Start,
            card: NfcUid::Single([0u8, 0u8, 0u8, 0u8]),
            queue: Vec::new(),
            index: 0,
            manifest: None,
            succeeded: false,
        };
        assert(records_view(engine.queue@) =~= Seq::empty());
        engine
    }

    /// The state to keep on disk.
    pub fn state(&self) -> (state: &EngineState)
        ensures
            state@ == self@.state,
    {
        &self.state
    }

    /// What the engine waits for.
    pub fn phase(&self) -> (phase: Phase)
        ensures
            phase == self@.phase,
    {
        self.phase
    }

    fn to_idle(&mut self) -> (actions: Vec<Action>)
        ensures
            (final(self)@, actions_view(actions@)) == old(self)@.to_idle(),
    {
        self.phase = Phase::Idle;
        let mut actions = Vec::new();
        actions.push(Action::SetLed(set_idle_led(self.status)));
        actions.push(Action::WaitForCardOrStatus);
        assert(actions_view(actions@) =~= old(self)@.to_idle().1);
        actions
    }

    fn stop(&mut self) -> (actions: Vec<Action>)
        ensures
            (final(self)@, actions_view(actions@)) == old(self)@.stop(),
    {
        self.phase = Phase::Stopped;
        let mut actions = Vec::new();
        actions.push(Action::Stop);
        assert(actions_view(actions@) =~= old(self)@.stop().1);
        actions
    }

    fn to_removal(&mut self) -> (actions: Vec<Action>)
        ensures
            (final(self)@, actions_view(actions@)) == old(self)@.to_removal(),
    {
        self.phase = Phase::Removal;
        let mut actions = Vec::new();
        actions.push(Action::WaitForRemoval);
        assert(actions_view(actions@) =~= old(self)@.to_removal().1);
        actions
    }

    fn config_done(&mut self, ok: bool) -> (actions: Vec<Action>)
        ensures
            (final(self)@, actions_view(actions@)) == old(self)@.config_done(ok),
    {
        self.phase = Phase::ConfigPause;
        let color = if ok {
            Color::Cyan
        } else {
            Color::Red
        };
        let mut actions = Vec::new();
        actions.push(Action::SetLed(LedState::Static(color)));
        actions.push(Action::Sleep(CONFIG_PAUSE_MILLIS));
        assert(actions_view(actions@) =~= old(self)@.config_done(ok).1);
        actions
    }

    /// One action that waits, and the phase in which its result is taken.
    fn wait(&mut self, phase: Phase, action: Action) -> (actions: Vec<Action>)
        ensures
            final(self)@ == (EngineView { phase, ..old(self)@ }),
            actions_view(actions@) == seq![action@],
    {
        self.phase = phase;
        let mut actions = Vec::new();
        actions.push(action);
        assert(actions_view(actions@) =~= seq![action@]);
        actions
    }

    /// The actions with `action` before them.
    fn after(action: Action, rest: Vec<Action>) -> (actions: Vec<Action>)
        ensures
            actions_view(actions@) == seq![action@] + actions_view(rest@),
    {
        let ghost tail = rest@;
        let mut actions = Vec::new();
        actions.push(action);
        let mut rest = rest;
        actions.append(&mut rest);
        assert(actions_view(actions@) =~= seq![action@] + actions_view(tail));
        actions
    }

    /// The name of the cache file of the current achievement.
    fn current_file(&self) -> (name: Option<String>)
        ensures
            crate::engine::text_view(name) == self@.current_file(),
    {
        if self.index < self.queue.len() {
            match self.queue[self.index].filename() {
                Ok(name) => Some(name),
                Err(_) => None,
            }
        } else {
            None
        }
    }

    /// The identifier of the current achievement.
    fn current_id(&self) -> (id: Option<AchievementId>)
        ensures
            match self@.current() {
                Some(record) => id is Some && id.unwrap()@ == record.id,
                None => id is None,
            },
    {
        if self.index < self.queue.len() {
            Some(self.queue[self.index].id)
        } else {
            None
        }
    }

    fn advance(&mut self)
        ensures
            final(self)@ == old(self)@.advanced(),
    {
        if self.index < self.queue.len() {
            self.index = self.index + 1;
        }
    }

    fn award_next(&mut self) -> (actions: Vec<Action>)
        ensures
            (final(self)@, actions_view(actions@)) == old(self)@.award_next(),
    {
        if self.index < self.queue.len() {
            self.wait(Phase::AwardSound, Action::PlayAward)
        } else {
            self.to_removal()
        }
    }

    fn preload_end(&mut self) -> (actions: Vec<Action>)
        ensures
            (final(self)@, actions_view(actions@)) == old(self)@.preload_end(),
    {
        if self.succeeded {
            let hash = match &self.manifest {
                Some(hash) => Some(hash.clone()),
                None => None,
            };
            self.state.set_audio_manifest_hash(hash);
            let rest = self.to_idle();
            Self::after(Action::Persist, rest)
        } else {
            self.to_idle()
        }
    }

    fn preload_next(&mut self) -> (actions: Vec<Action>)
        ensures
            (final(self)@, actions_view(actions@)) == old(self)@.preload_next(),
    {
        while self.index < self.queue.len()
            invariant
                self@.preload_next() == old(self)@.preload_next(),
            decreases self.queue@.len() - self.index,
        {
            match self.current_file() {
                Some(name) => {
                    return self.wait(Phase::PreloadCache, Action::CheckCache(name));
                },
                None => {
                    self.advance();
                },
            }
        }
        self.preload_end()
    }

    fn on_scan(&mut self, nfc_uid: NfcUid, status: NetworkStatus) -> (actions: Vec<Action>)
        ensures
            (final(self)@, actions_view(actions@)) == old(self)@.on_scan(nfc_uid, status),
    {
        self.card = nfc_uid;
        self.status = status;
        let is_config_card = self.state.contains(&nfc_uid);
        let connected = match self.status {
            NetworkStatus::Connected { .. } => true,
            _ => false,
        };
        let rest = if is_config_card {
            let read = self.wait(Phase::ConfigData, Action::ReadCardData);
            Self::after(Action::SetLed(LedState::Static(Color::Magenta)), read)
        } else if !connected {
            self.wait(Phase::Removal, Action::WaitForRemoval)
        } else {
            let bloop = self.wait(Phase::Bloop, Action::BloopAndPlay(nfc_uid));
            Self::after(Action::SetLed(LedState::Static(Color::Magenta)), bloop)
        };
        let actions = Self::after(Action::SetLed(LedState::Static(Color::Magenta)), rest);
        assert(actions_view(actions@) =~= old(self)@.on_scan(nfc_uid, status).1);
        actions
    }

    fn on_status(&mut self, status: NetworkStatus) -> (actions: Vec<Action>)
        ensures
            (final(self)@, actions_view(actions@)) == old(self)@.on_status(status),
    {
        self.status = status;
        if status_wants_preload(status) {
            let hash = match self.state.audio_manifest_hash() {
                Some(hash) => Some(hash.clone()),
                None => None,
            };
            self.wait(Phase::PreloadCheck, Action::PreloadCheck(hash))
        } else {
            self.to_idle()
        }
    }

    fn on_card_data(&mut self, data: Option<String>) -> (actions: Vec<Action>)
        ensures
            (final(self)@, actions_view(actions@)) == old(self)@.on_card_data(
                crate::engine::text_view(data),
            ),
    {
        let text = match &data {
            Some(text) => Some(text.as_str()),
            None => None,
        };
        match parse_config_command(text) {
            Err(_) => self.config_done(false),
            Ok(ConfigCommand::SetWifiCredentials { ssid, password }) => self.wait(
                Phase::ConfigCall,
                Action::SetWifiCredentials { ssid, password },
            ),
            Ok(ConfigCommand::SetConnectionState(state)) => self.wait(
                Phase::ConfigCall,
                Action::SetConnectionState(state),
            ),
            Ok(ConfigCommand::SetVolumeRange { argument }) => self.wait(
                Phase::ConfigCall,
                Action::SetVolumeRange(argument),
            ),
            Ok(ConfigCommand::AddConfigCard) => self.wait(
                Phase::ConfigAddRemoval,
                Action::WaitForRemoval,
            ),
            Ok(ConfigCommand::ResetConfigCards) => {
                self.state.reset_to(self.card);
                let rest = self.config_done(true);
                Self::after(Action::Persist, rest)
            },
            Ok(ConfigCommand::Shutdown) => self.wait(
                Phase::ConfigNetworkShutdown,
                Action::NetworkShutdown,
            ),
        }
    }

    fn on_bloop(&mut self, response: BloopResponse) -> (actions: Vec<Action>)
        ensures
            (final(self)@, actions_view(actions@)) == old(self)@.on_bloop(response@),
    {
        match response {
            BloopResponse::Accepted { achievements } => {
                self.queue = achievements;
                self.index = 0;
                self.award_next()
            },
            BloopResponse::Throttled => self.wait(Phase::Verdict, Action::PlayThrottled),
            BloopResponse::Rejected => self.wait(Phase::Verdict, Action::PlayError),
        }
    }

    fn on_preload(&mut self, response: PreloadCheckResponse) -> (actions: Vec<Action>)
        ensures
            (final(self)@, actions_view(actions@)) == old(self)@.on_preload(response@),
    {
        match response {
            PreloadCheckResponse::Match => self.to_idle(),
            PreloadCheckResponse::Mismatch { audio_manifest_hash, achievements } => {
                self.queue = achievements;
                self.index = 0;
                self.manifest = Some(audio_manifest_hash);
                self.succeeded = true;
                self.preload_next()
            },
        }
    }

    /// Adds the card that is being handled to the configuration cards.
    fn keep_card(&mut self)
        ensures
            final(self)@ == (EngineView {
                state: old(self)@.state.with_card(old(self)@.card),
                ..old(self)@
            }),
    {
        self.state.insert(self.card);
    }

    /// The cached audio of the current achievement is played, or the engine
    /// stops where there is none to name.
    fn play_current(&mut self) -> (actions: Vec<Action>)
        ensures
            (final(self)@, actions_view(actions@)) == match old(self)@.current_file() {
                Some(name) => (
                    EngineView { phase: Phase::AwardFile, ..old(self)@ },
                    seq![ActionView::PlayFile(name)],
                ),
                None => old(self)@.stop(),
            },
    {
        match self.current_file() {
            Some(name) => self.wait(Phase::AwardFile, Action::PlayFile(name)),
            None => self.stop(),
        }
    }

    /// The audio of the current achievement is asked for, or the engine
    /// stops where there is no current achievement.
    fn retrieve_current(&mut self, phase: Phase) -> (actions: Vec<Action>)
        ensures
            (final(self)@, actions_view(actions@)) == match old(self)@.current() {
                Some(record) => (
                    EngineView { phase, ..old(self)@ },
                    seq![ActionView::RetrieveAudio(record.id)],
                ),
                None => old(self)@.stop(),
            },
    {
        match self.current_id() {
            Some(id) => self.wait(phase, Action::RetrieveAudio(id)),
            None => self.stop(),
        }
    }

    /// The audio that arrived is written to the cache file of the current
    /// achievement, or the engine stops where there is none to name.
    fn write_current(&mut self, phase: Phase, data: Vec<u8>) -> (actions: Vec<Action>)
        ensures
            (final(self)@, actions_view(actions@)) == match old(self)@.current_file() {
                Some(name) => (
                    EngineView { phase, ..old(self)@ },
                    seq![ActionView::WriteCache(name, data@)],
                ),
                None => old(self)@.stop(),
            },
    {
        match self.current_file() {
            Some(name) => self.wait(phase, Action::WriteCache(name, data)),
            None => self.stop(),
        }
    }

    /// Takes an event: moves on, and says what to do next.
    pub fn step(&mut self, event: Event) -> (actions: Vec<Action>)
        ensures
            (final(self)@, actions_view(actions@)) == old(self)@.next(event@),
    {
        match self.phase {
            Phase::SeedCard => match event {
                Event::CardPresent { nfc_uid, status } => {
                    self.card = nfc_uid;
                    self.status = status;
                    self.wait(Phase::SeedRemoval, Action::WaitForRemoval)
                },
                _ => self.stop(),
            },
            Phase::SeedRemoval => match event {
                Event::CardRemoved => {
                    self.keep_card();
                    let rest = self.to_idle();
                    Self::after(Action::Persist, rest)
                },
                _ => self.stop(),
            },
            Phase::Idle => match event {
                Event::CardPresent { nfc_uid, status } => self.on_scan(nfc_uid, status),
                Event::StatusChanged(status) => self.on_status(status),
                _ => self.stop(),
            },
            Phase::ConfigData => match event {
                Event::CardData(data) => self.on_card_data(data),
                Event::Failed => self.config_done(false),
                _ => self.stop(),
            },
            Phase::ConfigCall => match event {
                Event::Done => self.config_done(true),
                Event::Failed => self.config_done(false),
                _ => self.stop(),
            },
            Phase::ConfigAddRemoval => match event {
                Event::CardRemoved => {
                    let rest = self.wait(Phase::ConfigAddCard, Action::WaitForCard);
                    Self::after(Action::SetLed(LedState::Breathing(Color::Magenta)), rest)
                },
                Event::Failed => self.config_done(false),
                _ => self.stop(),
            },
            Phase::ConfigAddCard => match event {
                Event::CardPresent { nfc_uid, status } => {
                    self.card = nfc_uid;
                    self.status = status;
                    self.wait(Phase::ConfigAddCardRemoval, Action::WaitForRemoval)
                },
                Event::Failed => self.config_done(false),
                _ => self.stop(),
            },
            Phase::ConfigAddCardRemoval => match event {
                Event::CardRemoved => {
                    self.keep_card();
                    let rest = self.config_done(true);
                    Self::after(Action::Persist, rest)
                },
                Event::Failed => self.config_done(false),
                _ => self.stop(),
            },
            Phase::ConfigNetworkShutdown => match event {
                Event::Done => self.wait(Phase::ConfigSystemShutdown, Action::SystemShutdown),
                Event::Failed => self.config_done(false),
                _ => self.stop(),
            },
            Phase::ConfigSystemShutdown => match event {
                Event::Done => {
                    let rest = self.config_done(true);
                    Self::after(Action::RequestShutdown, rest)
                },
                Event::Failed => self.config_done(false),
                _ => self.stop(),
            },
            Phase::ConfigPause => match event {
                Event::Slept => self.to_removal(),
                _ => self.stop(),
            },
            Phase::Removal => match event {
                Event::CardRemoved => self.to_idle(),
                _ => self.stop(),
            },
            Phase::Bloop => match event {
                Event::Bloop(response) => self.on_bloop(response),
                _ => self.stop(),
            },
            Phase::AwardSound => match event {
                Event::Played => match self.current_file() {
                    Some(name) => self.wait(Phase::AwardCache, Action::CheckCache(name)),
                    None => {
                        self.advance();
                        self.award_next()
                    },
                },
                _ => self.stop(),
            },
            Phase::AwardCache => match event {
                Event::CacheChecked(cached) => {
                    if self.current_file().is_none() {
                        self.stop()
                    } else if cached {
                        self.play_current()
                    } else {
                        self.retrieve_current(Phase::AwardAudio)
                    }
                },
                _ => self.stop(),
            },
            Phase::AwardAudio => match event {
                Event::Audio(AudioResponse::Data(data)) => self.write_current(
                    Phase::AwardWrite,
                    data,
                ),
                Event::Audio(_) => {
                    self.advance();
                    self.award_next()
                },
                _ => self.stop(),
            },
            Phase::AwardWrite => match event {
                Event::Written => self.play_current(),
                _ => self.stop(),
            },
            Phase::AwardFile => match event {
                Event::Played => {
                    self.advance();
                    self.award_next()
                },
                _ => self.stop(),
            },
            Phase::Verdict => match event {
                Event::Played => self.to_removal(),
                _ => self.stop(),
            },
            Phase::PreloadCheck => match event {
                Event::Preload(response) => self.on_preload(response),
                _ => self.stop(),
            },
            Phase::PreloadCache => match event {
                Event::CacheChecked(cached) => {
                    if cached && self.index < self.queue.len() {
                        self.advance();
                        self.preload_next()
                    } else {
                        self.retrieve_current(Phase::PreloadAudio)
                    }
                },
                _ => self.stop(),
            },
            Phase::PreloadAudio => match event {
                Event::Audio(AudioResponse::Data(data)) => self.write_current(
                    Phase::PreloadWrite,
                    data,
                ),
                Event::Audio(_) => {
                    self.succeeded = false;
                    self.advance();
                    self.preload_next()
                },
                _ => self.stop(),
            },
            Phase::PreloadWrite => match event {
                Event::Written => {
                    self.advance();
                    self.preload_next()
                },
                _ => self.stop(),
            },
            _ => self.stop(),
        }
    }

    /// Starts the engine: without a configuration card the next card
    /// becomes one; else the engine waits for a card or a new status. An
    /// engine that was started already stops.
    pub fn start(&mut self) -> (actions: Vec<Action>)
        ensures
            (final(self)@, actions_view(actions@)) == if old(self)@.phase == Phase::Start {
                old(self)@.on_start()
            } else {
                old(self)@.stop()
            },
    {
        match self.phase {
            Phase::Start => {},
            _ => {
                return self.stop();
            },
        }
        if self.state.has_no_cards() {
            let rest = self.wait(Phase::SeedCard, Action::WaitForCard);
            Self::after(Action::SetLed(LedState::Breathing(Color::Magenta)), rest)
        } else {
            self.to_idle()
        }
    }
}

} // verus!
