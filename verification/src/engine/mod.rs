//! The decisions of the engine: what a scanned tag, a changed network status
//! and the results of the work it hands out make it do next.

pub mod config;
pub mod machine;
pub mod model;
pub mod state;

use crate::hardware::led::Color;
use crate::hardware::led::LedState;
use crate::hardware::nfc::NfcUid;
use crate::network::message::hash_opt_view;
use crate::network::message::AchievementId;
use crate::network::message::DataHash;
use crate::network::message::PRELOAD_CHECK_BIT;
use crate::network::task::ConnectionState;
use crate::network::task::ConnectionStateView;
use crate::network::task::NetworkStatus;
use crate::network::AudioResponse;
use crate::network::AudioResponseView;
use crate::network::BloopResponse;
use crate::network::BloopResponseView;
use crate::network::PreloadCheckResponse;
use crate::network::PreloadCheckResponseView;
use vstd::prelude::*;

verus! {

/// How long the result of a configuration card is shown, in milliseconds.
pub const CONFIG_PAUSE_MILLIS: u64 = 500;

/// What the engine waits for.
#[derive(Clone, Copy, Debug, PartialEq, Eq, Structural)]
pub enum Phase {
    /// The call of `start`.
    Start,
    /// The card that becomes the first configuration card.
    SeedCard,
    /// The removal of that card.
    SeedRemoval,
    /// A card or a new network status.
    Idle,
    /// The text of a configuration card.
    ConfigData,
    /// The end of what a configuration card asked another part to do.
    ConfigCall,
    /// The removal of the card that asked for one more configuration card.
    ConfigAddRemoval,
    /// The card that becomes one more configuration card.
    ConfigAddCard,
    /// The removal of that card.
    ConfigAddCardRemoval,
    /// The end of the network session, on the way to a shutdown.
    ConfigNetworkShutdown,
    /// The shutdown of the system.
    ConfigSystemShutdown,
    /// The end of the time for which the result of a card is shown.
    ConfigPause,
    /// The removal of the card.
    Removal,
    /// The answer to a bloop, and the end of its sound.
    Bloop,
    /// The end of the award sound of the current achievement.
    AwardSound,
    /// Whether the audio of the current achievement is cached.
    AwardCache,
    /// The audio of the current achievement.
    AwardAudio,
    /// The end of writing that audio to the cache.
    AwardWrite,
    /// The end of playing that audio.
    AwardFile,
    /// The end of the sound for a throttled or rejected bloop.
    Verdict,
    /// The answer to a preload check.
    PreloadCheck,
    /// Whether the audio of the current achievement is cached, in a preload.
    PreloadCache,
    /// The audio of the current achievement, in a preload.
    PreloadAudio,
    /// The end of writing that audio to the cache, in a preload.
    PreloadWrite,
    /// Nothing: the engine has stopped.
    Stopped,
}

/// What comes back from the work that the engine handed out.
#[derive(Debug, PartialEq, Eq)]
pub enum Event {
    /// A card is present; `status` is the network status as it is when the
    /// card is found.
    CardPresent { nfc_uid: NfcUid, status: NetworkStatus },
    /// The card is gone.
    CardRemoved,
    /// The network status is new.
    StatusChanged(NetworkStatus),
    /// The text of the card, or none where the card holds no message.
    CardData(Option<String>),
    /// The answer to the bloop; its sound has ended too.
    Bloop(BloopResponse),
    /// The sound has ended.
    Played,
    /// Whether the file is in the cache.
    CacheChecked(bool),
    /// The answer to the request for audio.
    Audio(AudioResponse),
    /// The file is written.
    Written,
    /// The answer to the preload check.
    Preload(PreloadCheckResponse),
    /// The other part did what it was asked to do.
    Done,
    /// The time has passed.
    Slept,
    /// The work could not be done.
    Failed,
}

/// What an event holds.
pub enum EventView {
    CardPresent { nfc_uid: NfcUid, status: NetworkStatus },
    CardRemoved,
    StatusChanged(NetworkStatus),
    CardData(Option<Seq<char>>),
    Bloop(BloopResponseView),
    Played,
    CacheChecked(bool),
    Audio(AudioResponseView),
    Written,
    Preload(PreloadCheckResponseView),
    Done,
    Slept,
    Failed,
}

/// The text of a card, if there is one.
pub open spec fn text_view(text: Option<String>) -> Option<Seq<char>> {
    match text {
        Some(text) => Some(text@),
        None => None,
    }
}

impl View for Event {
    type V = EventView;

    open spec fn view(&self) -> EventView {
        match *self {
            Event::CardPresent { nfc_uid, status } => EventView::CardPresent { nfc_uid, status },
            Event::CardRemoved => EventView::CardRemoved,
            Event::StatusChanged(status) => EventView::StatusChanged(status),
            Event::CardData(text) => EventView::CardData(text_view(text)),
            Event::Bloop(response) => EventView::Bloop(response@),
            Event::Played => EventView::Played,
            Event::CacheChecked(cached) => EventView::CacheChecked(cached),
            Event::Audio(response) => EventView::Audio(response@),
            Event::Written => EventView::Written,
            Event::Preload(response) => EventView::Preload(response@),
            Event::Done => EventView::Done,
            Event::Slept => EventView::Slept,
            Event::Failed => EventView::Failed,
        }
    }
}

/// What the engine hands out. The actions of one step are done in their
/// order; the last one is a piece of work whose result comes back as the
/// next event.
#[derive(Debug, PartialEq, Eq)]
pub enum Action {
    /// Show this on the indicator.
    SetLed(LedState),
    /// Store the state of the engine.
    Persist,
    /// Ask the whole process to shut down.
    RequestShutdown,
    /// Wait for a card or a new network status.
    WaitForCardOrStatus,
    /// Wait for a card.
    WaitForCard,
    /// Wait until the card is gone.
    WaitForRemoval,
    /// Read the text of the card.
    ReadCardData,
    /// Send the bloop of this card and play the bloop sound, both at once,
    /// and wait for both.
    BloopAndPlay(NfcUid),
    /// Play an award sound.
    PlayAward,
    /// Play the sound for a throttled bloop.
    PlayThrottled,
    /// Play the sound for a rejected bloop.
    PlayError,
    /// Play this file of the cache.
    PlayFile(String),
    /// Look whether this file is in the cache.
    CheckCache(String),
    /// Ask the server for the audio of this achievement.
    RetrieveAudio(AchievementId),
    /// Write these bytes to this file of the cache.
    WriteCache(String, Vec<u8>),
    /// Ask the server whether this manifest hash is the current one.
    PreloadCheck(Option<DataHash>),
    /// Hand these credentials to the system.
    SetWifiCredentials { ssid: String, password: String },
    /// Hand this connection state to the connection task.
    SetConnectionState(ConnectionState),
    /// Hand this range, which is JSON text, to the volume control.
    SetVolumeRange(String),
    /// End the network session.
    NetworkShutdown,
    /// Shut the system down.
    SystemShutdown,
    /// Wait for this many milliseconds.
    Sleep(u64),
    /// Stop: the engine cannot go on.
    Stop,
}

/// What an action holds.
pub enum ActionView {
    SetLed(LedState),
    Persist,
    RequestShutdown,
    WaitForCardOrStatus,
    WaitForCard,
    WaitForRemoval,
    ReadCardData,
    BloopAndPlay(NfcUid),
    PlayAward,
    PlayThrottled,
    PlayError,
    PlayFile(Seq<char>),
    CheckCache(Seq<char>),
    RetrieveAudio(Seq<u8>),
    WriteCache(Seq<char>, Seq<u8>),
    PreloadCheck(Option<Seq<u8>>),
    SetWifiCredentials { ssid: Seq<char>, password: Seq<char> },
    SetConnectionState(ConnectionStateView),
    SetVolumeRange(Seq<char>),
    NetworkShutdown,
    SystemShutdown,
    Sleep(u64),
    Stop,
}

impl View for Action {
    type V = ActionView;

    open spec fn view(&self) -> ActionView {
        match *self {
            Action::SetLed(led) => ActionView::SetLed(led),
            Action::Persist => ActionView::Persist,
            Action::RequestShutdown => ActionView::RequestShutdown,
            Action::WaitForCardOrStatus => ActionView::WaitForCardOrStatus,
            Action::WaitForCard => ActionView::WaitForCard,
            Action::WaitForRemoval => ActionView::WaitForRemoval,
            Action::ReadCardData => ActionView::ReadCardData,
            Action::BloopAndPlay(nfc_uid) => ActionView::BloopAndPlay(nfc_uid),
            Action::PlayAward => ActionView::PlayAward,
            Action::PlayThrottled => ActionView::PlayThrottled,
            Action::PlayError => ActionView::PlayError,
            Action::PlayFile(name) => ActionView::PlayFile(name@),
            Action::CheckCache(name) => ActionView::CheckCache(name@),
            Action::RetrieveAudio(id) => ActionView::RetrieveAudio(id@),
            Action::WriteCache(name, data) => ActionView::WriteCache(name@, data@),
            Action::PreloadCheck(hash) => ActionView::PreloadCheck(hash_opt_view(hash)),
            Action::SetWifiCredentials { ssid, password } => ActionView::SetWifiCredentials {
                ssid: ssid@,
                password: password@,
            },
            Action::SetConnectionState(state) => ActionView::SetConnectionState(state@),
            Action::SetVolumeRange(range) => ActionView::SetVolumeRange(range@),
            Action::NetworkShutdown => ActionView::NetworkShutdown,
            Action::SystemShutdown => ActionView::SystemShutdown,
            Action::Sleep(millis) => ActionView::Sleep(millis),
            Action::Stop => ActionView::Stop,
        }
    }
}

/// What a list of actions holds.
pub open spec fn actions_view(actions: Seq<Action>) -> Seq<ActionView> {
    Seq::new(actions.len(), |i: int| actions[i]@)
}

/// What the indicator shows while the engine waits for a card: one look
/// for each network status.
pub open spec fn idle_led(status: NetworkStatus) -> LedState {
    match status {
        NetworkStatus::Connected { .. } => LedState::Static(Color::Green),
        NetworkStatus::Disconnected => LedState::Breathing(Color::Blue),
        NetworkStatus::Unconfigured => LedState::Breathing(Color::Yellow),
        NetworkStatus::InvalidCredentials => LedState::Breathing(Color::Red),
    }
}

/// Whether a network status asks for a preload: the session is live and the
/// server answers preload checks.
pub open spec fn wants_preload(status: NetworkStatus) -> bool {
    status matches NetworkStatus::Connected { capabilities } && capabilities@ & PRELOAD_CHECK_BIT
        == PRELOAD_CHECK_BIT
}

} // verus!
