//! The decisions of the task that owns the session: what to do on a command
//! and on a tick, what a reply of the server means, and how the status moves.

use crate::hardware::nfc::NfcUid;
use crate::network::message::AchievementId;
use crate::network::message::Capabilities;
use crate::network::message::ClientMessage;
use crate::network::message::ClientMessageView;
use crate::network::message::DataHash;
use crate::network::message::ErrorResponse;
use crate::network::message::IpAddress;
use crate::network::message::ServerMessage;
use crate::network::message::ServerMessageView;
use crate::network::message::hash_opt_view;
use crate::network::AudioResponse;
use crate::network::AudioResponseView;
use crate::network::BloopResponse;
use crate::network::BloopResponseView;
use crate::network::PreloadCheckResponse;
use crate::network::PreloadCheckResponseView;
use vstd::prelude::*;

verus! {

/// The lowest protocol version that the client offers.
pub const MIN_VERSION: u8 = 3;

/// The highest protocol version that the client offers.
pub const MAX_VERSION: u8 = 3;

/// Where the trusted root certificates come from.
#[derive(Clone, Copy, Debug, PartialEq, Eq, Structural)]
pub enum RootCertSource {
    BuiltIn,
    Native,
    DangerousDisabled,
}

impl Default for RootCertSource {
    fn default() -> (source: Self)
        ensures
            source == RootCertSource::BuiltIn,
    {
        RootCertSource::BuiltIn
    }
}

/// What the connection task reports of itself.
#[derive(Clone, Copy, Debug, PartialEq, Eq, Structural)]
pub enum NetworkStatus {
    Unconfigured,
    InvalidCredentials,
    Disconnected,
    Connected { capabilities: Capabilities },
}

/// What is needed to try a connection.
#[derive(Debug, PartialEq, Eq)]
pub struct ConnectionState {
    pub host: String,
    pub port: u16,
    pub client_id: String,
    pub client_secret: String,
}

/// What a connection state holds.
pub struct ConnectionStateView {
    pub host: Seq<char>,
    pub port: u16,
    pub client_id: Seq<char>,
    pub client_secret: Seq<char>,
}

impl View for ConnectionState {
    type V = ConnectionStateView;

    open spec fn view(&self) -> ConnectionStateView {
        ConnectionStateView {
            host: self.host@,
            port: self.port,
            client_id: self.client_id@,
            client_secret: self.client_secret@,
        }
    }
}

impl Clone for ConnectionState {
    fn clone(&self) -> (copy: Self)
        ensures
            copy@ == self@,
    {
        ConnectionState {
            host: self.host.clone(),
            port: self.port,
            client_id: self.client_id.clone(),
            client_secret: self.client_secret.clone(),
        }
    }
}

/// What the connection task keeps on disk.
#[derive(Debug, PartialEq, Eq)]
pub struct NetworkState {
    pub connection: Option<ConnectionState>,
}

/// The connection state that is kept, if any.
pub open spec fn connection_view(connection: Option<ConnectionState>) -> Option<
    ConnectionStateView,
> {
    match connection {
        Some(state) => Some(state@),
        None => None,
    }
}

impl View for NetworkState {
    type V = Option<ConnectionStateView>;

    open spec fn view(&self) -> Option<ConnectionStateView> {
        connection_view(self.connection)
    }
}

impl Default for NetworkState {
    fn default() -> (state: Self)
        ensures
            state@ is None,
    {
        NetworkState { connection: None }
    }
}

impl Clone for NetworkState {
    fn clone(&self) -> (copy: Self)
        ensures
            copy@ == self@,
    {
        let connection = match &self.connection {
            Some(state) => Some(state.clone()),
            None => None,
        };
        NetworkState { connection }
    }
}

/// The version of the protocol that a session speaks.
#[derive(Clone, Copy, Debug, PartialEq, Eq, Structural)]
pub enum ProtocolVersion {
    Three,
}

/// What is known of a live session.
#[derive(Clone, Copy, Debug, PartialEq, Eq, Structural)]
pub struct Connection {
    pub version: ProtocolVersion,
    pub capabilities: Capabilities,
}

/// Why a reply of the server ends an exchange.
#[derive(Clone, Copy, Debug, PartialEq, Eq, Structural)]
pub enum ProtocolError {
    /// The reply is none that the exchange allows.
    UnexpectedMessage,
    /// The server accepted a version that the client did not offer.
    UnsupportedVersion(u8),
    /// The server speaks no version of the range that the client offered.
    VersionRangeRefused,
}

/// Why a connection attempt came to nothing.
#[derive(Clone, Copy, Debug, PartialEq, Eq, Structural)]
pub enum ConnectError {
    /// The server answered, but not as the protocol allows.
    Protocol(ProtocolError),
    /// The connection could not be made, or broke, or timed out.
    Transport,
}

impl ConnectError {
    /// Whether the failure is final for the kept connection state: the
    /// server accepted no version that the client offers, so another attempt
    /// would end the same.
    pub open spec fn spec_is_fatal(self) -> bool {
        self matches ConnectError::Protocol(error) && (error is UnsupportedVersion || error
            == ProtocolError::VersionRangeRefused)
    }

    /// Whether the failure is final for the kept connection state.
    #[verifier::when_used_as_spec(spec_is_fatal)]
    pub fn is_fatal(self) -> (fatal: bool)
        ensures
            fatal == self.spec_is_fatal(),
    {
        match self {
            ConnectError::Protocol(ProtocolError::UnsupportedVersion(_)) => true,
            ConnectError::Protocol(ProtocolError::VersionRangeRefused) => true,
            _ => false,
        }
    }
}

/// What the reply to a bloop means: the achievements, a throttle, or a
/// rejection for an unknown tag; any other reply ends the exchange.
pub open spec fn bloop_reply(message: ServerMessageView) -> Result<
    BloopResponseView,
    ProtocolError,
> {
    match message {
        ServerMessageView::BloopAccepted { achievements } => Ok(
            BloopResponseView::Accepted { achievements },
        ),
        ServerMessageView::Error(ErrorResponse::UnknownNfcUid) => Ok(BloopResponseView::Rejected),
        ServerMessageView::Error(ErrorResponse::NfcUidThrottled) => Ok(
            BloopResponseView::Throttled,
        ),
        _ => Err(ProtocolError::UnexpectedMessage),
    }
}

/// Reads the reply to a bloop.
pub fn bloop(message: ServerMessage) -> (res: Result<BloopResponse, ProtocolError>)
    ensures
        match bloop_reply(message@) {
            Ok(response) => res is Ok && res.unwrap()@ == response,
            Err(e) => res is Err && res.unwrap_err() == e,
        },
{
    match message {
        ServerMessage::BloopAccepted { achievements } => Ok(
            BloopResponse::Accepted { achievements },
        ),
        ServerMessage::Error(ErrorResponse::UnknownNfcUid) => Ok(BloopResponse::Rejected),
        ServerMessage::Error(ErrorResponse::NfcUidThrottled) => Ok(BloopResponse::Throttled),
        _ => Err(ProtocolError::UnexpectedMessage),
    }
}

/// What the reply to a request for audio means: the audio, or none for this
/// achievement; any other reply ends the exchange.
pub open spec fn retrieve_audio_reply(message: ServerMessageView) -> Result<
    AudioResponseView,
    ProtocolError,
> {
    match message {
        ServerMessageView::AudioData { data } => Ok(AudioResponseView::Data(data)),
        ServerMessageView::Error(ErrorResponse::AudioUnavailable) => Ok(
            AudioResponseView::NotFound,
        ),
        _ => Err(ProtocolError::UnexpectedMessage),
    }
}

/// Reads the reply to a request for audio.
pub fn retrieve_audio(message: ServerMessage) -> (res: Result<AudioResponse, ProtocolError>)
    ensures
        match retrieve_audio_reply(message@) {
            Ok(response) => res is Ok && res.unwrap()@ == response,
            Err(e) => res is Err && res.unwrap_err() == e,
        },
{
    match message {
        ServerMessage::AudioData { data } => Ok(AudioResponse::Data(data)),
        ServerMessage::Error(ErrorResponse::AudioUnavailable) => Ok(AudioResponse::NotFound),
        _ => Err(ProtocolError::UnexpectedMessage),
    }
}

/// What the reply to a preload check means: a match, or the new manifest
/// with its achievements; any other reply ends the exchange.
pub open spec fn preload_check_reply(message: ServerMessageView) -> Result<
    PreloadCheckResponseView,
    ProtocolError,
> {
    match message {
        ServerMessageView::PreloadMatch => Ok(PreloadCheckResponseView::Match),
        ServerMessageView::PreloadMismatch { audio_manifest_hash, achievements } => Ok(
            PreloadCheckResponseView::Mismatch { audio_manifest_hash, achievements },
        ),
        _ => Err(ProtocolError::UnexpectedMessage),
    }
}

/// Reads the reply to a preload check.
pub fn preload_check(message: ServerMessage) -> (res: Result<PreloadCheckResponse, ProtocolError>)
    ensures
        match preload_check_reply(message@) {
            Ok(response) => res is Ok && res.unwrap()@ == response,
            Err(e) => res is Err && res.unwrap_err() == e,
        },
{
    match message {
        ServerMessage::PreloadMatch => Ok(PreloadCheckResponse::Match),
        ServerMessage::PreloadMismatch { audio_manifest_hash, achievements } => Ok(
            PreloadCheckResponse::Mismatch { audio_manifest_hash, achievements },
        ),
        _ => Err(ProtocolError::UnexpectedMessage),
    }
}

/// Reads the reply to a ping: only a pong is one.
pub fn ping(message: ServerMessage) -> (res: Result<(), ProtocolError>)
    ensures
        res == if message@ is Pong {
            Ok::<(), ProtocolError>(())
        } else {
            Err::<(), ProtocolError>(ProtocolError::UnexpectedMessage)
        },
{
    match message {
        ServerMessage::Pong => Ok(()),
        _ => Err(ProtocolError::UnexpectedMessage),
    }
}

/// The handshake that opens a session: the range of versions on offer.
pub fn handshake_request() -> (message: ClientMessage)
    ensures
        message@ == (ClientMessageView::ClientHandshake {
            min_version: MIN_VERSION,
            max_version: MAX_VERSION,
        }),
{
    ClientMessage::ClientHandshake { min_version: MIN_VERSION, max_version: MAX_VERSION }
}

/// What the reply to the handshake means: the session, where the server
/// accepted a version that was on offer; else the attempt fails.
pub open spec fn negotiate_version_reply(message: ServerMessageView) -> Result<
    Connection,
    ProtocolError,
> {
    match message {
        ServerMessageView::ServerHandshake { accepted_version, capabilities } => {
            if MIN_VERSION <= accepted_version <= MAX_VERSION {
                Ok(connection_with(capabilities))
            } else {
                Err(ProtocolError::UnsupportedVersion(accepted_version))
            }
        },
        ServerMessageView::Error(ErrorResponse::UnsupportedVersionRange) => Err(
            ProtocolError::VersionRangeRefused,
        ),
        _ => Err(ProtocolError::UnexpectedMessage),
    }
}

/// The session of version three with the features `bits`.
pub open spec fn connection_with(bits: u64) -> Connection {
    Connection { version: ProtocolVersion::Three, capabilities: Capabilities { bits } }
}

/// Reads the reply to the handshake.
pub fn negotiate_version(message: ServerMessage) -> (res: Result<Connection, ProtocolError>)
    ensures
        res == negotiate_version_reply(message@),
{
    match message {
        ServerMessage::ServerHandshake { accepted_version, capabilities } => {
            if accepted_version != 3 {
                return Err(ProtocolError::UnsupportedVersion(accepted_version));
            }
            Ok(Connection { version: ProtocolVersion::Three, capabilities })
        },
        ServerMessage::Error(ErrorResponse::UnsupportedVersionRange) => Err(
            ProtocolError::VersionRangeRefused,
        ),
        _ => Err(ProtocolError::UnexpectedMessage),
    }
}

/// The message that presents the credentials of `state` and the address of
/// the client.
pub fn authentication_request(state: &ConnectionState, ip_addr: IpAddress) -> (message:
    ClientMessage)
    ensures
        message@ == (ClientMessageView::Authentication {
            client_id: state@.client_id,
            client_secret: state@.client_secret,
            ip_addr,
        }),
{
    ClientMessage::Authentication {
        client_id: state.client_id.clone(),
        client_secret: state.client_secret.clone(),
        ip_addr,
    }
}

/// What the reply to the authentication means: accepted, or refused for the
/// credentials; any other reply ends the attempt.
pub open spec fn authenticate_reply(message: ServerMessageView) -> Result<bool, ProtocolError> {
    match message {
        ServerMessageView::AuthenticationAccepted => Ok(true),
        ServerMessageView::Error(ErrorResponse::InvalidCredentials) => Ok(false),
        _ => Err(ProtocolError::UnexpectedMessage),
    }
}

/// Reads the reply to the authentication.
pub fn authenticate(message: ServerMessage) -> (res: Result<bool, ProtocolError>)
    ensures
        res == authenticate_reply(message@),
{
    match message {
        ServerMessage::AuthenticationAccepted => Ok(true),
        ServerMessage::Error(ErrorResponse::InvalidCredentials) => Ok(false),
        _ => Err(ProtocolError::UnexpectedMessage),
    }
}

/// What a caller asks of the connection task.
#[derive(Debug, PartialEq, Eq)]
pub enum Command {
    SetConnectionState(ConnectionState),
    Bloop { nfc_uid: NfcUid },
    RetrieveAudio { achievement_id: AchievementId },
    PreloadCheck { audio_manifest_hash: Option<DataHash> },
    Shutdown,
}

/// What a command holds.
pub enum CommandView {
    SetConnectionState(ConnectionStateView),
    Bloop { nfc_uid: Seq<u8> },
    RetrieveAudio { achievement_id: Seq<u8> },
    PreloadCheck { audio_manifest_hash: Option<Seq<u8>> },
    Shutdown,
}

impl View for Command {
    type V = CommandView;

    open spec fn view(&self) -> CommandView {
        match *self {
            Command::SetConnectionState(state) => CommandView::SetConnectionState(state@),
            Command::Bloop { nfc_uid } => CommandView::Bloop { nfc_uid: nfc_uid@ },
            Command::RetrieveAudio { achievement_id } => CommandView::RetrieveAudio {
                achievement_id: achievement_id@,
            },
            Command::PreloadCheck { audio_manifest_hash } => CommandView::PreloadCheck {
                audio_manifest_hash: hash_opt_view(audio_manifest_hash),
            },
            Command::Shutdown => CommandView::Shutdown,
        }
    }
}

/// The answer that a caller gets to a command.
#[derive(Debug, PartialEq, Eq)]
pub enum CommandReply {
    Bloop(BloopResponse),
    Audio(AudioResponse),
    PreloadCheck(PreloadCheckResponse),
    Shutdown,
}

/// What the answer to a command holds.
pub enum CommandReplyView {
    Bloop(BloopResponseView),
    Audio(AudioResponseView),
    PreloadCheck(PreloadCheckResponseView),
    Shutdown,
}

impl View for CommandReply {
    type V = CommandReplyView;

    open spec fn view(&self) -> CommandReplyView {
        match *self {
            CommandReply::Bloop(response) => CommandReplyView::Bloop(response@),
            CommandReply::Audio(response) => CommandReplyView::Audio(response@),
            CommandReply::PreloadCheck(response) => CommandReplyView::PreloadCheck(response@),
            CommandReply::Shutdown => CommandReplyView::Shutdown,
        }
    }
}

/// What the task that runs the session does for a command.
#[derive(Debug, PartialEq, Eq)]
pub enum CommandOutcome {
    /// The connection state is new: store it.
    Persist,
    /// Give this answer; nothing goes over the wire.
    Reply(CommandReply),
    /// Send this message, read the reply of the server, and hand what it
    /// means to `handle_response`, which gives the answer.
    Exchange(ClientMessage),
    /// Send this message as well as can be done, then give this answer.
    SendAndReply(ClientMessage, CommandReply),
}

/// What the outcome of a command holds.
pub enum CommandOutcomeView {
    Persist,
    Reply(CommandReplyView),
    Exchange(ClientMessageView),
    SendAndReply(ClientMessageView, CommandReplyView),
}

impl View for CommandOutcome {
    type V = CommandOutcomeView;

    open spec fn view(&self) -> CommandOutcomeView {
        match *self {
            CommandOutcome::Persist => CommandOutcomeView::Persist,
            CommandOutcome::Reply(reply) => CommandOutcomeView::Reply(reply@),
            CommandOutcome::Exchange(message) => CommandOutcomeView::Exchange(message@),
            CommandOutcome::SendAndReply(message, reply) => CommandOutcomeView::SendAndReply(
                message@,
                reply@,
            ),
        }
    }
}

/// What the task that runs the session does on a tick.
#[derive(Debug, PartialEq, Eq)]
pub enum TickAction {
    /// Nothing.
    Idle,
    /// Send a ping, read the reply, and hand what it means to `finish_ping`.
    Ping,
    /// Try to connect with this state, and hand the result to
    /// `finish_connect`.
    Connect(ConnectionState),
}

/// What the action on a tick holds.
pub enum TickActionView {
    Idle,
    Ping,
    Connect(ConnectionStateView),
}

impl View for TickAction {
    type V = TickActionView;

    open spec fn view(&self) -> TickActionView {
        match *self {
            TickAction::Idle => TickActionView::Idle,
            TickAction::Ping => TickActionView::Ping,
            TickAction::Connect(state) => TickActionView::Connect(state@),
        }
    }
}

/// The work outside the task that it waits for.
#[derive(Clone, Copy, Debug, PartialEq, Eq, Structural)]
pub enum Pending {
    /// None.
    Nothing,
    /// The reply to a bloop, a request for audio or a preload check.
    Exchange,
    /// The reply to a ping.
    Ping,
    /// The result of a connection attempt.
    Connect,
}

/// The connection task without its socket: what it knows and what it waits
/// for.
#[derive(Debug, PartialEq, Eq)]
pub struct NetworkTask {
    connection: Option<Connection>,
    state: NetworkState,
    status: NetworkStatus,
    credentials_invalid: bool,
    version_refused: bool,
    shutdown: bool,
    pending: Pending,
}

/// What the connection task holds.
pub struct NetworkTaskView {
    /// The live session, if there is one.
    pub connection: Option<Connection>,
    /// The connection state that is kept.
    pub state: Option<ConnectionStateView>,
    /// The status that is reported.
    pub status: NetworkStatus,
    /// Whether the server refused the credentials of the kept state.
    pub credentials_invalid: bool,
    /// Whether the server accepted no protocol version that the client
    /// offers.
    pub version_refused: bool,
    /// Whether the task was shut down with a live session.
    pub shutdown: bool,
    /// The outside work that is not finished.
    pub pending: Pending,
}

impl NetworkTaskView {
    /// The task at its start, with the connection state that was kept.
    pub open spec fn initial(state: Option<ConnectionStateView>) -> NetworkTaskView {
        NetworkTaskView {
            connection: None,
            state,
            status: if state is Some {
                NetworkStatus::Disconnected
            } else {
                NetworkStatus::Unconfigured
            },
            credentials_invalid: false,
            version_refused: false,
            shutdown: false,
            pending: Pending::Nothing,
        }
    }

    /// What holds of the task between any two calls.
    pub open spec fn wf(self) -> bool {
        &&& self.connection matches Some(connection) ==> {
            &&& self.status == NetworkStatus::Connected { capabilities: connection.capabilities }
            &&& self.state is Some
            &&& !self.shutdown
        }
        &&& self.credentials_invalid <==> self.status == NetworkStatus::InvalidCredentials
        &&& self.status == NetworkStatus::Unconfigured <==> self.state is None
        &&& self.status is Connected ==> self.connection is Some || self.shutdown
        &&& self.pending == Pending::Exchange || self.pending == Pending::Ping
            ==> self.connection is Some
        &&& self.pending == Pending::Connect ==> {
            &&& self.connection is None
            &&& self.status == NetworkStatus::Disconnected
            &&& !self.shutdown
            &&& !self.version_refused
        }
        &&& self.version_refused ==> {
            &&& self.connection is None
            &&& self.status == NetworkStatus::Disconnected
        }
    }

    /// The message that asks the server what `command` asks for.
    pub open spec fn request(command: CommandView) -> ClientMessageView {
        match command {
            CommandView::Bloop { nfc_uid } => ClientMessageView::Bloop { nfc_uid },
            CommandView::RetrieveAudio { achievement_id } => ClientMessageView::RetrieveAudio {
                achievement_id,
            },
            CommandView::PreloadCheck { audio_manifest_hash } => ClientMessageView::PreloadCheck {
                audio_manifest_hash,
            },
            _ => ClientMessageView::Quit,
        }
    }

    /// The answer to `command` where there is no session, or where the
    /// exchange fails.
    pub open spec fn fallback(command: CommandView) -> CommandReplyView {
        match command {
            CommandView::Bloop { .. } => CommandReplyView::Bloop(BloopResponseView::Rejected),
            CommandView::RetrieveAudio { .. } => CommandReplyView::Audio(
                AudioResponseView::Disconnected,
            ),
            CommandView::PreloadCheck { .. } => CommandReplyView::PreloadCheck(
                PreloadCheckResponseView::Match,
            ),
            _ => CommandReplyView::Shutdown,
        }
    }

    /// What is done for `command`. A new connection state is stored,
    /// whatever else goes on. Every other command gets its fallback at once
    /// where there is no session, and also while outside work is not finished:
    /// nothing is sent then. With a session at rest, a shutdown sends the
    /// farewell, and the others start an exchange.
    pub open spec fn command_outcome(self, command: CommandView) -> CommandOutcomeView {
        if command is SetConnectionState {
            CommandOutcomeView::Persist
        } else if self.pending != Pending::Nothing {
            CommandOutcomeView::Reply(Self::fallback(command))
        } else {
            match command {
                CommandView::Shutdown => if self.connection is Some {
                    CommandOutcomeView::SendAndReply(
                        ClientMessageView::Quit,
                        CommandReplyView::Shutdown,
                    )
                } else {
                    CommandOutcomeView::Reply(CommandReplyView::Shutdown)
                },
                _ => if self.connection is Some {
                    CommandOutcomeView::Exchange(Self::request(command))
                } else {
                    CommandOutcomeView::Reply(Self::fallback(command))
                },
            }
        }
    }

    /// The task after `command`. A new connection state drops the session
    /// and whatever was pending, replaces the kept state, clears the marks of
    /// invalid credentials and of a refused version, and makes the status
    /// `Disconnected`. A shutdown with a session drops it and marks the task
    /// as shut down. An exchange is noted as pending.
    pub open spec fn after_command(self, command: CommandView) -> NetworkTaskView {
        match command {
            CommandView::SetConnectionState(state) => NetworkTaskView {
                connection: None,
                state: Some(state),
                status: NetworkStatus::Disconnected,
                credentials_invalid: false,
                version_refused: false,
                pending: Pending::Nothing,
                ..self
            },
            _ => if self.pending != Pending::Nothing || self.connection is None {
                self
            } else if command is Shutdown {
                NetworkTaskView { connection: None, shutdown: true, ..self }
            } else {
                NetworkTaskView { pending: Pending::Exchange, ..self }
            },
        }
    }

    /// What is done on a tick: nothing while outside work is not finished or
    /// after a shutdown; a ping where there is a session; nothing where the
    /// credentials are marked invalid, the version was refused or no
    /// connection state is kept; else a connection attempt.
    pub open spec fn tick_action(self) -> TickActionView {
        if self.pending != Pending::Nothing || self.shutdown {
            TickActionView::Idle
        } else if self.connection is Some {
            TickActionView::Ping
        } else if self.credentials_invalid || self.version_refused {
            TickActionView::Idle
        } else {
            match self.state {
                Some(state) => TickActionView::Connect(state),
                None => TickActionView::Idle,
            }
        }
    }

    /// The task after a tick: what it starts is noted as pending.
    pub open spec fn after_tick(self) -> NetworkTaskView {
        match self.tick_action() {
            TickActionView::Idle => self,
            TickActionView::Ping => NetworkTaskView { pending: Pending::Ping, ..self },
            TickActionView::Connect(_) => NetworkTaskView { pending: Pending::Connect, ..self },
        }
    }

    /// The task after an exchange or a ping, which `failed` or not: a
    /// failure drops the session and makes the status `Disconnected`.
    pub open spec fn after_exchange(self, failed: bool) -> NetworkTaskView {
        if failed {
            NetworkTaskView {
                connection: None,
                status: NetworkStatus::Disconnected,
                pending: Pending::Nothing,
                ..self
            }
        } else {
            NetworkTaskView { pending: Pending::Nothing, ..self }
        }
    }

    /// The task after a connection attempt. `Ok(Some(..))` is a session, and
    /// the status becomes `Connected` with its features. `Ok(None)` is the
    /// refusal of the credentials: they are marked invalid, and the status
    /// says so. `Err(..)` is any other failure: the task stays disconnected,
    /// and where the failure is that the server accepted no version on offer,
    /// the task is marked so, and tries no more until the connection state is
    /// set anew.
    pub open spec fn after_connect(
        self,
        result: Result<Option<Connection>, ConnectError>,
    ) -> NetworkTaskView {
        match result {
            Ok(Some(connection)) => NetworkTaskView {
                connection: Some(connection),
                status: NetworkStatus::Connected { capabilities: connection.capabilities },
                credentials_invalid: false,
                pending: Pending::Nothing,
                ..self
            },
            Ok(None) => NetworkTaskView {
                status: NetworkStatus::InvalidCredentials,
                credentials_invalid: true,
                pending: Pending::Nothing,
                ..self
            },
            Err(error) => NetworkTaskView {
                connection: None,
                version_refused: error.spec_is_fatal(),
                pending: Pending::Nothing,
                ..self
            },
        }
    }
}

impl NetworkTaskView {
    /// The task after `count` ticks with nothing between them.
    pub open spec fn after_ticks(self, count: nat) -> NetworkTaskView
        decreases count,
    {
        if count == 0 {
            self
        } else {
            self.after_tick().after_ticks((count - 1) as nat)
        }
    }
}

/// Once the server has refused the credentials, no tick tries to connect:
/// every tick does nothing and leaves the task as it is, however many come.
pub proof fn lemma_refused_credentials_stop_attempts(task: NetworkTaskView, count: nat)
    requires
        task.wf(),
        task.status == NetworkStatus::InvalidCredentials,
    ensures
        task.tick_action() == TickActionView::Idle,
        task.after_ticks(count) == task,
    decreases count,
{
    if count > 0 {
        lemma_refused_credentials_stop_attempts(task, (count - 1) as nat);
    }
}

/// Once the server has accepted no version that the client offers, no
/// tick tries to connect: every tick does nothing and leaves the task as it
/// is, however many come.
pub proof fn lemma_refused_version_stops_attempts(task: NetworkTaskView, count: nat)
    requires
        task.wf(),
        task.version_refused,
    ensures
        task.tick_action() == TickActionView::Idle,
        task.after_ticks(count) == task,
    decreases count,
{
    if count > 0 {
        lemma_refused_version_stops_attempts(task, (count - 1) as nat);
    }
}

/// A connection attempt that ends with a refused version marks the task,
/// and one that ends with any other failure does not: that one is tried
/// again on the next tick.
pub proof fn lemma_failed_attempt(task: NetworkTaskView, error: ConnectError)
    requires
        task.wf(),
        task.pending == Pending::Connect,
    ensures
        task.after_connect(Err(error)).wf(),
        task.after_connect(Err(error)).status == NetworkStatus::Disconnected,
        task.after_connect(Err(error)).version_refused == error.spec_is_fatal(),
        task.after_connect(Err(error)).tick_action() == if error.spec_is_fatal() {
            TickActionView::Idle
        } else {
            TickActionView::Connect(task.state.unwrap())
        },
{
}

/// A new connection state makes the status `Disconnected` and clears the
/// marks of refused credentials and of a refused version; the next tick tries
/// to connect with it, unless the task was shut down.
pub proof fn lemma_new_state_is_tried(task: NetworkTaskView, state: ConnectionStateView)
    requires
        task.wf(),
    ensures
        task.after_command(CommandView::SetConnectionState(state)).wf(),
        task.after_command(CommandView::SetConnectionState(state)).status
            == NetworkStatus::Disconnected,
        !task.shutdown ==> task.after_command(
            CommandView::SetConnectionState(state),
        ).tick_action() == TickActionView::Connect(state),
{
}

/// At most one piece of work is on the wire: while an exchange, a ping or a
/// connection attempt is not finished, a command starts none and gets its
/// fallback, a tick does nothing, and neither changes the task. Only a new
/// connection state is taken then.
pub proof fn lemma_one_at_a_time(task: NetworkTaskView, command: CommandView)
    requires
        task.pending != Pending::Nothing,
        !(command is SetConnectionState),
    ensures
        task.command_outcome(command) == CommandOutcomeView::Reply(
            NetworkTaskView::fallback(command),
        ),
        task.after_command(command) == task,
        task.tick_action() == TickActionView::Idle,
        task.after_tick() == task,
{
}

/// Without a session nothing is sent for a bloop, a request for audio or a
/// preload check: the caller gets the fallback at once, and the task stays as
/// it is.
pub proof fn lemma_no_session_no_exchange(task: NetworkTaskView, command: CommandView)
    requires
        task.connection is None,
        !(command is SetConnectionState),
    ensures
        task.command_outcome(command) == CommandOutcomeView::Reply(
            NetworkTaskView::fallback(command),
        ),
        task.after_command(command) == task,
{
}

impl View for NetworkTask {
    type V = NetworkTaskView;

    closed spec fn view(&self) -> NetworkTaskView {
        NetworkTaskView {
            connection: self.connection,
            state: self.state@,
            status: self.status,
            credentials_invalid: self.credentials_invalid,
            version_refused: self.version_refused,
            shutdown: self.shutdown,
            pending: self.pending,
        }
    }
}

/// A result with its values forgotten: whether it is a failure.
pub open spec fn failed<T, E>(result: Result<T, E>) -> bool {
    result is Err
}

impl NetworkTask {
    /// The task at its start, with the connection state that was kept. It
    /// reports `Disconnected` where there is one, `Unconfigured` where not.
    pub fn new(state: NetworkState) -> (task: Self)
        ensures
            task@ == NetworkTaskView::initial(state@),
            task@.wf(),
    {
        let status = if state.connection.is_some() {
            NetworkStatus::Disconnected
        } else {
            NetworkStatus::Unconfigured
        };
        Self {
            connection: None,
            state,
            status,
            credentials_invalid: false,
            version_refused: false,
            shutdown: false,
            pending: Pending::Nothing,
        }
    }

    /// The status to report.
    pub fn status(&self) -> (status: NetworkStatus)
        ensures
            status == self@.status,
    {
        self.status
    }

    /// The state to keep on disk.
    pub fn state(&self) -> (state: &NetworkState)
        ensures
            state@ == self@.state,
    {
        &self.state
    }

    /// Whether there is a live session.
    pub fn is_connected(&self) -> (connected: bool)
        ensures
            connected == (self@.connection is Some),
    {
        self.connection.is_some()
    }

    /// Takes a command: says what to do for it, and notes what was started.
    pub fn handle_command(&mut self, command: Command) -> (outcome: CommandOutcome)
        ensures
            outcome@ == old(self)@.command_outcome(command@),
            final(self)@ == old(self)@.after_command(command@),
            old(self)@.wf() ==> final(self)@.wf(),
    {
        let at_rest = match self.pending {
            Pending::Nothing => true,
            _ => false,
        };
        match command {
            Command::SetConnectionState(new_state) => {
                self.connection = None;
                self.state.connection = Some(new_state);
                self.credentials_invalid = false;
                self.version_refused = false;
                self.status = NetworkStatus::Disconnected;
                self.pending = Pending::Nothing;
                CommandOutcome::Persist
            },
            Command::Bloop { nfc_uid } => {
                if !at_rest || self.connection.is_none() {
                    return CommandOutcome::Reply(CommandReply::Bloop(BloopResponse::Rejected));
                }
                self.pending = Pending::Exchange;
                CommandOutcome::Exchange(ClientMessage::Bloop { nfc_uid })
            },
            Command::RetrieveAudio { achievement_id } => {
                if !at_rest || self.connection.is_none() {
                    return CommandOutcome::Reply(CommandReply::Audio(AudioResponse::Disconnected));
                }
                self.pending = Pending::Exchange;
                CommandOutcome::Exchange(ClientMessage::RetrieveAudio { achievement_id })
            },
            Command::PreloadCheck { audio_manifest_hash } => {
                if !at_rest || self.connection.is_none() {
                    return CommandOutcome::Reply(
                        CommandReply::PreloadCheck(PreloadCheckResponse::Match),
                    );
                }
                self.pending = Pending::Exchange;
                CommandOutcome::Exchange(ClientMessage::PreloadCheck { audio_manifest_hash })
            },
            Command::Shutdown => {
                if !at_rest || self.connection.is_none() {
                    return CommandOutcome::Reply(CommandReply::Shutdown);
                }
                self.connection = None;
                self.shutdown = true;
                CommandOutcome::SendAndReply(ClientMessage::Quit, CommandReply::Shutdown)
            },
        }
    }

    /// Takes a tick: says what to do on it, and notes what was started.
    pub fn handle_tick(&mut self) -> (action: TickAction)
        ensures
            action@ == old(self)@.tick_action(),
            final(self)@ == old(self)@.after_tick(),
            old(self)@.wf() ==> final(self)@.wf(),
    {
        match self.pending {
            Pending::Nothing => {},
            _ => {
                return TickAction::Idle;
            },
        }
        if self.shutdown {
            return TickAction::Idle;
        }
        if self.connection.is_some() {
            self.pending = Pending::Ping;
            return TickAction::Ping;
        }
        if self.credentials_invalid || self.version_refused {
            return TickAction::Idle;
        }
        let state = match &self.state.connection {
            Some(state) => state.clone(),
            None => {
                return TickAction::Idle;
            },
        };
        self.pending = Pending::Connect;
        TickAction::Connect(state)
    }

    /// Ends an exchange: gives what it brought, or `fallback` where it
    /// failed, and then drops the session. Where no exchange is pending the
    /// task is left as it is.
    pub fn handle_response<T, E>(&mut self, result: Result<T, E>, fallback: T) -> (reply: T)
        ensures
            reply == match result {
                Ok(response) => response,
                Err(_) => fallback,
            },
            final(self)@ == if old(self)@.pending == Pending::Exchange {
                old(self)@.after_exchange(failed(result))
            } else {
                old(self)@
            },
            old(self)@.wf() ==> final(self)@.wf(),
    {
        let pending = match self.pending {
            Pending::Exchange => true,
            _ => false,
        };
        if pending {
            self.pending = Pending::Nothing;
        }
        match result {
            Ok(response) => response,
            Err(_) => {
                if pending {
                    self.connection = None;
                    self.status = NetworkStatus::Disconnected;
                }
                fallback
            },
        }
    }

    /// Ends a ping: a failure drops the session. Where no ping is pending
    /// the task is left as it is.
    pub fn finish_ping<E>(&mut self, result: Result<(), E>)
        ensures
            final(self)@ == if old(self)@.pending == Pending::Ping {
                old(self)@.after_exchange(failed(result))
            } else {
                old(self)@
            },
            old(self)@.wf() ==> final(self)@.wf(),
    {
        match self.pending {
            Pending::Ping => {},
            _ => {
                return ;
            },
        }
        self.pending = Pending::Nothing;
        if result.is_err() {
            self.connection = None;
            self.status = NetworkStatus::Disconnected;
        }
    }

    /// Ends a connection attempt: `Ok(Some(..))` is a session, `Ok(None)`
    /// the refusal of the credentials, `Err(..)` any other failure, with its
    /// kind. Where no attempt is pending the task is left as it is.
    pub fn finish_connect(&mut self, result: Result<Option<Connection>, ConnectError>)
        ensures
            final(self)@ == if old(self)@.pending == Pending::Connect {
                old(self)@.after_connect(result)
            } else {
                old(self)@
            },
            old(self)@.wf() ==> final(self)@.wf(),
    {
        match self.pending {
            Pending::Connect => {},
            _ => {
                return ;
            },
        }
        self.pending = Pending::Nothing;
        match result {
            Ok(Some(connection)) => {
                self.credentials_invalid = false;
                self.status = NetworkStatus::Connected { capabilities: connection.capabilities };
                self.connection = Some(connection);
            },
            Ok(None) => {
                self.credentials_invalid = true;
                self.status = NetworkStatus::InvalidCredentials;
            },
            Err(error) => {
                self.connection = None;
                self.version_refused = error.is_fatal();
            },
        }
    }
}

} // verus!
