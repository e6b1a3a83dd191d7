use bloop_box::hardware::nfc::NfcUid;
use bloop_box::network::message::AchievementRecord;
use bloop_box::network::message::Capabilities;
use bloop_box::network::message::ClientMessage;
use bloop_box::network::message::DataHash;
use bloop_box::network::message::ErrorResponse;
use bloop_box::network::message::IpAddress;
use bloop_box::network::message::Message;
use bloop_box::network::message::ServerMessage;
use bloop_box::network::task::authenticate;
use bloop_box::network::task::authentication_request;
use bloop_box::network::task::bloop;
use bloop_box::network::task::handshake_request;
use bloop_box::network::task::negotiate_version;
use bloop_box::network::task::ping;
use bloop_box::network::task::preload_check;
use bloop_box::network::task::retrieve_audio;
use bloop_box::network::task::Command;
use bloop_box::network::task::CommandOutcome;
use bloop_box::network::task::CommandReply;
use bloop_box::network::task::ConnectError;
use bloop_box::network::task::Connection;
use bloop_box::network::task::ConnectionState;
use bloop_box::network::task::NetworkState;
use bloop_box::network::task::NetworkStatus;
use bloop_box::network::task::NetworkTask;
use bloop_box::network::task::ProtocolError;
use bloop_box::network::task::ProtocolVersion;
use bloop_box::network::task::RootCertSource;
use bloop_box::network::task::TickAction;
use bloop_box::network::AudioResponse;
use bloop_box::network::BloopResponse;
use bloop_box::network::PreloadCheckResponse;

fn connection_state() -> ConnectionState {
    ConnectionState {
        host: "bloop.example".to_string(),
        port: 12345,
        client_id: "box".to_string(),
        client_secret: "secret".to_string(),
    }
}

/// What a stub server answers, as bytes on the wire, read back as a client does.
fn over_the_wire(answer: ServerMessage) -> ServerMessage {
    let bytes = Message::from(answer).into_bytes();
    ServerMessage::try_from(Message::from_bytes(&bytes).unwrap()).unwrap()
}

/// One connection attempt against a stub server that answers the handshake
/// and the authentication with these messages.
fn connect(
    state: &ConnectionState,
    handshake_answer: ServerMessage,
    authentication_answer: ServerMessage,
) -> Result<Option<Connection>, ConnectError> {
    let sent = Message::from(handshake_request()).into_bytes();
    assert_eq!(sent, vec![0x01, 2, 0, 0, 0, 3, 3]);
    let connection =
        negotiate_version(over_the_wire(handshake_answer)).map_err(ConnectError::Protocol)?;
    let request = authentication_request(state, IpAddress::V4([127, 0, 0, 1]));
    assert_eq!(
        ClientMessage::try_from(Message::from(request)),
        Ok(ClientMessage::Authentication {
            client_id: state.client_id.clone(),
            client_secret: state.client_secret.clone(),
            ip_addr: IpAddress::V4([127, 0, 0, 1]),
        })
    );
    if !authenticate(over_the_wire(authentication_answer)).map_err(ConnectError::Protocol)? {
        return Ok(None);
    }
    Ok(Some(connection))
}

fn accepting_handshake() -> ServerMessage {
    ServerMessage::ServerHandshake { accepted_version: 3, capabilities: Capabilities::from(0x1) }
}

fn connected_task() -> NetworkTask {
    let mut task = NetworkTask::new(NetworkState { connection: Some(connection_state()) });
    assert_eq!(task.handle_tick(), TickAction::Connect(connection_state()));
    task.finish_connect(connect(
        &connection_state(),
        accepting_handshake(),
        ServerMessage::AuthenticationAccepted,
    ));
    assert!(task.is_connected());
    task
}

#[test]
fn status_follows_configuration_and_connection() {
    let mut task = NetworkTask::new(NetworkState::default());
    assert_eq!(task.status(), NetworkStatus::Unconfigured);
    assert_eq!(task.handle_tick(), TickAction::Idle);
    assert_eq!(task.status(), NetworkStatus::Unconfigured);

    let outcome = task.handle_command(Command::SetConnectionState(connection_state()));
    assert_eq!(outcome, CommandOutcome::Persist);
    assert_eq!(task.status(), NetworkStatus::Disconnected);
    assert_eq!(task.state(), &NetworkState { connection: Some(connection_state()) });

    assert_eq!(task.handle_tick(), TickAction::Connect(connection_state()));
    task.finish_connect(connect(
        &connection_state(),
        accepting_handshake(),
        ServerMessage::AuthenticationAccepted,
    ));
    assert_eq!(
        task.status(),
        NetworkStatus::Connected { capabilities: Capabilities::preload_check() }
    );
    assert!(task.is_connected());
}

#[test]
fn refused_credentials_are_not_tried_again() {
    let mut task = NetworkTask::new(NetworkState { connection: Some(connection_state()) });
    assert_eq!(task.status(), NetworkStatus::Disconnected);
    assert_eq!(task.handle_tick(), TickAction::Connect(connection_state()));
    task.finish_connect(connect(
        &connection_state(),
        accepting_handshake(),
        ServerMessage::Error(ErrorResponse::InvalidCredentials),
    ));
    assert_eq!(task.status(), NetworkStatus::InvalidCredentials);
    assert!(!task.is_connected());
    for _ in 0..10 {
        assert_eq!(task.handle_tick(), TickAction::Idle);
        assert_eq!(task.status(), NetworkStatus::InvalidCredentials);
    }
    let mut other = connection_state();
    other.client_secret = "better".to_string();
    assert_eq!(
        task.handle_command(Command::SetConnectionState(other.clone())),
        CommandOutcome::Persist
    );
    assert_eq!(task.status(), NetworkStatus::Disconnected);
    assert_eq!(task.handle_tick(), TickAction::Connect(other));
}

#[test]
fn failed_attempt_is_tried_again_on_the_next_tick() {
    let mut task = NetworkTask::new(NetworkState { connection: Some(connection_state()) });
    assert_eq!(task.handle_tick(), TickAction::Connect(connection_state()));
    task.finish_connect(Err(ConnectError::Transport));
    assert_eq!(task.status(), NetworkStatus::Disconnected);
    assert_eq!(task.handle_tick(), TickAction::Connect(connection_state()));
    task.finish_connect(connect(
        &connection_state(),
        ServerMessage::Pong,
        ServerMessage::AuthenticationAccepted,
    ));
    assert_eq!(task.status(), NetworkStatus::Disconnected);
    assert_eq!(task.handle_tick(), TickAction::Connect(connection_state()));
    task.finish_connect(connect(
        &connection_state(),
        accepting_handshake(),
        ServerMessage::Pong,
    ));
    assert_eq!(task.handle_tick(), TickAction::Connect(connection_state()));
}

#[test]
fn refused_version_is_not_tried_again() {
    let refusals = [
        ServerMessage::Error(ErrorResponse::UnsupportedVersionRange),
        ServerMessage::ServerHandshake { accepted_version: 2, capabilities: Capabilities::none() },
        ServerMessage::ServerHandshake { accepted_version: 4, capabilities: Capabilities::from(1) },
    ];
    for refusal in refusals {
        let mut task = NetworkTask::new(NetworkState { connection: Some(connection_state()) });
        assert_eq!(task.handle_tick(), TickAction::Connect(connection_state()));
        let result = connect(&connection_state(), refusal, ServerMessage::AuthenticationAccepted);
        assert!(matches!(result, Err(error) if error.is_fatal()));
        task.finish_connect(result);
        assert!(!task.is_connected());
        assert_eq!(task.status(), NetworkStatus::Disconnected);
        for _ in 0..10 {
            assert_eq!(task.handle_tick(), TickAction::Idle);
        }
        assert_eq!(
            task.handle_command(Command::SetConnectionState(connection_state())),
            CommandOutcome::Persist
        );
        assert_eq!(task.handle_tick(), TickAction::Connect(connection_state()));
    }
    assert!(!ConnectError::Transport.is_fatal());
    assert!(!ConnectError::Protocol(ProtocolError::UnexpectedMessage).is_fatal());
}

#[test]
fn handshake_answers() {
    assert_eq!(
        negotiate_version(accepting_handshake()),
        Ok(Connection {
            version: ProtocolVersion::Three,
            capabilities: Capabilities::preload_check(),
        })
    );
    assert_eq!(
        negotiate_version(ServerMessage::ServerHandshake {
            accepted_version: 4,
            capabilities: Capabilities::none(),
        }),
        Err(ProtocolError::UnsupportedVersion(4))
    );
    assert_eq!(
        negotiate_version(ServerMessage::Error(ErrorResponse::UnsupportedVersionRange)),
        Err(ProtocolError::VersionRangeRefused)
    );
    assert_eq!(negotiate_version(ServerMessage::Pong), Err(ProtocolError::UnexpectedMessage));
    assert_eq!(authenticate(ServerMessage::AuthenticationAccepted), Ok(true));
    assert_eq!(authenticate(ServerMessage::Error(ErrorResponse::InvalidCredentials)), Ok(false));
    assert_eq!(
        authenticate(ServerMessage::Error(ErrorResponse::MalformedMessage)),
        Err(ProtocolError::UnexpectedMessage)
    );
}

#[test]
fn commands_without_a_session_get_their_fallback() {
    let mut task = NetworkTask::new(NetworkState { connection: Some(connection_state()) });
    assert_eq!(
        task.handle_command(Command::Bloop { nfc_uid: NfcUid::Single([1, 2, 3, 4]) }),
        CommandOutcome::Reply(CommandReply::Bloop(BloopResponse::Rejected))
    );
    assert_eq!(
        task.handle_command(Command::RetrieveAudio { achievement_id: [1; 16] }),
        CommandOutcome::Reply(CommandReply::Audio(AudioResponse::Disconnected))
    );
    assert_eq!(
        task.handle_command(Command::PreloadCheck { audio_manifest_hash: None }),
        CommandOutcome::Reply(CommandReply::PreloadCheck(PreloadCheckResponse::Match))
    );
    assert_eq!(
        task.handle_command(Command::Shutdown),
        CommandOutcome::Reply(CommandReply::Shutdown)
    );
    assert_eq!(task.status(), NetworkStatus::Disconnected);
    assert_eq!(task.handle_tick(), TickAction::Connect(connection_state()));
}

#[test]
fn bloop_exchange_maps_the_answers() {
    let uid = NfcUid::Single([1, 2, 3, 4]);
    let record = AchievementRecord { id: [7; 16], audio_file_hash: Some(DataHash::from(vec![1])) };
    let mut task = connected_task();
    assert_eq!(
        task.handle_command(Command::Bloop { nfc_uid: uid }),
        CommandOutcome::Exchange(ClientMessage::Bloop { nfc_uid: uid })
    );
    let answer = over_the_wire(ServerMessage::BloopAccepted { achievements: vec![record.clone()] });
    let reply = task.handle_response(bloop(answer), BloopResponse::Rejected);
    assert_eq!(reply, BloopResponse::Accepted { achievements: vec![record] });
    assert!(task.is_connected());

    assert_eq!(bloop(ServerMessage::Error(ErrorResponse::UnknownNfcUid)), Ok(BloopResponse::Rejected));
    assert_eq!(
        bloop(ServerMessage::Error(ErrorResponse::NfcUidThrottled)),
        Ok(BloopResponse::Throttled)
    );
    assert_eq!(bloop(ServerMessage::Pong), Err(ProtocolError::UnexpectedMessage));
}

#[test]
fn failed_exchange_drops_the_session_and_gives_the_fallback() {
    let mut task = connected_task();
    assert_eq!(
        task.handle_command(Command::RetrieveAudio { achievement_id: [2; 16] }),
        CommandOutcome::Exchange(ClientMessage::RetrieveAudio { achievement_id: [2; 16] })
    );
    let reply = task.handle_response(retrieve_audio(ServerMessage::Pong), AudioResponse::Disconnected);
    assert_eq!(reply, AudioResponse::Disconnected);
    assert!(!task.is_connected());
    assert_eq!(task.status(), NetworkStatus::Disconnected);
    assert_eq!(task.handle_tick(), TickAction::Connect(connection_state()));

    assert_eq!(
        retrieve_audio(ServerMessage::AudioData { data: vec![1, 2] }),
        Ok(AudioResponse::Data(vec![1, 2]))
    );
    assert_eq!(
        retrieve_audio(ServerMessage::Error(ErrorResponse::AudioUnavailable)),
        Ok(AudioResponse::NotFound)
    );
}

#[test]
fn preload_check_exchange() {
    let mut task = connected_task();
    let hash = DataHash::from(vec![4, 5]);
    assert_eq!(
        task.handle_command(Command::PreloadCheck { audio_manifest_hash: Some(hash.clone()) }),
        CommandOutcome::Exchange(ClientMessage::PreloadCheck { audio_manifest_hash: Some(hash) })
    );
    let reply = task.handle_response(
        preload_check(ServerMessage::PreloadMatch),
        PreloadCheckResponse::Match,
    );
    assert_eq!(reply, PreloadCheckResponse::Match);
    assert_eq!(
        preload_check(ServerMessage::PreloadMismatch {
            audio_manifest_hash: DataHash::from(vec![9]),
            achievements: vec![],
        }),
        Ok(PreloadCheckResponse::Mismatch {
            audio_manifest_hash: DataHash::from(vec![9]),
            achievements: vec![],
        })
    );
    assert_eq!(preload_check(ServerMessage::Pong), Err(ProtocolError::UnexpectedMessage));
}

#[test]
fn one_piece_of_work_at_a_time() {
    let mut task = connected_task();
    assert_eq!(task.handle_tick(), TickAction::Ping);
    assert_eq!(task.handle_tick(), TickAction::Idle);
    assert_eq!(
        task.handle_command(Command::Shutdown),
        CommandOutcome::Reply(CommandReply::Shutdown)
    );
    assert_eq!(
        task.handle_command(Command::RetrieveAudio { achievement_id: [1; 16] }),
        CommandOutcome::Reply(CommandReply::Audio(AudioResponse::Disconnected))
    );
    task.finish_ping(ping(ServerMessage::Pong));
    assert!(task.is_connected());
    assert_eq!(
        task.handle_command(Command::Bloop { nfc_uid: NfcUid::Single([1, 2, 3, 4]) }),
        CommandOutcome::Exchange(ClientMessage::Bloop { nfc_uid: NfcUid::Single([1, 2, 3, 4]) })
    );
    assert_eq!(task.handle_tick(), TickAction::Idle);
    assert_eq!(
        task.handle_command(Command::Bloop { nfc_uid: NfcUid::Single([5, 6, 7, 8]) }),
        CommandOutcome::Reply(CommandReply::Bloop(BloopResponse::Rejected))
    );
    assert!(task.is_connected());
    // A new connection state is taken whatever goes on, and what was on the
    // wire for the old one counts no more.
    assert_eq!(
        task.handle_command(Command::SetConnectionState(connection_state())),
        CommandOutcome::Persist
    );
    assert!(!task.is_connected());
    assert_eq!(
        task.handle_response(bloop(ServerMessage::Pong), BloopResponse::Rejected),
        BloopResponse::Rejected
    );
    assert_eq!(task.handle_tick(), TickAction::Connect(connection_state()));
}

#[test]
fn failed_ping_drops_the_session() {
    let mut task = connected_task();
    assert_eq!(task.handle_tick(), TickAction::Ping);
    task.finish_ping(ping(ServerMessage::AuthenticationAccepted));
    assert!(!task.is_connected());
    assert_eq!(task.status(), NetworkStatus::Disconnected);
    assert_eq!(ping(ServerMessage::Pong), Ok(()));
}

#[test]
fn shutdown_with_a_session_says_farewell_and_stops_the_ticks() {
    let mut task = connected_task();
    assert_eq!(
        task.handle_command(Command::Shutdown),
        CommandOutcome::SendAndReply(ClientMessage::Quit, CommandReply::Shutdown)
    );
    assert!(!task.is_connected());
    for _ in 0..5 {
        assert_eq!(task.handle_tick(), TickAction::Idle);
    }
}

#[test]
fn new_connection_state_drops_the_session() {
    let mut task = connected_task();
    let mut other = connection_state();
    other.host = "other.example".to_string();
    assert_eq!(
        task.handle_command(Command::SetConnectionState(other.clone())),
        CommandOutcome::Persist
    );
    assert!(!task.is_connected());
    assert_eq!(task.status(), NetworkStatus::Disconnected);
    assert_eq!(task.state().clone(), NetworkState { connection: Some(other.clone()) });
    assert_eq!(task.handle_tick(), TickAction::Connect(other));
}

#[test]
fn results_out_of_turn_change_nothing() {
    let mut task = connected_task();
    task.finish_connect(Ok(None));
    task.finish_ping::<()>(Err(()));
    assert_eq!(task.handle_response::<u8, ()>(Err(()), 7), 7);
    assert_eq!(task.handle_response::<u8, ()>(Ok(1), 7), 1);
    assert!(task.is_connected());
    assert_eq!(
        task.status(),
        NetworkStatus::Connected { capabilities: Capabilities::preload_check() }
    );
    assert_eq!(RootCertSource::default(), RootCertSource::BuiltIn);
}
