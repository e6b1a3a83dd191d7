use bloop_box::hardware::nfc::NfcUid;
use bloop_box::hexstr::HexError;
use bloop_box::network::message::AchievementRecord;
use bloop_box::network::message::Capabilities;
use bloop_box::network::message::ClientMessage;
use bloop_box::network::message::Cursor;
use bloop_box::network::message::DataHash;
use bloop_box::network::message::DecodeError;
use bloop_box::network::message::ErrorResponse;
use bloop_box::network::message::FilenameError;
use bloop_box::network::message::IpAddress;
use bloop_box::network::message::Message;
use bloop_box::network::message::ServerMessage;

fn id(seed: u8) -> [u8; 16] {
    let mut id = [0u8; 16];
    for (i, byte) in id.iter_mut().enumerate() {
        *byte = seed.wrapping_add(i as u8);
    }
    id
}

fn declared_length(frame: &[u8]) -> usize {
    u32::from_le_bytes([frame[1], frame[2], frame[3], frame[4]]) as usize
}

#[test]
fn frame_is_tag_length_payload() {
    let bytes = Message::new(0x0b, vec![9, 8, 7]).into_bytes();
    assert_eq!(bytes, vec![0x0b, 3, 0, 0, 0, 9, 8, 7]);
    assert_eq!(Message::new(0x05, vec![]).into_bytes(), vec![0x05, 0, 0, 0, 0]);
    let long = Message::new(1, vec![0xaa; 0x1_0203]).into_bytes();
    assert_eq!(&long[..5], &[1, 0x03, 0x02, 0x01, 0x00]);
    assert_eq!(long.len(), 5 + 0x1_0203);
}

#[test]
fn frame_reads_back() {
    let message = Message::new(0x09, vec![1, 2, 3, 4]);
    let bytes = message.clone().into_bytes();
    assert_eq!(Message::from_bytes(&bytes), Ok(message));
    assert_eq!(Message::read_header(&[0x0e, 0x10, 0x27, 0, 0]), (0x0e, 10_000));
    assert_eq!(Message::from_bytes(&bytes[..4]), Err(DecodeError::UnexpectedEof));
    assert_eq!(Message::from_bytes(&bytes[..8]), Err(DecodeError::UnexpectedEof));
}

#[test]
fn client_messages_encode_as_specified() {
    let handshake = ClientMessage::ClientHandshake { min_version: 3, max_version: 3 };
    assert_eq!(Message::from(handshake).into_bytes(), vec![0x01, 2, 0, 0, 0, 3, 3]);

    let auth = ClientMessage::Authentication {
        client_id: "box".to_string(),
        client_secret: "s3".to_string(),
        ip_addr: IpAddress::V4([192, 168, 1, 7]),
    };
    assert_eq!(
        Message::from(auth).into_bytes(),
        vec![0x03, 12, 0, 0, 0, 3, b'b', b'o', b'x', 2, b's', b'3', 4, 192, 168, 1, 7]
    );

    let auth6 = ClientMessage::Authentication {
        client_id: String::new(),
        client_secret: String::new(),
        ip_addr: IpAddress::V6(id(1)),
    };
    let bytes = Message::from(auth6).into_bytes();
    assert_eq!(&bytes[..8], &[0x03, 19, 0, 0, 0, 0, 0, 6]);
    assert_eq!(&bytes[8..], &id(1));

    assert_eq!(Message::from(ClientMessage::Ping).into_bytes(), vec![0x05, 0, 0, 0, 0]);
    assert_eq!(Message::from(ClientMessage::Quit).into_bytes(), vec![0x07, 0, 0, 0, 0]);

    let bloop = ClientMessage::Bloop { nfc_uid: NfcUid::Single([0xde, 0xad, 0xbe, 0xef]) };
    assert_eq!(
        Message::from(bloop).into_bytes(),
        vec![0x08, 5, 0, 0, 0, 4, 0xde, 0xad, 0xbe, 0xef]
    );

    let audio = ClientMessage::RetrieveAudio { achievement_id: id(0x10) };
    let bytes = Message::from(audio).into_bytes();
    assert_eq!(&bytes[..5], &[0x0a, 16, 0, 0, 0]);
    assert_eq!(&bytes[5..], &id(0x10));

    let none = ClientMessage::PreloadCheck { audio_manifest_hash: None };
    assert_eq!(Message::from(none).into_bytes(), vec![0x0c, 1, 0, 0, 0, 0]);
    let some = ClientMessage::PreloadCheck {
        audio_manifest_hash: Some(DataHash::from(vec![0xca, 0xfe])),
    };
    assert_eq!(Message::from(some).into_bytes(), vec![0x0c, 3, 0, 0, 0, 2, 0xca, 0xfe]);
}

fn all_client_messages() -> Vec<ClientMessage> {
    vec![
        ClientMessage::ClientHandshake { min_version: 3, max_version: 3 },
        ClientMessage::Authentication {
            client_id: "client-\u{e9}".to_string(),
            client_secret: "secret".to_string(),
            ip_addr: IpAddress::V4([10, 0, 0, 1]),
        },
        ClientMessage::Authentication {
            client_id: "a".to_string(),
            client_secret: "b".to_string(),
            ip_addr: IpAddress::V6(id(3)),
        },
        ClientMessage::Ping,
        ClientMessage::Quit,
        ClientMessage::Bloop { nfc_uid: NfcUid::Double([1, 2, 3, 4, 5, 6, 7]) },
        ClientMessage::RetrieveAudio { achievement_id: id(9) },
        ClientMessage::PreloadCheck { audio_manifest_hash: None },
        ClientMessage::PreloadCheck { audio_manifest_hash: Some(DataHash::from(vec![1, 2, 3])) },
    ]
}

fn all_server_messages() -> Vec<ServerMessage> {
    vec![
        ServerMessage::Error(ErrorResponse::UnexpectedMessage),
        ServerMessage::Error(ErrorResponse::AudioUnavailable),
        ServerMessage::ServerHandshake {
            accepted_version: 3,
            capabilities: Capabilities::from(0x0102_0304_0506_0701),
        },
        ServerMessage::AuthenticationAccepted,
        ServerMessage::Pong,
        ServerMessage::BloopAccepted { achievements: vec![] },
        ServerMessage::BloopAccepted {
            achievements: vec![
                AchievementRecord { id: id(1), audio_file_hash: None },
                AchievementRecord { id: id(2), audio_file_hash: Some(DataHash::from(vec![7; 20])) },
            ],
        },
        ServerMessage::AudioData { data: vec![] },
        ServerMessage::AudioData { data: vec![5; 300] },
        ServerMessage::PreloadMatch,
        ServerMessage::PreloadMismatch {
            audio_manifest_hash: DataHash::from(vec![9, 9]),
            achievements: vec![AchievementRecord {
                id: id(4),
                audio_file_hash: Some(DataHash::from(vec![1])),
            }],
        },
    ]
}

#[test]
fn declared_length_is_payload_length_for_every_variant() {
    for message in all_client_messages() {
        let frame = Message::from(message).into_bytes();
        assert_eq!(declared_length(&frame), frame.len() - 5);
    }
    for message in all_server_messages() {
        let frame = Message::from(message).into_bytes();
        assert_eq!(declared_length(&frame), frame.len() - 5);
    }
}

#[test]
fn client_messages_read_back() {
    for (message, again) in all_client_messages().into_iter().zip(all_client_messages()) {
        let frame = Message::from(message).into_bytes();
        let read = Message::from_bytes(&frame).unwrap();
        assert_eq!(ClientMessage::try_from(read), Ok(again));
    }
}

#[test]
fn server_messages_read_back() {
    for (message, again) in all_server_messages().into_iter().zip(all_server_messages()) {
        let frame = Message::from(message).into_bytes();
        let read = Message::from_bytes(&frame).unwrap();
        assert_eq!(ServerMessage::try_from(read), Ok(again));
    }
}

#[test]
fn server_messages_decode_from_given_bytes() {
    assert_eq!(
        ServerMessage::try_from(Message::new(0x00, vec![4])),
        Ok(ServerMessage::Error(ErrorResponse::UnknownNfcUid))
    );
    assert_eq!(
        ServerMessage::try_from(Message::new(0x02, vec![3, 1, 0, 0, 0, 0, 0, 0, 0])),
        Ok(ServerMessage::ServerHandshake {
            accepted_version: 3,
            capabilities: Capabilities::preload_check(),
        })
    );
    assert_eq!(
        ServerMessage::try_from(Message::new(0x02, vec![3, 0, 0, 0, 0, 0, 0, 0, 0x80])),
        Ok(ServerMessage::ServerHandshake {
            accepted_version: 3,
            capabilities: Capabilities::from(0x8000_0000_0000_0000),
        })
    );
    let mut payload = vec![2u8];
    payload.extend_from_slice(&id(1));
    payload.push(0);
    payload.extend_from_slice(&id(2));
    payload.extend_from_slice(&[3, 0xa, 0xb, 0xc]);
    assert_eq!(
        ServerMessage::try_from(Message::new(0x09, payload)),
        Ok(ServerMessage::BloopAccepted {
            achievements: vec![
                AchievementRecord { id: id(1), audio_file_hash: None },
                AchievementRecord {
                    id: id(2),
                    audio_file_hash: Some(DataHash::from(vec![0xa, 0xb, 0xc])),
                },
            ],
        })
    );
    assert_eq!(
        ServerMessage::try_from(Message::new(0x0b, vec![2, 0, 0, 0, 0x11, 0x22, 0x33])),
        Ok(ServerMessage::AudioData { data: vec![0x11, 0x22] })
    );
    let mut payload = vec![1u8, 0x77, 1, 0, 0, 0];
    payload.extend_from_slice(&id(5));
    payload.push(0);
    assert_eq!(
        ServerMessage::try_from(Message::new(0x0e, payload)),
        Ok(ServerMessage::PreloadMismatch {
            audio_manifest_hash: DataHash::from(vec![0x77]),
            achievements: vec![AchievementRecord { id: id(5), audio_file_hash: None }],
        })
    );
    assert_eq!(ServerMessage::try_from(Message::new(0x04, vec![])), Ok(ServerMessage::AuthenticationAccepted));
    assert_eq!(ServerMessage::try_from(Message::new(0x06, vec![1, 2])), Ok(ServerMessage::Pong));
    assert_eq!(ServerMessage::try_from(Message::new(0x0d, vec![])), Ok(ServerMessage::PreloadMatch));
}

#[test]
fn every_error_code_maps_to_its_error() {
    let errors = [
        ErrorResponse::UnexpectedMessage,
        ErrorResponse::MalformedMessage,
        ErrorResponse::UnsupportedVersionRange,
        ErrorResponse::InvalidCredentials,
        ErrorResponse::UnknownNfcUid,
        ErrorResponse::NfcUidThrottled,
        ErrorResponse::AudioUnavailable,
    ];
    for (code, error) in errors.iter().enumerate() {
        assert_eq!(ErrorResponse::try_from(code as u8), Ok(*error));
        assert_eq!(error.code(), code as u8);
    }
    for code in 7..=255u8 {
        assert_eq!(ErrorResponse::try_from(code), Err(DecodeError::UnknownErrorCode(code)));
    }
}

#[test]
fn malformed_server_messages_fail() {
    assert_eq!(
        ServerMessage::try_from(Message::new(0x01, vec![])),
        Err(DecodeError::UnknownMessageType(0x01))
    );
    assert_eq!(
        ServerMessage::try_from(Message::new(0xff, vec![1, 2, 3])),
        Err(DecodeError::UnknownMessageType(0xff))
    );
    assert_eq!(
        ServerMessage::try_from(Message::new(0x00, vec![9])),
        Err(DecodeError::UnknownErrorCode(9))
    );
    assert_eq!(ServerMessage::try_from(Message::new(0x00, vec![])), Err(DecodeError::UnexpectedEof));
    assert_eq!(
        ServerMessage::try_from(Message::new(0x02, vec![3, 1, 0, 0])),
        Err(DecodeError::UnexpectedEof)
    );
    assert_eq!(
        ServerMessage::try_from(Message::new(0x09, vec![1, 1, 2, 3])),
        Err(DecodeError::UnexpectedEof)
    );
    let mut payload = vec![1u8];
    payload.extend_from_slice(&id(1));
    payload.extend_from_slice(&[4, 1, 2]);
    assert_eq!(ServerMessage::try_from(Message::new(0x09, payload)), Err(DecodeError::UnexpectedEof));
    assert_eq!(
        ServerMessage::try_from(Message::new(0x0b, vec![0xff, 0xff, 0xff, 0xff, 1])),
        Err(DecodeError::UnexpectedEof)
    );
    assert_eq!(
        ServerMessage::try_from(Message::new(0x0e, vec![0, 0, 0, 0, 0])),
        Err(DecodeError::MissingAudioManifestHash)
    );
    assert_eq!(
        ServerMessage::try_from(Message::new(0x0e, vec![1, 5, 0xff, 0xff, 0xff, 0xff])),
        Err(DecodeError::UnexpectedEof)
    );
}

#[test]
fn malformed_client_messages_fail() {
    assert_eq!(
        ClientMessage::try_from(Message::new(0x02, vec![])),
        Err(DecodeError::UnknownMessageType(0x02))
    );
    assert_eq!(ClientMessage::try_from(Message::new(0x01, vec![3])), Err(DecodeError::UnexpectedEof));
    assert_eq!(
        ClientMessage::try_from(Message::new(0x03, vec![2, 0xff, 0xfe, 0, 4, 1, 2, 3, 4])),
        Err(DecodeError::InvalidText)
    );
    assert_eq!(
        ClientMessage::try_from(Message::new(0x03, vec![0, 0, 5, 1, 2, 3, 4])),
        Err(DecodeError::UnknownAddressFamily(5))
    );
    assert_eq!(
        ClientMessage::try_from(Message::new(0x08, vec![3, 1, 2, 3])),
        Err(DecodeError::InvalidNfcUid)
    );
}

#[test]
fn data_hash_tagged_and_hex_forms() {
    let hash = DataHash::from(vec![0x00, 0x0f, 0xf0, 0xff]);
    assert_eq!(hash.as_bytes(), &[0x00, 0x0f, 0xf0, 0xff]);
    assert_eq!(hash.to_hex(), "000ff0ff");
    assert_eq!(DataHash::from_hex("000FF0ff"), Ok(hash.clone()));
    assert_eq!(hash.clone().into_tagged_bytes(), vec![4, 0x00, 0x0f, 0xf0, 0xff]);
    assert_eq!(DataHash::from_hex(""), Ok(DataHash::from(vec![])));
    assert_eq!(DataHash::from_hex("abc"), Err(HexError::OddLength));
    assert_eq!(
        DataHash::from_hex("zz"),
        Err(HexError::InvalidHexCharacter { c: 'z', index: 0 })
    );
    assert_eq!(
        DataHash::from_hex("0a1x"),
        Err(HexError::InvalidHexCharacter { c: 'x', index: 3 })
    );
}

#[test]
fn data_hash_hex_round_trip_for_every_byte() {
    let all: Vec<u8> = (0..=255u8).collect();
    let hash = DataHash::from(all);
    assert_eq!(DataHash::from_hex(&hash.to_hex()), Ok(hash));
}

#[test]
fn data_hash_from_cursor() {
    let mut cursor = Cursor::new(vec![2, 0xaa, 0xbb, 0, 1]);
    assert_eq!(DataHash::from_cursor_opt(&mut cursor), Ok(Some(DataHash::from(vec![0xaa, 0xbb]))));
    assert_eq!(cursor.remaining_len(), 2);
    assert_eq!(DataHash::from_cursor_opt(&mut cursor), Ok(None));
    assert_eq!(DataHash::from_cursor_opt(&mut cursor), Err(DecodeError::UnexpectedEof));
    let mut empty = Cursor::new(vec![]);
    assert_eq!(DataHash::from_cursor_opt(&mut empty), Err(DecodeError::UnexpectedEof));
}

#[test]
fn cursor_reads_little_endian() {
    let mut cursor = Cursor::new(vec![7, 0x78, 0x56, 0x34, 0x12, 1, 2, 3, 4, 5, 6, 7, 8, 9]);
    assert_eq!(cursor.read_u8(), Ok(7));
    assert_eq!(cursor.read_u32_le(), Ok(0x1234_5678));
    assert_eq!(cursor.read_u64_le(), Ok(0x0807_0605_0403_0201));
    assert_eq!(cursor.read_u32_le(), Err(DecodeError::UnexpectedEof));
    assert_eq!(cursor.read_exact(2), Err(DecodeError::UnexpectedEof));
    assert_eq!(cursor.read_exact(1), Ok(vec![9]));
    assert_eq!(cursor.read_u8(), Err(DecodeError::UnexpectedEof));
}

#[test]
fn capabilities_contain_their_bits() {
    let caps = Capabilities::from(0b101);
    assert_eq!(caps.bits(), 5);
    assert!(caps.contains(Capabilities::preload_check()));
    assert!(caps.contains(Capabilities::none()));
    assert!(!caps.contains(Capabilities::from(0b10)));
    assert!(!Capabilities::none().contains(Capabilities::preload_check()));
    assert!(!Capabilities::from(0b10).contains(Capabilities::preload_check()));
}

#[test]
fn filename_joins_id_and_hash() {
    let record = AchievementRecord {
        id: [0, 1, 2, 3, 4, 5, 6, 7, 8, 9, 0xa, 0xb, 0xc, 0xd, 0xe, 0xff],
        audio_file_hash: Some(DataHash::from(vec![0xab, 0xcd])),
    };
    assert_eq!(record.filename(), Ok("000102030405060708090a0b0c0d0eff-abcd.mp3".to_string()));
    assert_eq!(record.clone(), record);
    let silent = AchievementRecord { id: id(0), audio_file_hash: None };
    assert_eq!(silent.filename(), Err(FilenameError::NoAudioFileHash));
}

#[test]
fn cursor_stays_where_it_stood_when_a_field_is_cut_off() {
    let mut cursor = Cursor::new(vec![3, 0xaa, 0xbb]);
    assert_eq!(DataHash::from_cursor_opt(&mut cursor), Err(DecodeError::UnexpectedEof));
    assert_eq!(cursor.remaining_len(), 3);
    assert_eq!(cursor.read_u8(), Ok(3));
}
