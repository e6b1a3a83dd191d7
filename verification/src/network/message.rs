//! The wire format: framed messages, and what client and server say in them.

use crate::bytes::le_u32;
use crate::bytes::le_u64;
use crate::bytes::read_u32_le;
use crate::bytes::read_u64_le;
use crate::bytes::u32_le;
use crate::bytes::u32_to_le_bytes;
use crate::bytes::u64_le;
use crate::bytes::u64_to_le_bytes;
use crate::hardware::nfc::NfcUid;
use crate::hexstr;
use crate::hexstr::HexError;
use vstd::prelude::*;
use vstd::slice::slice_subrange;
use vstd::std_specs::convert::FromSpecImpl;
use vstd::std_specs::convert::TryFromSpecImpl;
use vstd::string::StringSliceAdditionalSpecFns;

verus! {

/// Why a payload could not be read.
#[derive(Clone, Copy, Debug, PartialEq, Eq, Structural)]
pub enum DecodeError {
    /// The payload ends before the field does.
    UnexpectedEof,
    /// A text is not UTF-8.
    InvalidText,
    /// The marker of an address is neither 4 nor 6.
    UnknownAddressFamily(u8),
    /// A tag identifier is not 4, 7 or 10 bytes long, or other bytes follow
    /// it.
    InvalidNfcUid,
    /// An error message carries a code that stands for no error.
    UnknownErrorCode(u8),
    /// A manifest hash of length zero stands where one is owed.
    MissingAudioManifestHash,
    /// The type tag stands for no message.
    UnknownMessageType(u8),
}

/// One frame: a type tag and a payload.
#[derive(Debug, PartialEq, Eq)]
pub struct Message {
    message_type: u8,
    payload: Vec<u8>,
}

/// The bytes of a frame: the type tag, the payload length in four
/// little-endian bytes, the payload.
pub open spec fn frame(message_type: u8, payload: Seq<u8>) -> Seq<u8> {
    seq![message_type] + u32_le(payload.len() as u32) + payload
}

impl View for Message {
    type V = (u8, Seq<u8>);

    /// The type tag and the payload.
    closed spec fn view(&self) -> (u8, Seq<u8>) {
        (self.message_type, self.payload@)
    }
}

impl Clone for Message {
    fn clone(&self) -> (copy: Self)
        ensures
            copy@ == self@,
    {
        Message { message_type: self.message_type, payload: self.payload.clone() }
    }
}

impl Message {
    /// The frame with this type tag and this payload.
    pub fn new(message_type: u8, payload: Vec<u8>) -> (message: Self)
        ensures
            message@ == (message_type, payload@),
    {
        Self { message_type, payload }
    }

    /// The frame as it goes over the wire.
    pub fn into_bytes(self) -> (bytes: Vec<u8>)
        ensures
            bytes@ == frame(self@.0, self@.1),
    {
        let mut bytes = Vec::with_capacity(5);
        bytes.push(self.message_type);
        let length = u32_to_le_bytes(self.payload.len() as u32);
        bytes.extend_from_slice(length.as_slice());
        bytes.extend_from_slice(self.payload.as_slice());
        assert(bytes@ =~= frame(self@.0, self@.1));
        bytes
    }
}

/// What reading a frame from `bytes` gives: the type tag and as many
/// payload bytes as the header declares. Bytes behind the frame are not
/// looked at.
pub open spec fn unframe(bytes: Seq<u8>) -> Result<(u8, Seq<u8>), DecodeError> {
    if bytes.len() < 5 {
        Err(DecodeError::UnexpectedEof)
    } else if bytes.len() - 5 < le_u32(bytes.skip(1)) {
        Err(DecodeError::UnexpectedEof)
    } else {
        Ok((bytes[0], bytes.subrange(5, 5 + le_u32(bytes.skip(1)))))
    }
}

impl Message {
    /// Reads the header of a frame: the type tag and the length of the
    /// payload that follows.
    pub fn read_header(header: &[u8; 5]) -> (res: (u8, u32))
        ensures
            res.0 == header@[0],
            res.1 == le_u32(header@.skip(1)),
    {
        let length = read_u32_le(slice_subrange(header.as_slice(), 1, 5));
        proof {
            assert(header@.subrange(1, 5) =~= header@.skip(1));
        }
        (header[0], length)
    }

    /// Reads a frame.
    pub fn from_bytes(bytes: &[u8]) -> (res: Result<Message, DecodeError>)
        ensures
            match unframe(bytes@) {
                Ok(found) => res is Ok && res.unwrap()@ == found,
                Err(e) => res is Err && res.unwrap_err() == e,
            },
    {
        if bytes.len() < 5 {
            return Err(DecodeError::UnexpectedEof);
        }
        let length = read_u32_le(slice_subrange(bytes, 1, 5));
        proof {
            assert(le_u32(bytes@.subrange(1, 5)) == le_u32(bytes@.skip(1)));
        }
        if bytes.len() - 5 < length as usize {
            return Err(DecodeError::UnexpectedEof);
        }
        let payload = vstd::slice::slice_to_vec(slice_subrange(bytes, 5, 5 + length as usize));
        Ok(Message { message_type: bytes[0], payload })
    }
}

/// Reading a frame gives back what it was made of, wherever the payload
/// length fits in four bytes.
pub proof fn lemma_unframe_frame(message_type: u8, payload: Seq<u8>, rest: Seq<u8>)
    requires
        payload.len() <= u32::MAX,
    ensures
        unframe(frame(message_type, payload) + rest) == Ok::<(u8, Seq<u8>), DecodeError>(
            (message_type, payload),
        ),
{
    let f = frame(message_type, payload) + rest;
    crate::bytes::lemma_u32_le_round_trip(payload.len() as u32);
    assert(f.skip(1).take(4) =~= u32_le(payload.len() as u32));
    assert(le_u32(f.skip(1)) == le_u32(f.skip(1).take(4)));
    assert(f.subrange(5, 5 + payload.len() as int) =~= payload);
}

/// The declared payload length of a frame is the length of its payload,
/// wherever that fits in four bytes.
pub proof fn lemma_frame_length(message_type: u8, payload: Seq<u8>)
    requires
        payload.len() <= u32::MAX,
    ensures
        frame(message_type, payload).len() == 5 + payload.len(),
        frame(message_type, payload)[0] == message_type,
        le_u32(frame(message_type, payload).skip(1)) == payload.len(),
        frame(message_type, payload).skip(5) == payload,
{
    let f = frame(message_type, payload);
    crate::bytes::lemma_u32_le_round_trip(payload.len() as u32);
    assert(f.skip(1).take(4) =~= u32_le(payload.len() as u32));
    assert(f.skip(5) =~= payload);
}

/// A content hash: bytes that name one version of some content.
#[derive(Debug, PartialEq, Eq)]
pub struct DataHash(Vec<u8>);

impl View for DataHash {
    type V = Seq<u8>;

    /// The bytes of the hash.
    closed spec fn view(&self) -> Seq<u8> {
        self.0@
    }
}

impl Clone for DataHash {
    fn clone(&self) -> (copy: Self)
        ensures
            copy@ == self@,
    {
        DataHash(self.0.clone())
    }
}

impl FromSpecImpl<Vec<u8>> for DataHash {
    open spec fn obeys_from_spec() -> bool {
        false
    }

    closed spec fn from_spec(value: Vec<u8>) -> DataHash {
        DataHash(value)
    }
}

impl From<Vec<u8>> for DataHash {
    fn from(value: Vec<u8>) -> (hash: Self)
        ensures
            hash@ == value@,
    {
        Self(value)
    }
}

/// The tagged form of a hash that is there: its length in one byte, then
/// its bytes. A length of zero stands for no hash.
pub open spec fn tagged_hash(hash: Seq<u8>) -> Seq<u8> {
    seq![hash.len() as u8] + hash
}

/// The tagged form of a hash that may be missing.
pub open spec fn tagged_hash_opt(hash: Option<Seq<u8>>) -> Seq<u8> {
    match hash {
        Some(bytes) => tagged_hash(bytes),
        None => seq![0u8],
    }
}

/// A tagged hash off the front of `s`: the length byte, then as many bytes.
pub open spec fn take_hash_opt(s: Seq<u8>) -> Result<(Option<Seq<u8>>, Seq<u8>), DecodeError> {
    if s.len() < 1 {
        Err(DecodeError::UnexpectedEof)
    } else if s[0] == 0 {
        Ok((None, s.skip(1)))
    } else if s.len() < 1 + s[0] {
        Err(DecodeError::UnexpectedEof)
    } else {
        Ok((Some(s.subrange(1, 1 + s[0])), s.skip(1 + s[0])))
    }
}

impl DataHash {
    /// The bytes of the hash.
    pub fn as_bytes(&self) -> (bytes: &[u8])
        ensures
            bytes@ == self@,
    {
        self.0.as_slice()
    }

    /// The hash as lower-case hex text, the form in which it is stored.
    pub fn to_hex(&self) -> (text: String)
        ensures
            text@ == hexstr::encode_lower(self@),
    {
        hexstr::encode(self.as_bytes())
    }

    /// Reads a hash from hex text: it fails where the text has an odd number
    /// of digits or holds a byte that is no hex digit, and on nothing else.
    pub fn from_hex(hex: &str) -> (res: Result<DataHash, HexError>)
        ensures
            match hexstr::decode(hex.spec_bytes()) {
                Ok(bytes) => res is Ok && res.unwrap()@ == bytes,
                Err(e) => res == Err::<DataHash, HexError>(e),
            },
    {
        let hex_bytes = hex.as_bytes();
        let mut decoded = vec![0u8; hex_bytes.len() / 2];
        match hexstr::decode_to_slice(hex_bytes, &mut decoded) {
            Ok(()) => Ok(DataHash::from(decoded)),
            Err(e) => Err(e),
        }
    }

    /// The length of the hash in one byte, then its bytes.
    pub fn into_tagged_bytes(self) -> (bytes: Vec<u8>)
        ensures
            bytes@ == tagged_hash(self@),
    {
        let mut bytes = Vec::with_capacity(1);
        bytes.push(self.0.len() as u8);
        bytes.extend_from_slice(self.0.as_slice());
        assert(bytes@ =~= tagged_hash(self@));
        bytes
    }

    /// Reads a tagged hash; a length of zero gives `None`.
    pub fn from_cursor_opt(cursor: &mut Cursor) -> (res: Result<Option<DataHash>, DecodeError>)
        ensures
            final(cursor).follows(old(cursor)),
            match take_hash_opt(old(cursor).remaining()) {
                Ok((hash, rest)) => res is Ok && hash_opt_view(res.unwrap()) == hash && final(cursor).remaining() == rest,
                Err(e) => res == Err::<Option<DataHash>, DecodeError>(e) && final(cursor).remaining() == old(cursor).remaining(),
            },
    {
        let ghost before = cursor.remaining();
        let start = cursor.mark();
        let length = match cursor.read_u8() {
            Ok(length) => length,
            Err(e) => {
                return Err(e);
            },
        };
        if length == 0 {
            return Ok(None);
        }
        match cursor.read_exact(length as usize) {
            Ok(bytes) => {
                proof {
                    assert(before.skip(1).take(length as int) =~= before.subrange(
                        1,
                        1 + length as int,
                    ));
                    assert(before.skip(1).skip(length as int) =~= before.skip(1 + length as int));
                }
                Ok(Some(DataHash(bytes)))
            },
            Err(e) => {
                cursor.rewind(start);
                assert(cursor.remaining() == old(cursor).remaining());
                Err(e)
            },
        }
    }
}

/// The bytes of a hash that may be missing.
pub open spec fn hash_opt_view(hash: Option<DataHash>) -> Option<Seq<u8>> {
    match hash {
        Some(hash) => Some(hash@),
        None => None,
    }
}

/// Reading the stored hex text of a hash gives the hash back: what
/// `from_hex` makes of the text that `to_hex` wrote holds the same bytes.
pub proof fn lemma_hash_hex_round_trip(hash: Seq<u8>)
    ensures
        hexstr::decode(vstd::utf8::encode_utf8(hexstr::encode_lower(hash))) == Ok::<
            Seq<u8>,
            HexError,
        >(hash),
{
    hexstr::lemma_round_trip(hash);
}

/// Reading the tagged form of a hash gives the hash back, where its length
/// fits the length byte; a missing hash and an empty one read as missing.
pub proof fn lemma_tagged_hash_round_trip(hash: Option<Seq<u8>>, rest: Seq<u8>)
    requires
        hash matches Some(bytes) ==> bytes.len() < 256,
    ensures
        take_hash_opt(tagged_hash_opt(hash) + rest) == Ok::<
            (Option<Seq<u8>>, Seq<u8>),
            DecodeError,
        >(
            (
                match hash {
                    Some(bytes) if bytes.len() > 0 => Some(bytes),
                    _ => None,
                },
                rest,
            ),
        ),
{
    let s = tagged_hash_opt(hash) + rest;
    match hash {
        Some(bytes) => {
            assert(s[0] == bytes.len());
            if bytes.len() > 0 {
                assert(s.subrange(1, 1 + s[0]) =~= bytes);
                assert(s.skip(1 + s[0]) =~= rest);
            } else {
                assert(s.skip(1) =~= rest);
            }
        },
        None => {
            assert(s.skip(1) =~= rest);
        },
    }
}

/// The optional features that a server offers, one bit each.
#[derive(Clone, Copy, Debug, PartialEq, Eq, Structural)]
pub struct Capabilities {
    pub bits: u64,
}

impl View for Capabilities {
    type V = u64;

    /// The bits as they go over the wire.
    open spec fn view(&self) -> u64 {
        self.bits
    }
}

/// The bit that says that the server answers preload checks.
pub const PRELOAD_CHECK_BIT: u64 = 0x1;

impl FromSpecImpl<u64> for Capabilities {
    open spec fn obeys_from_spec() -> bool {
        true
    }

    open spec fn from_spec(bits: u64) -> Capabilities {
        Capabilities { bits }
    }
}

impl From<u64> for Capabilities {
    /// The set with exactly the bits of `bits`; unknown bits are kept.
    fn from(bits: u64) -> (capabilities: Self)
        ensures
            capabilities@ == bits,
    {
        Self { bits }
    }
}

impl Capabilities {
    /// The set that holds the preload check and nothing else.
    pub fn preload_check() -> (capabilities: Self)
        ensures
            capabilities@ == PRELOAD_CHECK_BIT,
    {
        Self { bits: PRELOAD_CHECK_BIT }
    }

    /// The empty set.
    pub fn none() -> (capabilities: Self)
        ensures
            capabilities@ == 0,
    {
        Self { bits: 0 }
    }

    /// The bits as they go over the wire.
    pub fn bits(&self) -> (bits: u64)
        ensures
            bits == self@,
    {
        self.bits
    }

    /// Whether every feature of `other` is in this set.
    pub fn contains(&self, other: Capabilities) -> (all: bool)
        ensures
            all == (self@ & other@ == other@),
    {
        self.bits & other.bits == other.bits
    }
}

/// What a server may answer in place of what was asked for.
#[derive(Clone, Copy, Debug, PartialEq, Eq, Structural)]
pub enum ErrorResponse {
    UnexpectedMessage,
    MalformedMessage,
    UnsupportedVersionRange,
    InvalidCredentials,
    UnknownNfcUid,
    NfcUidThrottled,
    AudioUnavailable,
}

impl ErrorResponse {
    /// The code of the error on the wire.
    pub open spec fn spec_code(self) -> u8 {
        match self {
            ErrorResponse::UnexpectedMessage => 0,
            ErrorResponse::MalformedMessage => 1,
            ErrorResponse::UnsupportedVersionRange => 2,
            ErrorResponse::InvalidCredentials => 3,
            ErrorResponse::UnknownNfcUid => 4,
            ErrorResponse::NfcUidThrottled => 5,
            ErrorResponse::AudioUnavailable => 6,
        }
    }

    /// The code of the error on the wire.
    #[verifier::when_used_as_spec(spec_code)]
    pub fn code(self) -> (code: u8)
        ensures
            code == self.spec_code(),
    {
        match self {
            ErrorResponse::UnexpectedMessage => 0,
            ErrorResponse::MalformedMessage => 1,
            ErrorResponse::UnsupportedVersionRange => 2,
            ErrorResponse::InvalidCredentials => 3,
            ErrorResponse::UnknownNfcUid => 4,
            ErrorResponse::NfcUidThrottled => 5,
            ErrorResponse::AudioUnavailable => 6,
        }
    }
}

impl TryFromSpecImpl<u8> for ErrorResponse {
    open spec fn obeys_try_from_spec() -> bool {
        true
    }

    open spec fn try_from_spec(code: u8) -> Result<ErrorResponse, DecodeError> {
        error_from_code(code)
    }
}

/// The error that a code stands for: codes 0 to 6 stand for the seven
/// errors, any other code is refused.
pub open spec fn error_from_code(code: u8) -> Result<ErrorResponse, DecodeError> {
    match code {
        0 => Ok(ErrorResponse::UnexpectedMessage),
        1 => Ok(ErrorResponse::MalformedMessage),
        2 => Ok(ErrorResponse::UnsupportedVersionRange),
        3 => Ok(ErrorResponse::InvalidCredentials),
        4 => Ok(ErrorResponse::UnknownNfcUid),
        5 => Ok(ErrorResponse::NfcUidThrottled),
        6 => Ok(ErrorResponse::AudioUnavailable),
        code => Err(DecodeError::UnknownErrorCode(code)),
    }
}

impl TryFrom<u8> for ErrorResponse {
    type Error = DecodeError;

    fn try_from(code: u8) -> (res: Result<Self, DecodeError>)
        ensures
            res == error_from_code(code),
    {
        match code {
            0 => Ok(Self::UnexpectedMessage),
            1 => Ok(Self::MalformedMessage),
            2 => Ok(Self::UnsupportedVersionRange),
            3 => Ok(Self::InvalidCredentials),
            4 => Ok(Self::UnknownNfcUid),
            5 => Ok(Self::NfcUidThrottled),
            6 => Ok(Self::AudioUnavailable),
            code => Err(DecodeError::UnknownErrorCode(code)),
        }
    }
}

/// Reading the code of an error gives the error back.
pub proof fn lemma_error_code_round_trip(error: ErrorResponse)
    ensures
        error_from_code(error.spec_code()) == Ok::<ErrorResponse, DecodeError>(error),
{
}

/// The identifier of an achievement: 128 bits.
pub type AchievementId = [u8; 16];

/// An achievement and, where it has audio, the hash of that audio.
#[derive(Debug, PartialEq, Eq)]
pub struct AchievementRecord {
    pub id: AchievementId,
    pub audio_file_hash: Option<DataHash>,
}

/// What an achievement record holds.
pub struct AchievementRecordView {
    pub id: Seq<u8>,
    pub audio_file_hash: Option<Seq<u8>>,
}

impl View for AchievementRecord {
    type V = AchievementRecordView;

    open spec fn view(&self) -> AchievementRecordView {
        AchievementRecordView {
            id: self.id@,
            audio_file_hash: hash_opt_view(self.audio_file_hash),
        }
    }
}

/// Why an achievement has no file in the cache.
#[derive(Clone, Copy, Debug, PartialEq, Eq, Structural)]
pub enum FilenameError {
    /// The achievement has no audio file hash.
    NoAudioFileHash,
}

/// The name of the cache file of an achievement with identifier `id` and
/// audio hash `hash`: both in lower-case hex with a hyphen between, and the
/// ending `.mp3`.
pub open spec fn cache_filename(id: Seq<u8>, hash: Seq<u8>) -> Seq<char> {
    hexstr::encode_lower(id) + seq!['-'] + hexstr::encode_lower(hash) + seq!['.', 'm', 'p', '3']
}

impl Clone for AchievementRecord {
    fn clone(&self) -> (copy: Self)
        ensures
            copy@ == self@,
    {
        let hash = match &self.audio_file_hash {
            Some(hash) => Some(hash.clone()),
            None => None,
        };
        AchievementRecord { id: self.id, audio_file_hash: hash }
    }
}

impl AchievementRecord {
    /// The name of the file that caches the audio of this achievement. An
    /// achievement without an audio hash has none.
    pub fn filename(&self) -> (res: Result<String, FilenameError>)
        ensures
            match self@.audio_file_hash {
                Some(hash) => res is Ok && res.unwrap()@ == cache_filename(self@.id, hash),
                None => res == Err::<String, FilenameError>(FilenameError::NoAudioFileHash),
            },
    {
        match &self.audio_file_hash {
            None => Err(FilenameError::NoAudioFileHash),
            Some(hash) => {
                let mut name = hexstr::encode(self.id.as_slice());
                proof {
                    reveal_strlit("-");
                    reveal_strlit(".mp3");
                }
                name.append("-");
                let hash_text = hexstr::encode(hash.as_bytes());
                name.append(hash_text.as_str());
                name.append(".mp3");
                assert(name@ =~= cache_filename(self@.id, hash@));
                Ok(name)
            },
        }
    }
}

/// The address that a client reports as its own.
#[derive(Clone, Copy, Debug, PartialEq, Eq)]
pub enum IpAddress {
    V4([u8; 4]),
    V6([u8; 16]),
}

/// An address on the wire: the family marker, 4 or 6, then the raw bytes.
pub open spec fn ip_bytes(ip: IpAddress) -> Seq<u8> {
    match ip {
        IpAddress::V4(octets) => seq![4u8] + octets@,
        IpAddress::V6(octets) => seq![6u8] + octets@,
    }
}

/// A text on the wire: the length of its UTF-8 form in one byte, then that
/// form.
pub open spec fn short_text(text: Seq<char>) -> Seq<u8> {
    seq![vstd::utf8::encode_utf8(text).len() as u8] + vstd::utf8::encode_utf8(text)
}

/// What a client says to the server.
#[derive(Debug, PartialEq, Eq)]
pub enum ClientMessage {
    ClientHandshake { min_version: u8, max_version: u8 },
    Authentication { client_id: String, client_secret: String, ip_addr: IpAddress },
    Ping,
    Quit,
    Bloop { nfc_uid: NfcUid },
    RetrieveAudio { achievement_id: AchievementId },
    PreloadCheck { audio_manifest_hash: Option<DataHash> },
}

/// What a client message holds.
pub enum ClientMessageView {
    ClientHandshake { min_version: u8, max_version: u8 },
    Authentication { client_id: Seq<char>, client_secret: Seq<char>, ip_addr: IpAddress },
    Ping,
    Quit,
    Bloop { nfc_uid: Seq<u8> },
    RetrieveAudio { achievement_id: Seq<u8> },
    PreloadCheck { audio_manifest_hash: Option<Seq<u8>> },
}

impl View for ClientMessage {
    type V = ClientMessageView;

    open spec fn view(&self) -> ClientMessageView {
        match *self {
            ClientMessage::ClientHandshake { min_version, max_version } => {
                ClientMessageView::ClientHandshake { min_version, max_version }
            },
            ClientMessage::Authentication { client_id, client_secret, ip_addr } => {
                ClientMessageView::Authentication {
                    client_id: client_id@,
                    client_secret: client_secret@,
                    ip_addr,
                }
            },
            ClientMessage::Ping => ClientMessageView::Ping,
            ClientMessage::Quit => ClientMessageView::Quit,
            ClientMessage::Bloop { nfc_uid } => ClientMessageView::Bloop { nfc_uid: nfc_uid@ },
            ClientMessage::RetrieveAudio { achievement_id } => ClientMessageView::RetrieveAudio {
                achievement_id: achievement_id@,
            },
            ClientMessage::PreloadCheck { audio_manifest_hash } => ClientMessageView::PreloadCheck {
                audio_manifest_hash: hash_opt_view(audio_manifest_hash),
            },
        }
    }
}

/// The type tag of a client message.
pub open spec fn client_tag(message: ClientMessageView) -> u8 {
    match message {
        ClientMessageView::ClientHandshake { .. } => 0x01,
        ClientMessageView::Authentication { .. } => 0x03,
        ClientMessageView::Ping => 0x05,
        ClientMessageView::Quit => 0x07,
        ClientMessageView::Bloop { .. } => 0x08,
        ClientMessageView::RetrieveAudio { .. } => 0x0a,
        ClientMessageView::PreloadCheck { .. } => 0x0c,
    }
}

/// The payload of a client message.
pub open spec fn client_payload(message: ClientMessageView) -> Seq<u8> {
    match message {
        ClientMessageView::ClientHandshake { min_version, max_version } => seq![
            min_version,
            max_version,
        ],
        ClientMessageView::Authentication { client_id, client_secret, ip_addr } => short_text(
            client_id,
        ) + short_text(client_secret) + ip_bytes(ip_addr),
        ClientMessageView::Ping => Seq::empty(),
        ClientMessageView::Quit => Seq::empty(),
        ClientMessageView::Bloop { nfc_uid } => crate::hardware::nfc::tagged(nfc_uid),
        ClientMessageView::RetrieveAudio { achievement_id } => achievement_id,
        ClientMessageView::PreloadCheck { audio_manifest_hash } => tagged_hash_opt(
            audio_manifest_hash,
        ),
    }
}

impl FromSpecImpl<ClientMessage> for Message {
    open spec fn obeys_from_spec() -> bool {
        false
    }

    closed spec fn from_spec(client_message: ClientMessage) -> Message {
        arbitrary()
    }
}

impl From<ClientMessage> for Message {
    /// The frame of a client message: its type tag and its payload.
    fn from(client_message: ClientMessage) -> (message: Message)
        ensures
            message@ == (client_tag(client_message@), client_payload(client_message@)),
    {
        match client_message {
            ClientMessage::ClientHandshake { min_version, max_version } => {
                let mut payload = Vec::with_capacity(2);
                payload.push(min_version);
                payload.push(max_version);
                assert(payload@ =~= client_payload(client_message@));
                Message::new(0x01, payload)
            },
            ClientMessage::Authentication { client_id, client_secret, ip_addr } => {
                let mut payload = Vec::with_capacity(3);
                let id_bytes = client_id.as_str().as_bytes();
                payload.push(id_bytes.len() as u8);
                payload.extend_from_slice(id_bytes);
                let secret_bytes = client_secret.as_str().as_bytes();
                payload.push(secret_bytes.len() as u8);
                payload.extend_from_slice(secret_bytes);
                match ip_addr {
                    IpAddress::V4(octets) => {
                        payload.push(4);
                        payload.extend_from_slice(octets.as_slice());
                    },
                    IpAddress::V6(octets) => {
                        payload.push(6);
                        payload.extend_from_slice(octets.as_slice());
                    },
                }
                assert(payload@ =~= client_payload(client_message@));
                Message::new(0x03, payload)
            },
            ClientMessage::Ping => Message::new(0x05, Vec::new()),
            ClientMessage::Quit => Message::new(0x07, Vec::new()),
            ClientMessage::Bloop { nfc_uid } => Message::new(0x08, nfc_uid.as_tagged_bytes()),
            ClientMessage::RetrieveAudio { achievement_id } => {
                let payload = vstd::slice::slice_to_vec(achievement_id.as_slice());
                Message::new(0x0a, payload)
            },
            ClientMessage::PreloadCheck { audio_manifest_hash } => {
                let payload = match audio_manifest_hash {
                    Some(hash) => hash.into_tagged_bytes(),
                    None => {
                        let mut none = Vec::with_capacity(1);
                        none.push(0u8);
                        assert(none@ =~= tagged_hash_opt(None));
                        none
                    },
                };
                Message::new(0x0c, payload)
            },
        }
    }
}

/// Where a payload is being read: the bytes and how many of them are taken.
pub struct Cursor {
    data: Vec<u8>,
    position: usize,
}

impl Cursor {
    #[verifier::type_invariant]
    spec fn inv(&self) -> bool {
        self.position <= self.data@.len()
    }

    /// All bytes of the payload.
    pub closed spec fn all(&self) -> Seq<u8> {
        self.data@
    }

    /// How many bytes are taken.
    pub closed spec fn taken(&self) -> nat {
        self.position as nat
    }

    /// The bytes that are not taken yet.
    pub closed spec fn remaining(&self) -> Seq<u8> {
        self.data@.skip(self.position as int)
    }

    /// A cursor that reads goes forward over the same bytes.
    pub open spec fn follows(&self, before: &Cursor) -> bool {
        self.all() == before.all() && self.taken() >= before.taken()
    }

    /// A cursor at the start of `data`.
    pub fn new(data: Vec<u8>) -> (cursor: Self)
        ensures
            cursor.remaining() == data@,
    {
        let cursor = Self { data, position: 0 };
        assert(cursor.data@.skip(0) =~= cursor.data@);
        cursor
    }

    /// The place at which the cursor stands.
    fn mark(&self) -> (position: usize)
        ensures
            position == self.taken(),
    {
        self.position
    }

    /// Puts the cursor back to a place at which it stood.
    fn rewind(&mut self, position: usize)
        requires
            position <= old(self).taken(),
        ensures
            final(self).all() == old(self).all(),
            final(self).taken() == position,
    {
        proof {
            use_type_invariant(&*self);
        }
        self.position = position;
    }

    /// How many bytes are not taken yet.
    pub fn remaining_len(&self) -> (len: usize)
        ensures
            len == self.remaining().len(),
    {
        proof {
            use_type_invariant(self);
        }
        self.data.len() - self.position
    }

    /// Takes one byte.
    pub fn read_u8(&mut self) -> (res: Result<u8, DecodeError>)
        ensures
            final(self).follows(old(self)),
            match take_u8(old(self).remaining()) {
                Ok((value, rest)) => res == Ok::<u8, DecodeError>(value) && final(self).remaining()
                    == rest,
                Err(e) => res == Err::<u8, DecodeError>(e) && final(self).remaining() == old(self).remaining(),
            },
    {
        proof {
            use_type_invariant(&*self);
        }
        if self.data.len() - self.position < 1 {
            return Err(DecodeError::UnexpectedEof);
        }
        let value = self.data[self.position];
        self.position = self.position + 1;
        assert(self.remaining() =~= old(self).remaining().skip(1));
        Ok(value)
    }

    /// Takes four bytes as a little-endian number.
    pub fn read_u32_le(&mut self) -> (res: Result<u32, DecodeError>)
        ensures
            final(self).follows(old(self)),
            match take_u32(old(self).remaining()) {
                Ok((value, rest)) => res == Ok::<u32, DecodeError>(value) && final(self).remaining() == rest,
                Err(e) => res == Err::<u32, DecodeError>(e) && final(self).remaining() == old(self).remaining(),
            },
    {
        proof {
            use_type_invariant(&*self);
        }
        if self.data.len() - self.position < 4 {
            return Err(DecodeError::UnexpectedEof);
        }
        let field = slice_subrange(self.data.as_slice(), self.position, self.position + 4);
        let value = read_u32_le(field);
        self.position = self.position + 4;
        proof {
            let before = old(self).remaining();
            assert(field@ =~= before.take(4));
            assert(le_u32(field@) == le_u32(before));
            assert(self.remaining() =~= before.skip(4));
        }
        Ok(value)
    }

    /// Takes eight bytes as a little-endian number.
    pub fn read_u64_le(&mut self) -> (res: Result<u64, DecodeError>)
        ensures
            final(self).follows(old(self)),
            match take_u64(old(self).remaining()) {
                Ok((value, rest)) => res == Ok::<u64, DecodeError>(value) && final(self).remaining() == rest,
                Err(e) => res == Err::<u64, DecodeError>(e) && final(self).remaining() == old(self).remaining(),
            },
    {
        proof {
            use_type_invariant(&*self);
        }
        if self.data.len() - self.position < 8 {
            return Err(DecodeError::UnexpectedEof);
        }
        let field = slice_subrange(self.data.as_slice(), self.position, self.position + 8);
        let value = read_u64_le(field);
        self.position = self.position + 8;
        proof {
            let before = old(self).remaining();
            assert(field@ =~= before.take(8));
            assert(field@.skip(4) =~= before.skip(4).take(4));
            assert(le_u64(field@) == le_u64(before));
            assert(self.remaining() =~= before.skip(8));
        }
        Ok(value)
    }

    /// Takes `count` bytes.
    pub fn read_exact(&mut self, count: usize) -> (res: Result<Vec<u8>, DecodeError>)
        ensures
            final(self).follows(old(self)),
            match take_bytes(old(self).remaining(), count as nat) {
                Ok((bytes, rest)) => res is Ok && res.unwrap()@ == bytes && final(self).remaining() == rest,
                Err(e) => res == Err::<Vec<u8>, DecodeError>(e) && final(self).remaining() == old(self).remaining(),
            },
    {
        proof {
            use_type_invariant(&*self);
        }
        if self.data.len() - self.position < count {
            return Err(DecodeError::UnexpectedEof);
        }
        let field = slice_subrange(self.data.as_slice(), self.position, self.position + count);
        let bytes = vstd::slice::slice_to_vec(field);
        self.position = self.position + count;
        proof {
            let before = old(self).remaining();
            assert(bytes@ =~= before.take(count as int));
            assert(self.remaining() =~= before.skip(count as int));
        }
        Ok(bytes)
    }
}

/// One byte off the front of `s`.
pub open spec fn take_u8(s: Seq<u8>) -> Result<(u8, Seq<u8>), DecodeError> {
    if s.len() < 1 {
        Err(DecodeError::UnexpectedEof)
    } else {
        Ok((s[0], s.skip(1)))
    }
}

/// A little-endian number of four bytes off the front of `s`.
pub open spec fn take_u32(s: Seq<u8>) -> Result<(u32, Seq<u8>), DecodeError> {
    if s.len() < 4 {
        Err(DecodeError::UnexpectedEof)
    } else {
        Ok((le_u32(s) as u32, s.skip(4)))
    }
}

/// A little-endian number of eight bytes off the front of `s`.
pub open spec fn take_u64(s: Seq<u8>) -> Result<(u64, Seq<u8>), DecodeError> {
    if s.len() < 8 {
        Err(DecodeError::UnexpectedEof)
    } else {
        Ok((le_u64(s) as u64, s.skip(8)))
    }
}

/// `count` bytes off the front of `s`.
pub open spec fn take_bytes(s: Seq<u8>, count: nat) -> Result<(Seq<u8>, Seq<u8>), DecodeError> {
    if s.len() < count {
        Err(DecodeError::UnexpectedEof)
    } else {
        Ok((s.take(count as int), s.skip(count as int)))
    }
}

/// What a server says to the client.
#[derive(Debug, PartialEq, Eq)]
pub enum ServerMessage {
    Error(ErrorResponse),
    ServerHandshake { accepted_version: u8, capabilities: Capabilities },
    AuthenticationAccepted,
    Pong,
    BloopAccepted { achievements: Vec<AchievementRecord> },
    AudioData { data: Vec<u8> },
    PreloadMatch,
    PreloadMismatch { audio_manifest_hash: DataHash, achievements: Vec<AchievementRecord> },
}

/// What a server message holds.
pub enum ServerMessageView {
    Error(ErrorResponse),
    ServerHandshake { accepted_version: u8, capabilities: u64 },
    AuthenticationAccepted,
    Pong,
    BloopAccepted { achievements: Seq<AchievementRecordView> },
    AudioData { data: Seq<u8> },
    PreloadMatch,
    PreloadMismatch { audio_manifest_hash: Seq<u8>, achievements: Seq<AchievementRecordView> },
}

/// What a list of achievement records holds.
pub open spec fn records_view(records: Seq<AchievementRecord>) -> Seq<AchievementRecordView> {
    Seq::new(records.len(), |i: int| records[i]@)
}

impl View for ServerMessage {
    type V = ServerMessageView;

    open spec fn view(&self) -> ServerMessageView {
        match *self {
            ServerMessage::Error(error) => ServerMessageView::Error(error),
            ServerMessage::ServerHandshake { accepted_version, capabilities } => {
                ServerMessageView::ServerHandshake { accepted_version, capabilities: capabilities@ }
            },
            ServerMessage::AuthenticationAccepted => ServerMessageView::AuthenticationAccepted,
            ServerMessage::Pong => ServerMessageView::Pong,
            ServerMessage::BloopAccepted { achievements } => ServerMessageView::BloopAccepted {
                achievements: records_view(achievements@),
            },
            ServerMessage::AudioData { data } => ServerMessageView::AudioData { data: data@ },
            ServerMessage::PreloadMatch => ServerMessageView::PreloadMatch,
            ServerMessage::PreloadMismatch { audio_manifest_hash, achievements } => {
                ServerMessageView::PreloadMismatch {
                    audio_manifest_hash: audio_manifest_hash@,
                    achievements: records_view(achievements@),
                }
            },
        }
    }
}

/// One achievement record off the front of `s`: sixteen bytes of
/// identifier, then a tagged hash.
pub open spec fn take_record(s: Seq<u8>) -> Result<(AchievementRecordView, Seq<u8>), DecodeError> {
    match take_bytes(s, 16) {
        Err(e) => Err(e),
        Ok((id, rest)) => match take_hash_opt(rest) {
            Err(e) => Err(e),
            Ok((audio_file_hash, rest)) => Ok((AchievementRecordView { id, audio_file_hash }, rest)),
        },
    }
}

/// `count` achievement records off the front of `s`.
pub open spec fn take_records(s: Seq<u8>, count: nat) -> Result<
    (Seq<AchievementRecordView>, Seq<u8>),
    DecodeError,
>
    decreases count,
{
    if count == 0 {
        Ok((Seq::empty(), s))
    } else {
        match take_record(s) {
            Err(e) => Err(e),
            Ok((first, rest)) => match take_records(rest, (count - 1) as nat) {
                Err(e) => Err(e),
                Ok((others, rest)) => Ok((seq![first] + others, rest)),
            },
        }
    }
}

/// The records read so far, then what reading the rest gives.
pub open spec fn records_then(
    done: Seq<AchievementRecordView>,
    rest: Result<(Seq<AchievementRecordView>, Seq<u8>), DecodeError>,
) -> Result<(Seq<AchievementRecordView>, Seq<u8>), DecodeError> {
    match rest {
        Ok((others, rest)) => Ok((done + others, rest)),
        Err(e) => Err(e),
    }
}

/// Reads `num_achievements` achievement records.
pub fn read_achievement_recordset(num_achievements: usize, cursor: &mut Cursor) -> (res: Result<
    Vec<AchievementRecord>,
    DecodeError,
>)
    ensures
        final(cursor).follows(old(cursor)),
        match take_records(old(cursor).remaining(), num_achievements as nat) {
            Ok((records, rest)) => res is Ok && records_view(res.unwrap()@) == records && final(cursor).remaining() == rest,
            Err(e) => res == Err::<Vec<AchievementRecord>, DecodeError>(e) && final(cursor).remaining() == old(cursor).remaining(),
        },
{
    let ghost start = cursor.remaining();
    let origin = cursor.mark();
    let mut achievements: Vec<AchievementRecord> = Vec::new();
    let mut i: usize = 0;
    assert(records_view(achievements@) + Seq::<AchievementRecordView>::empty() =~= Seq::empty());
    while i < num_achievements
        invariant
            i <= num_achievements,
            start == old(cursor).remaining(),
            origin == old(cursor).taken(),
            cursor.follows(old(cursor)),
            take_records(start, num_achievements as nat) == records_then(
                records_view(achievements@),
                take_records(cursor.remaining(), (num_achievements - i) as nat),
            ),
        decreases num_achievements - i,
    {
        let ghost before = cursor.remaining();
        let ghost done = records_view(achievements@);
        let id_bytes = match cursor.read_exact(16) {
            Ok(bytes) => bytes,
            Err(e) => {
                cursor.rewind(origin);
                assert(cursor.remaining() == old(cursor).remaining());
                return Err(e);
            },
        };
        let id: AchievementId = [
            id_bytes[0],
            id_bytes[1],
            id_bytes[2],
            id_bytes[3],
            id_bytes[4],
            id_bytes[5],
            id_bytes[6],
            id_bytes[7],
            id_bytes[8],
            id_bytes[9],
            id_bytes[10],
            id_bytes[11],
            id_bytes[12],
            id_bytes[13],
            id_bytes[14],
            id_bytes[15],
        ];
        assert(id@ =~= id_bytes@);
        let audio_file_hash = match DataHash::from_cursor_opt(cursor) {
            Ok(hash) => hash,
            Err(e) => {
                cursor.rewind(origin);
                assert(cursor.remaining() == old(cursor).remaining());
                return Err(e);
            },
        };
        let record = AchievementRecord { id, audio_file_hash };
        proof {
            let tail = take_records(cursor.remaining(), (num_achievements - i - 1) as nat);
            assert(take_record(before) == Ok::<(AchievementRecordView, Seq<u8>), DecodeError>(
                (record@, cursor.remaining()),
            ));
            assert(records_view(achievements@.push(record)) =~= done + seq![record@]);
            match tail {
                Ok((others, rest)) => {
                    assert(done + (seq![record@] + others) =~= (done + seq![record@]) + others);
                },
                Err(e) => {},
            }
        }
        achievements.push(record);
        i += 1;
    }
    assert(records_view(achievements@) + Seq::<AchievementRecordView>::empty() =~= records_view(
        achievements@,
    ));
    Ok(achievements)
}

/// What the payload of a frame with type tag `tag` says. Bytes behind the
/// last field are not looked at.
pub open spec fn decode_server(tag: u8, payload: Seq<u8>) -> Result<ServerMessageView, DecodeError> {
    match tag {
        0x00 => match take_u8(payload) {
            Err(e) => Err(e),
            Ok((code, _)) => match error_from_code(code) {
                Err(e) => Err(e),
                Ok(error) => Ok(ServerMessageView::Error(error)),
            },
        },
        0x02 => match take_u8(payload) {
            Err(e) => Err(e),
            Ok((accepted_version, rest)) => match take_u64(rest) {
                Err(e) => Err(e),
                Ok((capabilities, _)) => Ok(
                    ServerMessageView::ServerHandshake { accepted_version, capabilities },
                ),
            },
        },
        0x04 => Ok(ServerMessageView::AuthenticationAccepted),
        0x06 => Ok(ServerMessageView::Pong),
        0x09 => match take_u8(payload) {
            Err(e) => Err(e),
            Ok((count, rest)) => match take_records(rest, count as nat) {
                Err(e) => Err(e),
                Ok((achievements, _)) => Ok(ServerMessageView::BloopAccepted { achievements }),
            },
        },
        0x0b => match take_u32(payload) {
            Err(e) => Err(e),
            Ok((length, rest)) => match take_bytes(rest, length as nat) {
                Err(e) => Err(e),
                Ok((data, _)) => Ok(ServerMessageView::AudioData { data }),
            },
        },
        0x0d => Ok(ServerMessageView::PreloadMatch),
        0x0e => match take_hash_opt(payload) {
            Err(e) => Err(e),
            Ok((None, _)) => Err(DecodeError::MissingAudioManifestHash),
            Ok((Some(audio_manifest_hash), rest)) => match take_u32(rest) {
                Err(e) => Err(e),
                Ok((count, rest)) => match take_records(rest, count as nat) {
                    Err(e) => Err(e),
                    Ok((achievements, _)) => Ok(
                        ServerMessageView::PreloadMismatch { audio_manifest_hash, achievements },
                    ),
                },
            },
        },
        tag => Err(DecodeError::UnknownMessageType(tag)),
    }
}

impl TryFromSpecImpl<Message> for ServerMessage {
    open spec fn obeys_try_from_spec() -> bool {
        false
    }

    closed spec fn try_from_spec(message: Message) -> Result<ServerMessage, DecodeError> {
        arbitrary()
    }
}

impl TryFrom<Message> for ServerMessage {
    type Error = DecodeError;

    /// Reads what a frame says. It fails on a type tag that stands for no
    /// message, on a payload that ends before its last field, on an error
    /// code that stands for no error, and on a mismatch without a hash.
    fn try_from(message: Message) -> (res: Result<Self, DecodeError>)
        ensures
            match decode_server(message@.0, message@.1) {
                Ok(said) => res is Ok && res.unwrap()@ == said,
                Err(e) => res == Err::<ServerMessage, DecodeError>(e),
            },
    {
        let message_type = message.message_type;
        let mut cursor = Cursor::new(message.payload);
        match message_type {
            0x00 => {
                let error_code = match cursor.read_u8() {
                    Ok(code) => code,
                    Err(e) => {
                        return Err(e);
                    },
                };
                match ErrorResponse::try_from(error_code) {
                    Ok(error) => Ok(Self::Error(error)),
                    Err(e) => Err(e),
                }
            },
            0x02 => {
                let accepted_version = match cursor.read_u8() {
                    Ok(version) => version,
                    Err(e) => {
                        return Err(e);
                    },
                };
                let capabilities = match cursor.read_u64_le() {
                    Ok(bits) => bits,
                    Err(e) => {
                        return Err(e);
                    },
                };
                Ok(
                    Self::ServerHandshake {
                        accepted_version,
                        capabilities: Capabilities::from(capabilities),
                    },
                )
            },
            0x04 => Ok(Self::AuthenticationAccepted),
            0x06 => Ok(Self::Pong),
            0x09 => {
                let num_achievements = match cursor.read_u8() {
                    Ok(count) => count,
                    Err(e) => {
                        return Err(e);
                    },
                };
                match read_achievement_recordset(num_achievements as usize, &mut cursor) {
                    Ok(achievements) => Ok(Self::BloopAccepted { achievements }),
                    Err(e) => Err(e),
                }
            },
            0x0b => {
                let data_length = match cursor.read_u32_le() {
                    Ok(length) => length,
                    Err(e) => {
                        return Err(e);
                    },
                };
                match cursor.read_exact(data_length as usize) {
                    Ok(data) => Ok(Self::AudioData { data }),
                    Err(e) => Err(e),
                }
            },
            0x0d => Ok(Self::PreloadMatch),
            0x0e => {
                let audio_manifest_hash = match DataHash::from_cursor_opt(&mut cursor) {
                    Ok(Some(hash)) => hash,
                    Ok(None) => {
                        return Err(DecodeError::MissingAudioManifestHash);
                    },
                    Err(e) => {
                        return Err(e);
                    },
                };
                let num_achievements = match cursor.read_u32_le() {
                    Ok(count) => count,
                    Err(e) => {
                        return Err(e);
                    },
                };
                match read_achievement_recordset(num_achievements as usize, &mut cursor) {
                    Ok(achievements) => Ok(
                        Self::PreloadMismatch { audio_manifest_hash, achievements },
                    ),
                    Err(e) => Err(e),
                }
            },
            code => Err(DecodeError::UnknownMessageType(code)),
        }
    }
}

/// An achievement record on the wire: the identifier, then the tagged hash.
pub open spec fn record_bytes(record: AchievementRecordView) -> Seq<u8> {
    record.id + tagged_hash_opt(record.audio_file_hash)
}

/// Achievement records on the wire, one after the other.
pub open spec fn records_bytes(records: Seq<AchievementRecordView>) -> Seq<u8>
    decreases records.len(),
{
    if records.len() == 0 {
        Seq::empty()
    } else {
        record_bytes(records[0]) + records_bytes(records.skip(1))
    }
}

/// The type tag of a server message.
pub open spec fn server_tag(message: ServerMessageView) -> u8 {
    match message {
        ServerMessageView::Error(_) => 0x00,
        ServerMessageView::ServerHandshake { .. } => 0x02,
        ServerMessageView::AuthenticationAccepted => 0x04,
        ServerMessageView::Pong => 0x06,
        ServerMessageView::BloopAccepted { .. } => 0x09,
        ServerMessageView::AudioData { .. } => 0x0b,
        ServerMessageView::PreloadMatch => 0x0d,
        ServerMessageView::PreloadMismatch { .. } => 0x0e,
    }
}

/// The payload of a server message.
pub open spec fn server_payload(message: ServerMessageView) -> Seq<u8> {
    match message {
        ServerMessageView::Error(error) => seq![error.spec_code()],
        ServerMessageView::ServerHandshake { accepted_version, capabilities } => seq![
            accepted_version,
        ] + u64_le(capabilities),
        ServerMessageView::AuthenticationAccepted => Seq::empty(),
        ServerMessageView::Pong => Seq::empty(),
        ServerMessageView::BloopAccepted { achievements } => seq![achievements.len() as u8]
            + records_bytes(achievements),
        ServerMessageView::AudioData { data } => u32_le(data.len() as u32) + data,
        ServerMessageView::PreloadMatch => Seq::empty(),
        ServerMessageView::PreloadMismatch { audio_manifest_hash, achievements } => tagged_hash(
            audio_manifest_hash,
        ) + u32_le(achievements.len() as u32) + records_bytes(achievements),
    }
}

/// Appending a record appends its bytes.
pub proof fn lemma_records_bytes_push(records: Seq<AchievementRecordView>, record: AchievementRecordView)
    ensures
        records_bytes(records.push(record)) == records_bytes(records) + record_bytes(record),
    decreases records.len(),
{
    if records.len() == 0 {
        let one = records.push(record);
        assert(one.skip(1) =~= Seq::<AchievementRecordView>::empty());
        assert(one[0] == record);
        assert(records_bytes(one.skip(1)) =~= Seq::<u8>::empty());
        assert(records_bytes(one) =~= record_bytes(record));
        assert(records_bytes(records) + record_bytes(record) =~= record_bytes(record));
    } else {
        assert(records.push(record).skip(1) =~= records.skip(1).push(record));
        lemma_records_bytes_push(records.skip(1), record);
        assert(records_bytes(records.push(record)) =~= records_bytes(records) + record_bytes(
            record,
        ));
    }
}

impl FromSpecImpl<ServerMessage> for Message {
    open spec fn obeys_from_spec() -> bool {
        false
    }

    closed spec fn from_spec(server_message: ServerMessage) -> Message {
        arbitrary()
    }
}

/// Appends the wire form of `achievements` to `payload`.
fn write_achievement_recordset(payload: &mut Vec<u8>, achievements: &Vec<AchievementRecord>)
    ensures
        final(payload)@ == old(payload)@ + records_bytes(records_view(achievements@)),
{
    let ghost start = payload@;
    let ghost all = records_view(achievements@);
    let mut i: usize = 0;
    assert(start + records_bytes(all.take(0)) =~= start);
    while i < achievements.len()
        invariant
            i <= achievements@.len(),
            all == records_view(achievements@),
            payload@ == start + records_bytes(all.take(i as int)),
        decreases achievements@.len() - i,
    {
        let record = &achievements[i];
        let ghost before = payload@;
        payload.extend_from_slice(record.id.as_slice());
        match &record.audio_file_hash {
            Some(hash) => {
                let bytes = hash.as_bytes();
                payload.push(bytes.len() as u8);
                payload.extend_from_slice(bytes);
            },
            None => {
                payload.push(0u8);
            },
        }
        proof {
            assert(payload@ =~= before + record_bytes(record@));
            assert(all.take(i + 1) =~= all.take(i as int).push(record@));
            lemma_records_bytes_push(all.take(i as int), record@);
            assert(payload@ =~= start + records_bytes(all.take(i + 1)));
        }
        i += 1;
    }
    assert(all.take(i as int) =~= all);
}

impl From<ServerMessage> for Message {
    /// The frame of a server message: its type tag and its payload.
    fn from(server_message: ServerMessage) -> (message: Message)
        ensures
            message@ == (server_tag(server_message@), server_payload(server_message@)),
    {
        match server_message {
            ServerMessage::Error(error) => {
                let mut payload = Vec::with_capacity(1);
                payload.push(error.code());
                assert(payload@ =~= server_payload(server_message@));
                Message::new(0x00, payload)
            },
            ServerMessage::ServerHandshake { accepted_version, capabilities } => {
                let mut payload = Vec::with_capacity(9);
                payload.push(accepted_version);
                let bits = u64_to_le_bytes(capabilities.bits());
                payload.extend_from_slice(bits.as_slice());
                assert(payload@ =~= server_payload(server_message@));
                Message::new(0x02, payload)
            },
            ServerMessage::AuthenticationAccepted => Message::new(0x04, Vec::new()),
            ServerMessage::Pong => Message::new(0x06, Vec::new()),
            ServerMessage::BloopAccepted { achievements } => {
                let mut payload = Vec::with_capacity(1);
                payload.push(achievements.len() as u8);
                write_achievement_recordset(&mut payload, &achievements);
                assert(payload@ =~= server_payload(server_message@));
                Message::new(0x09, payload)
            },
            ServerMessage::AudioData { data } => {
                let mut payload = Vec::with_capacity(4);
                let length = u32_to_le_bytes(data.len() as u32);
                payload.extend_from_slice(length.as_slice());
                payload.extend_from_slice(data.as_slice());
                assert(payload@ =~= server_payload(server_message@));
                Message::new(0x0b, payload)
            },
            ServerMessage::PreloadMatch => Message::new(0x0d, Vec::new()),
            ServerMessage::PreloadMismatch { audio_manifest_hash, achievements } => {
                let mut payload = Vec::with_capacity(1);
                let hash = audio_manifest_hash.as_bytes();
                payload.push(hash.len() as u8);
                payload.extend_from_slice(hash);
                let count = u32_to_le_bytes(achievements.len() as u32);
                payload.extend_from_slice(count.as_slice());
                write_achievement_recordset(&mut payload, &achievements);
                assert(payload@ =~= server_payload(server_message@));
                Message::new(0x0e, payload)
            },
        }
    }
}

/// Whether a record can go over the wire and come back: sixteen bytes of
/// identifier, and a hash, where there is one, of 1 to 255 bytes.
pub open spec fn valid_record(record: AchievementRecordView) -> bool {
    &&& record.id.len() == 16
    &&& record.audio_file_hash matches Some(hash) ==> 0 < hash.len() < 256
}

/// Whether a server message can go over the wire and come back: every
/// length fits the field that declares it.
pub open spec fn valid_server(message: ServerMessageView) -> bool {
    &&& server_payload(message).len() <= u32::MAX
    &&& match message {
        ServerMessageView::BloopAccepted { achievements } => {
            &&& achievements.len() < 256
            &&& forall|i: int| 0 <= i < achievements.len() ==> valid_record(#[trigger] achievements[i])
        },
        ServerMessageView::PreloadMismatch { audio_manifest_hash, achievements } => {
            &&& 0 < audio_manifest_hash.len() < 256
            &&& forall|i: int| 0 <= i < achievements.len() ==> valid_record(#[trigger] achievements[i])
        },
        _ => true,
    }
}

/// Whether a client message can go over the wire: every length fits the
/// byte that declares it.
pub open spec fn valid_client(message: ClientMessageView) -> bool {
    match message {
        ClientMessageView::Authentication { client_id, client_secret, .. } => {
            &&& vstd::utf8::encode_utf8(client_id).len() < 256
            &&& vstd::utf8::encode_utf8(client_secret).len() < 256
        },
        ClientMessageView::Bloop { nfc_uid } => crate::hardware::nfc::valid_uid_len(nfc_uid.len()),
        ClientMessageView::RetrieveAudio { achievement_id } => achievement_id.len() == 16,
        ClientMessageView::PreloadCheck { audio_manifest_hash } => {
            audio_manifest_hash matches Some(hash) ==> hash.len() < 256
        },
        _ => true,
    }
}

/// Reading the wire form of valid records gives the records back, and
/// leaves what stood behind them.
pub proof fn lemma_records_round_trip(records: Seq<AchievementRecordView>, rest: Seq<u8>)
    requires
        forall|i: int| 0 <= i < records.len() ==> valid_record(#[trigger] records[i]),
    ensures
        take_records(records_bytes(records) + rest, records.len()) == Ok::<
            (Seq<AchievementRecordView>, Seq<u8>),
            DecodeError,
        >((records, rest)),
    decreases records.len(),
{
    if records.len() == 0 {
        assert(records_bytes(records) + rest =~= rest);
        assert(records =~= Seq::empty());
    } else {
        let first = records[0];
        let others = records.skip(1);
        let tail = records_bytes(others) + rest;
        let s = records_bytes(records) + rest;
        assert(valid_record(first));
        assert(s =~= first.id + (tagged_hash_opt(first.audio_file_hash) + tail));
        assert(s.take(16) =~= first.id);
        assert(s.skip(16) =~= tagged_hash_opt(first.audio_file_hash) + tail);
        lemma_tagged_hash_round_trip(first.audio_file_hash, tail);
        assert(take_record(s) == Ok::<(AchievementRecordView, Seq<u8>), DecodeError>((first, tail)));
        assert forall|i: int| 0 <= i < others.len() implies valid_record(#[trigger] others[i]) by {
            assert(others[i] == records[i + 1]);
        }
        lemma_records_round_trip(others, rest);
        assert(seq![first] + others =~= records);
    }
}

/// Reading the frame of a valid server message gives the message back.
pub proof fn lemma_server_round_trip(message: ServerMessageView)
    requires
        valid_server(message),
    ensures
        decode_server(server_tag(message), server_payload(message)) == Ok::<
            ServerMessageView,
            DecodeError,
        >(message),
{
    let payload = server_payload(message);
    match message {
        ServerMessageView::Error(error) => {
            lemma_error_code_round_trip(error);
        },
        ServerMessageView::ServerHandshake { accepted_version, capabilities } => {
            crate::bytes::lemma_u64_le_round_trip(capabilities);
            assert(payload.skip(1) =~= u64_le(capabilities));
        },
        ServerMessageView::BloopAccepted { achievements } => {
            assert(payload.skip(1) =~= records_bytes(achievements) + Seq::<u8>::empty());
            lemma_records_round_trip(achievements, Seq::empty());
        },
        ServerMessageView::AudioData { data } => {
            crate::bytes::lemma_u32_le_round_trip(data.len() as u32);
            assert(payload.take(4) =~= u32_le(data.len() as u32));
            assert(le_u32(payload) == le_u32(payload.take(4)));
            assert(payload.skip(4) =~= data);
            assert(payload.skip(4).take(data.len() as int) =~= data);
        },
        ServerMessageView::PreloadMismatch { audio_manifest_hash, achievements } => {
            let count = u32_le(achievements.len() as u32);
            let tail = count + records_bytes(achievements);
            assert(payload =~= tagged_hash_opt(Some(audio_manifest_hash)) + tail);
            lemma_tagged_hash_round_trip(Some(audio_manifest_hash), tail);
            lemma_records_len(achievements);
            crate::bytes::lemma_u32_le_round_trip(achievements.len() as u32);
            assert(tail.take(4) =~= count);
            assert(le_u32(tail) == le_u32(tail.take(4)));
            assert(tail.skip(4) =~= records_bytes(achievements) + Seq::<u8>::empty());
            lemma_records_round_trip(achievements, Seq::empty());
        },
        _ => {},
    }
}

/// Every record takes at least one byte on the wire.
pub proof fn lemma_records_len(records: Seq<AchievementRecordView>)
    ensures
        records_bytes(records).len() >= records.len(),
    decreases records.len(),
{
    if records.len() > 0 {
        lemma_records_len(records.skip(1));
    }
}

/// In the frame of a valid server message the declared payload length is
/// the number of payload bytes.
pub proof fn lemma_server_frame_length(message: ServerMessageView)
    requires
        valid_server(message),
    ensures
        frame(server_tag(message), server_payload(message)).len() == 5 + server_payload(
            message,
        ).len(),
        le_u32(frame(server_tag(message), server_payload(message)).skip(1)) == server_payload(
            message,
        ).len(),
{
    lemma_frame_length(server_tag(message), server_payload(message));
}

/// In the frame of a valid client message the declared payload length is
/// the number of payload bytes.
pub proof fn lemma_client_frame_length(message: ClientMessageView)
    requires
        valid_client(message),
    ensures
        frame(client_tag(message), client_payload(message)).len() == 5 + client_payload(
            message,
        ).len(),
        le_u32(frame(client_tag(message), client_payload(message)).skip(1)) == client_payload(
            message,
        ).len(),
{
    lemma_frame_length(client_tag(message), client_payload(message));
}

/// A short text off the front of `s`: the length byte, then as many bytes,
/// which must be UTF-8.
pub open spec fn take_short_text(s: Seq<u8>) -> Result<(Seq<char>, Seq<u8>), DecodeError> {
    if s.len() < 1 {
        Err(DecodeError::UnexpectedEof)
    } else if s.len() < 1 + s[0] {
        Err(DecodeError::UnexpectedEof)
    } else if !vstd::utf8::valid_utf8(s.subrange(1, 1 + s[0])) {
        Err(DecodeError::InvalidText)
    } else {
        Ok((vstd::utf8::decode_utf8(s.subrange(1, 1 + s[0])), s.skip(1 + s[0])))
    }
}

/// An address off the front of `s`: the family marker, then 4 or 16 bytes.
pub open spec fn take_ip(s: Seq<u8>) -> Result<(IpAddress, Seq<u8>), DecodeError> {
    if s.len() < 1 {
        Err(DecodeError::UnexpectedEof)
    } else if s[0] == 4 {
        if s.len() < 5 {
            Err(DecodeError::UnexpectedEof)
        } else {
            Ok((IpAddress::V4([s[1], s[2], s[3], s[4]]), s.skip(5)))
        }
    } else if s[0] == 6 {
        if s.len() < 17 {
            Err(DecodeError::UnexpectedEof)
        } else {
            Ok(
                (
                    IpAddress::V6(
                        [
                            s[1],
                            s[2],
                            s[3],
                            s[4],
                            s[5],
                            s[6],
                            s[7],
                            s[8],
                            s[9],
                            s[10],
                            s[11],
                            s[12],
                            s[13],
                            s[14],
                            s[15],
                            s[16],
                        ],
                    ),
                    s.skip(17),
                ),
            )
        }
    } else {
        Err(DecodeError::UnknownAddressFamily(s[0]))
    }
}

/// What the payload of a frame with type tag `tag` asks for. Bytes behind
/// the last field are not looked at, but for a bloop, whose payload is the
/// tagged identifier and nothing else.
pub open spec fn decode_client(tag: u8, payload: Seq<u8>) -> Result<ClientMessageView, DecodeError> {
    match tag {
        0x01 => if payload.len() < 2 {
            Err(DecodeError::UnexpectedEof)
        } else {
            Ok(ClientMessageView::ClientHandshake { min_version: payload[0], max_version: payload[1] })
        },
        0x03 => match take_short_text(payload) {
            Err(e) => Err(e),
            Ok((client_id, rest)) => match take_short_text(rest) {
                Err(e) => Err(e),
                Ok((client_secret, rest)) => match take_ip(rest) {
                    Err(e) => Err(e),
                    Ok((ip_addr, _)) => Ok(
                        ClientMessageView::Authentication { client_id, client_secret, ip_addr },
                    ),
                },
            },
        },
        0x05 => Ok(ClientMessageView::Ping),
        0x07 => Ok(ClientMessageView::Quit),
        0x08 => match crate::hardware::nfc::untagged(payload) {
            Ok(nfc_uid) => Ok(ClientMessageView::Bloop { nfc_uid }),
            Err(_) => Err(DecodeError::InvalidNfcUid),
        },
        0x0a => match take_bytes(payload, 16) {
            Err(e) => Err(e),
            Ok((achievement_id, _)) => Ok(ClientMessageView::RetrieveAudio { achievement_id }),
        },
        0x0c => match take_hash_opt(payload) {
            Err(e) => Err(e),
            Ok((audio_manifest_hash, _)) => Ok(
                ClientMessageView::PreloadCheck { audio_manifest_hash },
            ),
        },
        tag => Err(DecodeError::UnknownMessageType(tag)),
    }
}

/// Reading the wire form of a short text gives the text back, and leaves
/// what stood behind it.
pub proof fn lemma_short_text_round_trip(text: Seq<char>, rest: Seq<u8>)
    requires
        vstd::utf8::encode_utf8(text).len() < 256,
    ensures
        take_short_text(short_text(text) + rest) == Ok::<(Seq<char>, Seq<u8>), DecodeError>(
            (text, rest),
        ),
{
    let bytes = vstd::utf8::encode_utf8(text);
    let s = short_text(text) + rest;
    assert(s[0] == bytes.len());
    assert(s.subrange(1, 1 + s[0]) =~= bytes);
    assert(s.skip(1 + s[0]) =~= rest);
    vstd::utf8::encode_utf8_valid_utf8(text);
    vstd::utf8::encode_utf8_decode_utf8(text);
}

/// Reading the wire form of an address gives the address back.
pub proof fn lemma_ip_round_trip(ip: IpAddress, rest: Seq<u8>)
    ensures
        take_ip(ip_bytes(ip) + rest) == Ok::<(IpAddress, Seq<u8>), DecodeError>((ip, rest)),
{
    let s = ip_bytes(ip) + rest;
    match ip {
        IpAddress::V4(octets) => {
            assert(s.skip(5) =~= rest);
            assert(octets =~= [s[1], s[2], s[3], s[4]]);
        },
        IpAddress::V6(octets) => {
            assert(s.skip(17) =~= rest);
            assert(octets =~= [
                s[1],
                s[2],
                s[3],
                s[4],
                s[5],
                s[6],
                s[7],
                s[8],
                s[9],
                s[10],
                s[11],
                s[12],
                s[13],
                s[14],
                s[15],
                s[16],
            ]);
        },
    }
}

/// Reading the payload of an authentication gives its fields back.
proof fn lemma_authentication_round_trip(
    client_id: Seq<char>,
    client_secret: Seq<char>,
    ip_addr: IpAddress,
)
    requires
        vstd::utf8::encode_utf8(client_id).len() < 256,
        vstd::utf8::encode_utf8(client_secret).len() < 256,
    ensures
        decode_client(
            0x03,
            short_text(client_id) + short_text(client_secret) + ip_bytes(ip_addr),
        ) == Ok::<ClientMessageView, DecodeError>(
            ClientMessageView::Authentication { client_id, client_secret, ip_addr },
        ),
{
    let payload = short_text(client_id) + short_text(client_secret) + ip_bytes(ip_addr);
    let tail = short_text(client_secret) + ip_bytes(ip_addr);
    let last = ip_bytes(ip_addr);
    assert(payload =~= short_text(client_id) + tail);
    lemma_short_text_round_trip(client_id, tail);
    assert(take_short_text(payload) == Ok::<(Seq<char>, Seq<u8>), DecodeError>((client_id, tail)));
    lemma_short_text_round_trip(client_secret, last);
    assert(take_short_text(tail) == Ok::<(Seq<char>, Seq<u8>), DecodeError>((client_secret, last)));
    assert(last =~= last + Seq::<u8>::empty());
    lemma_ip_round_trip(ip_addr, Seq::empty());
    assert(take_ip(last) == Ok::<(IpAddress, Seq<u8>), DecodeError>((ip_addr, Seq::empty())));
}

/// Reading the frame of a valid client message gives the message back; a
/// preload check with an empty hash reads as one with none.
pub proof fn lemma_client_round_trip(message: ClientMessageView)
    requires
        valid_client(message),
        message matches ClientMessageView::PreloadCheck { audio_manifest_hash: Some(hash) }
            ==> hash.len() > 0,
    ensures
        decode_client(client_tag(message), client_payload(message)) == Ok::<
            ClientMessageView,
            DecodeError,
        >(message),
{
    let payload = client_payload(message);
    match message {
        ClientMessageView::Authentication { client_id, client_secret, ip_addr } => {
            lemma_authentication_round_trip(client_id, client_secret, ip_addr);
        },
        ClientMessageView::Bloop { nfc_uid } => {
            crate::hardware::nfc::lemma_tagged_round_trip(nfc_uid);
        },
        ClientMessageView::RetrieveAudio { achievement_id } => {
            assert(payload.take(16) =~= achievement_id);
        },
        ClientMessageView::PreloadCheck { audio_manifest_hash } => {
            assert(payload =~= tagged_hash_opt(audio_manifest_hash) + Seq::<u8>::empty());
            lemma_tagged_hash_round_trip(audio_manifest_hash, Seq::empty());
        },
        _ => {},
    }
}

/// Reads a short text.
fn read_short_text(cursor: &mut Cursor) -> (res: Result<String, DecodeError>)
    ensures
        match take_short_text(old(cursor).remaining()) {
            Ok((text, rest)) => res is Ok && res.unwrap()@ == text && final(cursor).remaining()
                == rest,
            Err(e) => res is Err && res.unwrap_err() == e,
        },
{
    let ghost before = cursor.remaining();
    let length = match cursor.read_u8() {
        Ok(length) => length,
        Err(e) => {
            return Err(e);
        },
    };
    let bytes = match cursor.read_exact(length as usize) {
        Ok(bytes) => bytes,
        Err(e) => {
            return Err(e);
        },
    };
    proof {
        assert(before.skip(1).take(length as int) =~= before.subrange(1, 1 + length as int));
        assert(before.skip(1).skip(length as int) =~= before.skip(1 + length as int));
    }
    match crate::bytes::string_from_utf8(bytes) {
        Some(text) => Ok(text),
        None => Err(DecodeError::InvalidText),
    }
}

/// Reads an address.
fn read_ip(cursor: &mut Cursor) -> (res: Result<IpAddress, DecodeError>)
    ensures
        match take_ip(old(cursor).remaining()) {
            Ok((ip, rest)) => res == Ok::<IpAddress, DecodeError>(ip) && final(cursor).remaining()
                == rest,
            Err(e) => res == Err::<IpAddress, DecodeError>(e),
        },
{
    let ghost before = cursor.remaining();
    let family = match cursor.read_u8() {
        Ok(family) => family,
        Err(e) => {
            return Err(e);
        },
    };
    if family == 4 {
        let b = match cursor.read_exact(4) {
            Ok(bytes) => bytes,
            Err(e) => {
                return Err(e);
            },
        };
        let octets = [b[0], b[1], b[2], b[3]];
        proof {
            assert(before.skip(1).skip(4) =~= before.skip(5));
            assert(octets =~= [before[1], before[2], before[3], before[4]]);
        }
        Ok(IpAddress::V4(octets))
    } else if family == 6 {
        let b = match cursor.read_exact(16) {
            Ok(bytes) => bytes,
            Err(e) => {
                return Err(e);
            },
        };
        let octets = [
            b[0],
            b[1],
            b[2],
            b[3],
            b[4],
            b[5],
            b[6],
            b[7],
            b[8],
            b[9],
            b[10],
            b[11],
            b[12],
            b[13],
            b[14],
            b[15],
        ];
        proof {
            assert(before.skip(1).skip(16) =~= before.skip(17));
            assert(octets =~= [
                before[1],
                before[2],
                before[3],
                before[4],
                before[5],
                before[6],
                before[7],
                before[8],
                before[9],
                before[10],
                before[11],
                before[12],
                before[13],
                before[14],
                before[15],
                before[16],
            ]);
        }
        Ok(IpAddress::V6(octets))
    } else {
        Err(DecodeError::UnknownAddressFamily(family))
    }
}

impl TryFromSpecImpl<Message> for ClientMessage {
    open spec fn obeys_try_from_spec() -> bool {
        false
    }

    closed spec fn try_from_spec(message: Message) -> Result<ClientMessage, DecodeError> {
        arbitrary()
    }
}

impl TryFrom<Message> for ClientMessage {
    type Error = DecodeError;

    /// Reads what a frame asks for, as a server does.
    fn try_from(message: Message) -> (res: Result<Self, DecodeError>)
        ensures
            match decode_client(message@.0, message@.1) {
                Ok(asked) => res is Ok && res.unwrap()@ == asked,
                Err(e) => res is Err && res.unwrap_err() == e,
            },
    {
        let message_type = message.message_type;
        if message_type == 0x08 {
            return match NfcUid::from_tagged_bytes(message.payload.as_slice()) {
                Ok(nfc_uid) => Ok(ClientMessage::Bloop { nfc_uid }),
                Err(_) => Err(DecodeError::InvalidNfcUid),
            };
        }
        let mut cursor = Cursor::new(message.payload);
        match message_type {
            0x01 => {
                let min_version = match cursor.read_u8() {
                    Ok(version) => version,
                    Err(e) => {
                        return Err(e);
                    },
                };
                let max_version = match cursor.read_u8() {
                    Ok(version) => version,
                    Err(e) => {
                        return Err(e);
                    },
                };
                Ok(ClientMessage::ClientHandshake { min_version, max_version })
            },
            0x03 => {
                let client_id = match read_short_text(&mut cursor) {
                    Ok(text) => text,
                    Err(e) => {
                        return Err(e);
                    },
                };
                let client_secret = match read_short_text(&mut cursor) {
                    Ok(text) => text,
                    Err(e) => {
                        return Err(e);
                    },
                };
                match read_ip(&mut cursor) {
                    Ok(ip_addr) => Ok(
                        ClientMessage::Authentication { client_id, client_secret, ip_addr },
                    ),
                    Err(e) => Err(e),
                }
            },
            0x05 => Ok(ClientMessage::Ping),
            0x07 => Ok(ClientMessage::Quit),
            0x0a => {
                let b = match cursor.read_exact(16) {
                    Ok(bytes) => bytes,
                    Err(e) => {
                        return Err(e);
                    },
                };
                let achievement_id: AchievementId = [
                    b[0],
                    b[1],
                    b[2],
                    b[3],
                    b[4],
                    b[5],
                    b[6],
                    b[7],
                    b[8],
                    b[9],
                    b[10],
                    b[11],
                    b[12],
                    b[13],
                    b[14],
                    b[15],
                ];
                assert(achievement_id@ =~= b@);
                Ok(ClientMessage::RetrieveAudio { achievement_id })
            },
            0x0c => match DataHash::from_cursor_opt(&mut cursor) {
                Ok(audio_manifest_hash) => Ok(ClientMessage::PreloadCheck { audio_manifest_hash }),
                Err(e) => Err(e),
            },
            code => Err(DecodeError::UnknownMessageType(code)),
        }
    }
}

} // verus!
