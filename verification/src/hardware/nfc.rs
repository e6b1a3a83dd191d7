//! Tag identifiers.

use crate::hexstr;
use crate::hexstr::HexError;
use vstd::prelude::*;
use vstd::std_specs::convert::TryFromSpecImpl;
use vstd::string::StringSliceAdditionalSpecFns;

verus! {

/// Why bytes could not be taken as a tag identifier.
#[derive(Clone, Copy, Debug, PartialEq, Eq, Structural)]
pub enum NfcUidError {
    /// The identifier is not 4, 7 or 10 bytes long.
    InvalidLength,
}

impl NfcUidError {
    /// The error in words.
    pub fn message(&self) -> (text: &'static str)
        ensures
            text@ == "Invalid UID length, must be 4, 7 or 10"@,
    {
        "Invalid UID length, must be 4, 7 or 10"
    }
}

/// Why the tag reader gave no answer.
#[derive(Clone, Copy, Debug, PartialEq, Eq, Structural)]
pub enum NfcReaderError {
    /// The task that drives the reader is gone.
    Disconnected,
}

impl NfcReaderError {
    /// The error in words.
    pub fn message(&self) -> (text: &'static str)
        ensures
            text@ == "NFC reader task is no longer running"@,
    {
        "NFC reader task is no longer running"
    }
}

/// The identifier of a tag: single, double or triple size.
#[derive(Clone, Copy, Debug, Eq, Hash, PartialEq)]
pub enum NfcUid {
    Single([u8; 4]),
    Double([u8; 7]),
    Triple([u8; 10]),
}

/// Whether an identifier may have `len` bytes.
pub open spec fn valid_uid_len(len: nat) -> bool {
    len == 4 || len == 7 || len == 10
}

/// The tagged form of an identifier: its length in one byte, then its bytes.
pub open spec fn tagged(bytes: Seq<u8>) -> Seq<u8> {
    seq![bytes.len() as u8] + bytes
}

/// What reading a tagged identifier from `bytes` gives: the first byte is the
/// length, which must be 4, 7 or 10, and exactly that many bytes must follow.
pub open spec fn untagged(bytes: Seq<u8>) -> Result<Seq<u8>, NfcUidError> {
    if bytes.len() >= 1 && valid_uid_len(bytes[0] as nat) && bytes.len() == 1 + bytes[0] {
        Ok(bytes.skip(1))
    } else {
        Err(NfcUidError::InvalidLength)
    }
}

/// The colon.
pub const COLON: u8 = 0x3a;

/// The bytes of a text without its colons.
pub open spec fn without_colons(text: Seq<u8>) -> Seq<u8>
    decreases text.len(),
{
    if text.len() == 0 {
        Seq::empty()
    } else if text.last() == COLON {
        without_colons(text.drop_last())
    } else {
        without_colons(text.drop_last()).push(text.last())
    }
}

/// The identifier that hex text stands for: the text must decode, to 4, 7
/// or 10 bytes.
pub open spec fn uid_from_hex(text: Seq<u8>) -> Result<NfcUid, HexError> {
    match hexstr::decode(text) {
        Ok(bytes) => if valid_uid_len(bytes.len()) {
            Ok(uid_of(bytes))
        } else {
            Err(HexError::InvalidStringLength)
        },
        Err(e) => Err(e),
    }
}

/// The text that shows an identifier: two upper-case hex digits for each
/// byte, and a colon between one byte and the next.
pub open spec fn display_text(bytes: Seq<u8>) -> Seq<char> {
    Seq::new(
        if bytes.len() == 0 {
            0
        } else {
            (3 * bytes.len() - 1) as nat
        },
        |i: int|
            if i % 3 == 0 {
                hexstr::upper_digit(bytes[i / 3] as int / 16) as char
            } else if i % 3 == 1 {
                hexstr::upper_digit(bytes[i / 3] as int % 16) as char
            } else {
                ':'
            },
    )
}

impl View for NfcUid {
    type V = Seq<u8>;

    /// The bytes of the identifier.
    open spec fn view(&self) -> Seq<u8> {
        match *self {
            NfcUid::Single(data) => data@,
            NfcUid::Double(data) => data@,
            NfcUid::Triple(data) => data@,
        }
    }
}

impl NfcUid {
    /// The bytes of the identifier.
    pub fn as_bytes(&self) -> (bytes: &[u8])
        ensures
            bytes@ == self@,
    {
        match self {
            NfcUid::Single(data) => data.as_slice(),
            NfcUid::Double(data) => data.as_slice(),
            NfcUid::Triple(data) => data.as_slice(),
        }
    }

    /// The length of the identifier in one byte, then its bytes.
    pub fn as_tagged_bytes(&self) -> (bytes: Vec<u8>)
        ensures
            bytes@ == tagged(self@),
            bytes@.len() == self@.len() + 1,
    {
        let raw_bytes = self.as_bytes();
        let mut bytes = Vec::with_capacity(raw_bytes.len() + 1);
        bytes.push(raw_bytes.len() as u8);
        bytes.extend_from_slice(raw_bytes);
        assert(bytes@ =~= tagged(self@));
        bytes
    }

    /// The identifier as lower-case hex text, the form in which it is stored.
    pub fn to_hex(&self) -> (text: String)
        ensures
            text@ == hexstr::encode_lower(self@),
    {
        hexstr::encode(self.as_bytes())
    }

    /// Reads an identifier from hex text. Text that is no hex fails as the
    /// decoder says; hex of any length but 8, 14 or 20 digits fails with
    /// `InvalidStringLength`.
    pub fn from_hex(hex: &str) -> (res: Result<NfcUid, HexError>)
        ensures
            res == uid_from_hex(hex.spec_bytes()),
    {
        Self::from_hex_bytes(hex.as_bytes())
    }

    /// Reads an identifier from its display form. Colons are passed over
    /// wherever they stand, and digits of either case are taken; a text that
    /// is no identifier in hex gives nothing.
    pub fn from_display(text: &str) -> (res: Option<NfcUid>)
        ensures
            res == match uid_from_hex(without_colons(text.spec_bytes())) {
                Ok(uid) => Some(uid),
                Err(_) => None,
            },
    {
        let bytes = text.as_bytes();
        let mut digits: Vec<u8> = Vec::new();
        let mut i: usize = 0;
        assert(bytes@.take(0) =~= Seq::<u8>::empty());
        while i < bytes.len()
            invariant
                i <= bytes@.len(),
                digits@ == without_colons(bytes@.take(i as int)),
            decreases bytes@.len() - i,
        {
            proof {
                let next = bytes@.take(i + 1);
                assert(next.drop_last() =~= bytes@.take(i as int));
                assert(next.last() == bytes@[i as int]);
            }
            if bytes[i] != COLON {
                digits.push(bytes[i]);
            }
            i += 1;
        }
        assert(bytes@.take(i as int) =~= bytes@);
        match Self::from_hex_bytes(digits.as_slice()) {
            Ok(uid) => Some(uid),
            Err(_) => None,
        }
    }

    /// Reads an identifier from the bytes of hex text.
    fn from_hex_bytes(hex_bytes: &[u8]) -> (res: Result<NfcUid, HexError>)
        ensures
            res == uid_from_hex(hex_bytes@),
    {
        let mut decoded = vec![0u8; hex_bytes.len() / 2];
        match hexstr::decode_to_slice(hex_bytes, &mut decoded) {
            Ok(()) => {},
            Err(e) => {
                return Err(e);
            },
        }
        match NfcUid::try_from(decoded.as_slice()) {
            Ok(uid) => {
                proof {
                    lemma_uid_of(uid);
                }
                Ok(uid)
            },
            Err(_) => Err(HexError::InvalidStringLength),
        }
    }

    /// The identifier for display: upper-case hex, a colon between bytes.
    pub fn to_string(&self) -> (text: String)
        ensures
            text@ == display_text(self@),
    {
        let bytes = self.as_bytes();
        let mut text = String::new();
        let mut i: usize = 0;
        while i < bytes.len()
            invariant
                i <= bytes@.len(),
                text@ == display_text(bytes@.take(i as int)),
            decreases bytes@.len() - i,
        {
            if i > 0 {
                proof {
                    reveal_strlit(":");
                }
                text.append(":");
            }
            let one = vstd::slice::slice_subrange(bytes, i, i + 1);
            let digits = hexstr::encode_upper_case(one);
            text.append(digits.as_str());
            proof {
                let before = bytes@.take(i as int);
                let after = bytes@.take(i + 1);
                assert(one@ =~= seq![bytes@[i as int]]);
                assert(after =~= before.push(bytes@[i as int]));
                assert(text@ =~= display_text(after));
            }
            i += 1;
        }
        assert(bytes@.take(i as int) =~= bytes@);
        text
    }

    /// Whether `other` is the same identifier.
    pub fn same_as(&self, other: &NfcUid) -> (same: bool)
        ensures
            same == (*self == *other),
    {
        let same = crate::bytes::bytes_equal(self.as_bytes(), other.as_bytes());
        proof {
            if same {
                lemma_uid_by_bytes(*self, *other);
            }
        }
        same
    }

    /// Reads the tagged form back.
    pub fn from_tagged_bytes(bytes: &[u8]) -> (res: Result<NfcUid, NfcUidError>)
        ensures
            match untagged(bytes@) {
                Ok(raw) => res is Ok && res.unwrap()@ == raw,
                Err(e) => res == Err::<NfcUid, NfcUidError>(e),
            },
    {
        if bytes.len() < 1 {
            return Err(NfcUidError::InvalidLength);
        }
        let len = bytes[0] as usize;
        if bytes.len() - 1 != len {
            return Err(NfcUidError::InvalidLength);
        }
        let raw = vstd::slice::slice_subrange(bytes, 1, bytes.len());
        assert(raw@ =~= bytes@.skip(1));
        NfcUid::try_from(raw)
    }
}

/// Two identifiers with the same bytes are the same identifier.
pub proof fn lemma_uid_by_bytes(a: NfcUid, b: NfcUid)
    requires
        a@ == b@,
    ensures
        a == b,
{
    match (a, b) {
        (NfcUid::Single(x), NfcUid::Single(y)) => {
            assert(x@ == y@);
            assert(x =~= y);
        },
        (NfcUid::Double(x), NfcUid::Double(y)) => {
            assert(x@ == y@);
            assert(x =~= y);
        },
        (NfcUid::Triple(x), NfcUid::Triple(y)) => {
            assert(x@ == y@);
            assert(x =~= y);
        },
        _ => {
            lemma_uid_len(a);
            lemma_uid_len(b);
        },
    }
}

/// The identifier with these bytes, where there is one.
pub open spec fn uid_of(bytes: Seq<u8>) -> NfcUid {
    choose|uid: NfcUid| uid@ == bytes
}

/// The identifier with the bytes of an identifier is that identifier.
pub proof fn lemma_uid_of(uid: NfcUid)
    ensures
        uid_of(uid@) == uid,
{
    let found = uid_of(uid@);
    assert(found@ == uid@);
    lemma_uid_by_bytes(found, uid);
}

/// The variant of an identifier fixes its length.
pub proof fn lemma_uid_len(uid: NfcUid)
    ensures
        valid_uid_len(uid@.len()),
        uid is Single <==> uid@.len() == 4,
        uid is Double <==> uid@.len() == 7,
        uid is Triple <==> uid@.len() == 10,
{
}

/// Reading the tagged form of an identifier gives the identifier back, and
/// the tagged form of any other byte string is refused for its length.
pub proof fn lemma_tagged_round_trip(bytes: Seq<u8>)
    requires
        bytes.len() < 256,
    ensures
        valid_uid_len(bytes.len()) ==> untagged(tagged(bytes)) == Ok::<Seq<u8>, NfcUidError>(bytes),
        !valid_uid_len(bytes.len()) ==> untagged(tagged(bytes)) == Err::<Seq<u8>, NfcUidError>(
            NfcUidError::InvalidLength,
        ),
{
    assert(tagged(bytes).skip(1) =~= bytes);
}

/// Reading the stored hex text of an identifier gives the identifier back.
pub proof fn lemma_hex_round_trip(uid: NfcUid)
    ensures
        uid_from_hex(vstd::utf8::encode_utf8(hexstr::encode_lower(uid@))) == Ok::<
            NfcUid,
            HexError,
        >(uid),
{
    hexstr::lemma_round_trip(uid@);
    lemma_uid_len(uid);
    lemma_uid_of(uid);
}

/// The display text of some bytes, with its colons taken out, is their
/// upper-case hex text.
pub proof fn lemma_display_without_colons(bytes: Seq<u8>)
    ensures
        without_colons(hexstr::ascii_bytes(display_text(bytes))) == hexstr::ascii_bytes(
            hexstr::encode_upper(bytes),
        ),
    decreases bytes.len(),
{
    let shown = hexstr::ascii_bytes(display_text(bytes));
    let digits = hexstr::ascii_bytes(hexstr::encode_upper(bytes));
    if bytes.len() == 0 {
        assert(shown =~= Seq::<u8>::empty());
        assert(digits =~= Seq::<u8>::empty());
    } else {
        let front = bytes.drop_last();
        let b = bytes.last() as int;
        assert(0 <= b / 16 < 16 && 0 <= b % 16 < 16);
        let high = hexstr::upper_digit(b / 16);
        let low = hexstr::upper_digit(b % 16);
        let n = front.len() as int;
        lemma_display_without_colons(front);
        let front_shown = hexstr::ascii_bytes(display_text(front));
        let front_digits = hexstr::ascii_bytes(hexstr::encode_upper(front));
        assert(digits =~= front_digits.push(high).push(low)) by {
            assert(digits.len() == 2 * n + 2);
            assert forall|i: int| 0 <= i < 2 * n implies digits[i] == front_digits[i] by {
                assert(i / 2 < n);
                assert(bytes[i / 2] == front[i / 2]);
            }
            assert((2 * n) / 2 == n && (2 * n) % 2 == 0);
            assert((2 * n + 1) / 2 == n && (2 * n + 1) % 2 == 1);
        }
        let step1 = shown.drop_last();
        let step2 = step1.drop_last();
        assert(shown.len() == 3 * n + 2);
        assert((3 * n) / 3 == n && (3 * n) % 3 == 0);
        assert((3 * n + 1) / 3 == n && (3 * n + 1) % 3 == 1);
        assert(shown.last() == low);
        assert(step1.last() == high);
        assert(low != COLON && high != COLON);
        if n == 0 {
            assert(step2 =~= front_shown);
        } else {
            assert((3 * n - 1) / 3 == n - 1 && (3 * n - 1) % 3 == 2);
            assert(step2.last() == COLON);
            assert(step2.drop_last() =~= front_shown) by {
                assert(step2.drop_last().len() == front_shown.len());
                assert forall|i: int| 0 <= i < 3 * n - 1 implies step2.drop_last()[i]
                    == front_shown[i] by {
                    assert(i / 3 < n);
                    assert(bytes[i / 3] == front[i / 3]);
                }
            }
        }
        assert(without_colons(shown) == without_colons(step1).push(low));
        assert(without_colons(step1) == without_colons(step2).push(high));
    }
}

/// Reading the display text of an identifier gives the identifier back:
/// what `from_display` makes of the text that `to_string` wrote is the same
/// identifier.
pub proof fn lemma_display_round_trip(uid: NfcUid)
    ensures
        uid_from_hex(without_colons(vstd::utf8::encode_utf8(display_text(uid@)))) == Ok::<
            NfcUid,
            HexError,
        >(uid),
{
    let shown = display_text(uid@);
    assert(vstd::utf8::is_ascii_chars(shown)) by {
        assert forall|i: int| 0 <= i < shown.len() implies shown[i] as u32 <= 0x7f by {
            let b = uid@[i / 3] as int;
            assert(0 <= b / 16 < 16 && 0 <= b % 16 < 16);
        }
    }
    vstd::utf8::is_ascii_chars_encode_utf8(shown);
    assert(vstd::utf8::encode_utf8(shown) =~= hexstr::ascii_bytes(shown));
    lemma_display_without_colons(uid@);
    hexstr::lemma_decode_encode(uid@, true);
    lemma_uid_len(uid);
    lemma_uid_of(uid);
}

impl TryFromSpecImpl<&[u8]> for NfcUid {
    open spec fn obeys_try_from_spec() -> bool {
        true
    }

    open spec fn try_from_spec(v: &[u8]) -> Result<NfcUid, NfcUidError> {
        if valid_uid_len(v@.len()) {
            Ok(uid_of(v@))
        } else {
            Err(NfcUidError::InvalidLength)
        }
    }
}

impl TryFrom<&[u8]> for NfcUid {
    type Error = NfcUidError;

    /// Takes 4, 7 or 10 bytes as an identifier; any other length is refused.
    fn try_from(value: &[u8]) -> (res: Result<NfcUid, NfcUidError>)
        ensures
            valid_uid_len(value@.len()) ==> res is Ok && res.unwrap()@ == value@,
            !valid_uid_len(value@.len()) ==> res == Err::<NfcUid, NfcUidError>(
                NfcUidError::InvalidLength,
            ),
    {
        if value.len() == 4 {
            let data = [value[0], value[1], value[2], value[3]];
            assert(data@ =~= value@);
            let uid = NfcUid::Single(data);
            proof {
                lemma_uid_of(uid);
            }
            Ok(uid)
        } else if value.len() == 7 {
            let data = [value[0], value[1], value[2], value[3], value[4], value[5], value[6]];
            assert(data@ =~= value@);
            let uid = NfcUid::Double(data);
            proof {
                lemma_uid_of(uid);
            }
            Ok(uid)
        } else if value.len() == 10 {
            let data = [
                value[0],
                value[1],
                value[2],
                value[3],
                value[4],
                value[5],
                value[6],
                value[7],
                value[8],
                value[9],
            ];
            assert(data@ =~= value@);
            let uid = NfcUid::Triple(data);
            proof {
                lemma_uid_of(uid);
            }
            Ok(uid)
        } else {
            Err(NfcUidError::InvalidLength)
        }
    }
}

} // verus!
