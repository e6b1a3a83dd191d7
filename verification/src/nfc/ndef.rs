//! NDEF: the TLV block that holds a message, and the text record in it.

use vstd::prelude::*;

verus! {

/// What the scanner waits for.
#[derive(Clone, Copy, Debug, PartialEq, Eq, Structural)]
pub enum NdefMessageParserState {
    /// The tag byte of the message block.
    Init,
    /// The length of the block.
    Length,
    /// The bytes of the block.
    Value,
}

/// Finds the NDEF message in the memory of a tag, fed chunk by chunk.
#[derive(Debug, PartialEq, Eq)]
pub struct NdefMessageParser {
    state: NdefMessageParserState,
    length: i32,
    started: bool,
    data: Vec<u8>,
}

/// What the scanner holds: what it waits for, the length field as far as
/// it is read (-1 while none is read, -2 after the marker of a long length),
/// whether a byte other than padding was seen, and the bytes of the message
/// so far.
pub struct ScannerView {
    pub state: NdefMessageParserState,
    pub length: i32,
    pub started: bool,
    pub data: Seq<u8>,
}

impl ScannerView {
    /// The scanner before the first byte.
    pub open spec fn initial() -> ScannerView {
        ScannerView {
            state: NdefMessageParserState::Init,
            length: -1i32,
            started: false,
            data: Seq::empty(),
        }
    }

    /// What a scanner between calls always satisfies: nothing is kept
    /// before a length is declared, the declared length fits in a byte, and no
    /// more is kept than it says.
    pub open spec fn wf(self) -> bool {
        match self.state {
            NdefMessageParserState::Init => self.length == -1 && self.data.len() == 0,
            NdefMessageParserState::Length => -2 <= self.length <= 255 && self.data.len() == 0
                && self.started,
            NdefMessageParserState::Value => 0 <= self.length <= 255 && self.data.len()
                <= self.length && self.started,
        }
    }

    /// Whether the message is complete: its length is declared, and as many
    /// bytes are kept as the length says.
    pub open spec fn is_done(self) -> bool {
        self.state == NdefMessageParserState::Value && self.data.len() == self.length
    }

    /// Whether a byte other than padding was seen.
    pub open spec fn has_started(self) -> bool {
        self.started
    }

    /// The scanner after one more byte. Before the block, 0x00 is padding,
    /// 0x03 opens the block, and every other byte is passed over. The length
    /// is one byte; 0xFF says that two more bytes give it, and those two are
    /// joined by shifting the first and taking the bitwise AND with the
    /// second. Every byte of the block is kept.
    pub open spec fn step(self, byte: u8) -> ScannerView {
        match self.state {
            NdefMessageParserState::Init => if byte == 0x00 {
                self
            } else if byte == 0x03 {
                ScannerView { state: NdefMessageParserState::Length, started: true, ..self }
            } else {
                ScannerView { started: true, ..self }
            },
            NdefMessageParserState::Length => if self.length == -1 {
                if byte == 0xff {
                    ScannerView { length: -2i32, ..self }
                } else {
                    ScannerView {
                        state: NdefMessageParserState::Value,
                        length: byte as i32,
                        ..self
                    }
                }
            } else if self.length == -2 {
                ScannerView { length: byte as i32, ..self }
            } else {
                ScannerView {
                    state: NdefMessageParserState::Value,
                    length: (self.length << 8) & (byte as i32),
                    ..self
                }
            },
            NdefMessageParserState::Value => ScannerView { data: self.data.push(byte), ..self },
        }
    }

    /// The scanner after a chunk: byte by byte, and no byte once the
    /// message is complete.
    pub open spec fn scan(self, chunk: Seq<u8>) -> ScannerView
        decreases chunk.len(),
    {
        if chunk.len() == 0 || self.is_done() {
            self
        } else {
            self.step(chunk[0]).scan(chunk.skip(1))
        }
    }

    /// The scanner after the chunks, one after the other.
    pub open spec fn scan_each(self, chunks: Seq<Seq<u8>>) -> ScannerView
        decreases chunks.len(),
    {
        if chunks.len() == 0 {
            self
        } else {
            self.scan(chunks[0]).scan_each(chunks.skip(1))
        }
    }
}

/// The chunks one after the other.
pub open spec fn joined(chunks: Seq<Seq<u8>>) -> Seq<u8>
    decreases chunks.len(),
{
    if chunks.len() == 0 {
        Seq::empty()
    } else {
        chunks[0] + joined(chunks.skip(1))
    }
}

impl View for NdefMessageParser {
    type V = ScannerView;

    closed spec fn view(&self) -> ScannerView {
        ScannerView {
            state: self.state,
            length: self.length,
            started: self.started,
            data: self.data@,
        }
    }
}

impl NdefMessageParser {
    /// The scanner before the first byte.
    pub fn new() -> (parser: Self)
        ensures
            parser@ == ScannerView::initial(),
            parser@.wf(),
    {
        Self {
            state: NdefMessageParserState::Init,
            length: -1,
            started: false,
            data: Vec::new(),
        }
    }

    /// Feeds the next chunk of tag memory. A scanner whose message is
    /// complete takes no further byte.
    pub fn add_data(&mut self, data: &[u8])
        ensures
            final(self)@ == old(self)@.scan(data@),
            old(self)@.wf() ==> final(self)@.wf(),
    {
        proof {
            lemma_scan_wf(self@, data@);
        }
        let mut i: usize = 0;
        assert(data@.skip(0) =~= data@);
        while i < data.len()
            invariant
                i <= data@.len(),
                old(self)@.wf() ==> old(self)@.scan(data@).wf(),
                old(self)@.scan(data@) == self@.scan(data@.skip(i as int)),
            decreases data@.len() - i,
        {
            if self.is_done() {
                return ;
            }
            let byte = data[i];
            let ghost before = self@;
            let ghost rest = data@.skip(i as int);
            assert(rest[0] == byte);
            assert(rest.skip(1) =~= data@.skip(i + 1));
            match self.state {
                NdefMessageParserState::Init => {
                    if byte == 0x03 {
                        self.state = NdefMessageParserState::Length;
                        self.started = true;
                    } else if byte != 0x00 {
                        self.started = true;
                    }
                },
                NdefMessageParserState::Length => {
                    if self.length == -1 {
                        if byte == 0xff {
                            self.length = -2;
                        } else {
                            self.length = byte as i32;
                            self.state = NdefMessageParserState::Value;
                        }
                    } else if self.length == -2 {
                        self.length = byte as i32;
                    } else {
                        self.length = (self.length << 8) & (byte as i32);
                        self.state = NdefMessageParserState::Value;
                    }
                },
                NdefMessageParserState::Value => {
                    self.data.push(byte);
                },
            }
            assert(self@ == before.step(byte));
            i += 1;
        }
    }

    /// Whether the message is complete: its length is declared, and as
    /// many bytes are kept as the length says.
    pub fn is_done(&self) -> (done: bool)
        ensures
            done == self@.is_done(),
    {
        match self.state {
            NdefMessageParserState::Value => self.length >= 0 && self.data.len()
                == self.length as usize,
            _ => false,
        }
    }

    /// Whether a byte other than padding was seen.
    pub fn has_started(&self) -> (started: bool)
        ensures
            started == self@.has_started(),
    {
        self.started
    }

    /// The bytes of the message so far.
    pub fn data(&self) -> (data: &Vec<u8>)
        ensures
            data@ == self@.data,
    {
        &self.data
    }
}

/// A well-formed scanner stays well-formed over one byte that it takes.
pub proof fn lemma_step_wf(scanner: ScannerView, byte: u8)
    requires
        scanner.wf(),
        !scanner.is_done(),
    ensures
        scanner.step(byte).wf(),
{
    lemma_joined_length(scanner.length, byte);
}

/// A well-formed scanner stays well-formed over a chunk.
pub proof fn lemma_scan_wf(scanner: ScannerView, chunk: Seq<u8>)
    ensures
        scanner.wf() ==> scanner.scan(chunk).wf(),
    decreases chunk.len(),
{
    if scanner.wf() && chunk.len() > 0 && !scanner.is_done() {
        lemma_step_wf(scanner, chunk[0]);
        lemma_scan_wf(scanner.step(chunk[0]), chunk.skip(1));
    }
}

/// A complete scanner is left as it is by whatever is fed to it.
pub proof fn lemma_done_takes_nothing(scanner: ScannerView, chunk: Seq<u8>)
    requires
        scanner.is_done(),
    ensures
        scanner.scan(chunk) == scanner,
{
}

/// Where a chunk is cut in two makes no difference: feeding one part after
/// the other is feeding the whole.
pub proof fn lemma_scan_append(scanner: ScannerView, a: Seq<u8>, b: Seq<u8>)
    ensures
        scanner.scan(a + b) == scanner.scan(a).scan(b),
    decreases a.len(),
{
    if a.len() == 0 {
        assert(a + b =~= b);
    } else if scanner.is_done() {
        lemma_done_takes_nothing(scanner, b);
    } else {
        assert((a + b).skip(1) =~= a.skip(1) + b);
        lemma_scan_append(scanner.step(a[0]), a.skip(1), b);
    }
}

/// However the content of a tag is cut into chunks, the scanner ends the
/// same: with the same bytes kept, the same report of completion and the same
/// report of a start.
pub proof fn lemma_chunking_is_irrelevant(scanner: ScannerView, chunks: Seq<Seq<u8>>)
    ensures
        scanner.scan_each(chunks) == scanner.scan(joined(chunks)),
    decreases chunks.len(),
{
    if chunks.len() > 0 {
        lemma_scan_append(scanner, chunks[0], joined(chunks.skip(1)));
        lemma_chunking_is_irrelevant(scanner.scan(chunks[0]), chunks.skip(1));
    }
}

/// Why the bytes of a message give no text.
#[derive(Clone, Copy, Debug, PartialEq, Eq, Structural)]
pub enum NdefError {
    FlagsMissing,
    ChunkedNotSupported,
    TypeLengthMissing,
    PayloadLengthMissing,
    IdLengthMissing,
    TypeMissing,
    IdMissing,
    PayloadMissing,
    NotWellKnown,
    NotTextRecord,
    LanguageCodeMissing,
    InvalidUtf8,
}

impl NdefError {
    /// The error in words.
    pub open spec fn spec_message(&self) -> Seq<char> {
        match self {
            NdefError::FlagsMissing => "Flags missing"@,
            NdefError::ChunkedNotSupported => "Chunked records are not supported"@,
            NdefError::TypeLengthMissing => "Type length missing"@,
            NdefError::PayloadLengthMissing => "Payload length missing"@,
            NdefError::IdLengthMissing => "ID length missing"@,
            NdefError::TypeMissing => "Type missing"@,
            NdefError::IdMissing => "ID missing"@,
            NdefError::PayloadMissing => "Payload missing"@,
            NdefError::NotWellKnown => "Not a well known payload type"@,
            NdefError::NotTextRecord => "Not a text record"@,
            NdefError::LanguageCodeMissing => "Language code missing"@,
            NdefError::InvalidUtf8 => "Text is not valid UTF-8"@,
        }
    }

    /// The error in words.
    pub fn message(&self) -> (text: &'static str)
        ensures
            text@ == self.spec_message(),
    {
        match self {
            NdefError::FlagsMissing => "Flags missing",
            NdefError::ChunkedNotSupported => "Chunked records are not supported",
            NdefError::TypeLengthMissing => "Type length missing",
            NdefError::PayloadLengthMissing => "Payload length missing",
            NdefError::IdLengthMissing => "ID length missing",
            NdefError::TypeMissing => "Type missing",
            NdefError::IdMissing => "ID missing",
            NdefError::PayloadMissing => "Payload missing",
            NdefError::NotWellKnown => "Not a well known payload type",
            NdefError::NotTextRecord => "Not a text record",
            NdefError::LanguageCodeMissing => "Language code missing",
            NdefError::InvalidUtf8 => "Text is not valid UTF-8",
        }
    }
}

/// A text record: its identifier and its payload.
#[derive(Debug, PartialEq, Eq)]
pub struct NdefTextRecord {
    id: Vec<u8>,
    value: Vec<u8>,
}

/// What a text record holds.
pub struct TextRecordView {
    pub id: Seq<u8>,
    pub value: Seq<u8>,
}

impl View for NdefTextRecord {
    type V = TextRecordView;

    closed spec fn view(&self) -> TextRecordView {
        TextRecordView { id: self.id@, value: self.value@ }
    }
}

/// The flag of a chunked record.
pub const FLAG_CHUNKED: u8 = 0x20;

/// The flag of a short record, whose payload length is one byte.
pub const FLAG_SHORT_RECORD: u8 = 0x10;

/// The flag of a record that has an identifier.
pub const FLAG_ID_LENGTH: u8 = 0x08;

/// The bits of the flags that hold the type name format.
pub const TYPE_NAME_FORMAT_MASK: u8 = 0x07;

/// The type name format of well-known types.
pub const WELL_KNOWN: u8 = 1;

/// The type of a text record: the letter T.
pub const TEXT_TYPE: u8 = 0x54;

/// The bits of the first payload byte that hold the length of the language
/// code.
pub const LANGUAGE_LENGTH_MASK: u8 = 0x3f;

/// The header of a record: the lengths it declares and where its fields
/// begin.
pub struct RecordHeader {
    pub flags: u8,
    pub type_length: nat,
    pub payload_length: nat,
    pub id_length: nat,
    /// Where the type begins: behind the last length field.
    pub fields_start: nat,
}

/// The header of the record in `data`, or the length field that is missing.
pub open spec fn record_header(data: Seq<u8>) -> Result<RecordHeader, NdefError> {
    if data.len() < 1 {
        Err(NdefError::FlagsMissing)
    } else if data[0] & FLAG_CHUNKED != 0 {
        Err(NdefError::ChunkedNotSupported)
    } else if data.len() < 2 {
        Err(NdefError::TypeLengthMissing)
    } else {
        let short = data[0] & FLAG_SHORT_RECORD != 0;
        let has_id = data[0] & FLAG_ID_LENGTH != 0;
        let after_payload_length: nat = if short {
            3
        } else {
            6
        };
        if data.len() < after_payload_length {
            Err(NdefError::PayloadLengthMissing)
        } else if has_id && data.len() < after_payload_length + 1 {
            Err(NdefError::IdLengthMissing)
        } else {
            Ok(
                RecordHeader {
                    flags: data[0],
                    type_length: data[1] as nat,
                    payload_length: if short {
                        data[2] as nat
                    } else {
                        crate::bytes::be_u32(data.skip(2)) as nat
                    },
                    id_length: if has_id {
                        data[after_payload_length as int] as nat
                    } else {
                        0
                    },
                    fields_start: if has_id {
                        after_payload_length + 1
                    } else {
                        after_payload_length
                    },
                },
            )
        }
    }
}

/// The text record in `data`: the header, then the type, the identifier and
/// the payload, each as long as the header says. A field that the data is too
/// short for is reported first, in the order of the fields; then a record that
/// is not of a well-known type, or not of type text.
pub open spec fn text_record(data: Seq<u8>) -> Result<TextRecordView, NdefError> {
    match record_header(data) {
        Err(e) => Err(e),
        Ok(header) => {
            let id_start = header.fields_start + header.type_length;
            let value_start = id_start + header.id_length;
            if data.len() < id_start {
                Err(NdefError::TypeMissing)
            } else if data.len() < value_start {
                Err(NdefError::IdMissing)
            } else if data.len() < value_start + header.payload_length {
                Err(NdefError::PayloadMissing)
            } else if header.flags & TYPE_NAME_FORMAT_MASK != WELL_KNOWN {
                Err(NdefError::NotWellKnown)
            } else if data.subrange(header.fields_start as int, id_start as int) != seq![
                TEXT_TYPE,
            ] {
                Err(NdefError::NotTextRecord)
            } else {
                Ok(
                    TextRecordView {
                        id: data.subrange(id_start as int, value_start as int),
                        value: data.subrange(
                            value_start as int,
                            (value_start + header.payload_length) as int,
                        ),
                    },
                )
            }
        },
    }
}

/// The text of a record with payload `value`: nothing for an empty payload;
/// else the low six bits of the first byte give the length of the language
/// code, and what follows the code is the text in UTF-8.
pub open spec fn record_text(value: Seq<u8>) -> Result<Seq<char>, NdefError> {
    if value.len() == 0 {
        Ok(Seq::empty())
    } else {
        let code_length = (value[0] & LANGUAGE_LENGTH_MASK) as int;
        if value.len() < 1 + code_length {
            Err(NdefError::LanguageCodeMissing)
        } else if !vstd::utf8::valid_utf8(value.skip(1 + code_length)) {
            Err(NdefError::InvalidUtf8)
        } else {
            Ok(vstd::utf8::decode_utf8(value.skip(1 + code_length)))
        }
    }
}

impl NdefTextRecord {
    /// The text of the record.
    pub fn text(&self) -> (res: Result<String, NdefError>)
        ensures
            match record_text(self@.value) {
                Ok(text) => res is Ok && res.unwrap()@ == text,
                Err(e) => res == Err::<String, NdefError>(e),
            },
    {
        if self.value.len() == 0 {
            return Ok(String::new());
        }
        let first = self.value[0];
        assert(first & 0x3f <= 0x3f) by (bit_vector);
        let code_length = (first & LANGUAGE_LENGTH_MASK) as usize;
        if self.value.len() < 1 + code_length {
            return Err(NdefError::LanguageCodeMissing);
        }
        let bytes = vstd::slice::slice_subrange(
            self.value.as_slice(),
            1 + code_length,
            self.value.len(),
        );
        assert(bytes@ =~= self@.value.skip(1 + code_length));
        match crate::bytes::string_from_utf8(vstd::slice::slice_to_vec(bytes)) {
            Some(text) => Ok(text),
            None => Err(NdefError::InvalidUtf8),
        }
    }
}

/// Reads the text record that `data`, the bytes of an NDEF message, begins
/// with.
pub fn parse_ndef_text_record(data: &Vec<u8>) -> (res: Result<NdefTextRecord, NdefError>)
    ensures
        match text_record(data@) {
            Ok(record) => res is Ok && res.unwrap()@ == record,
            Err(e) => res == Err::<NdefTextRecord, NdefError>(e),
        },
{
    let record_length = data.len();
    if record_length < 1 {
        return Err(NdefError::FlagsMissing);
    }
    let flags = data[0];
    let is_chunked = (flags & FLAG_CHUNKED) != 0;
    let is_short_record = (flags & FLAG_SHORT_RECORD) != 0;
    let has_id_length = (flags & FLAG_ID_LENGTH) != 0;
    let type_name_format = flags & TYPE_NAME_FORMAT_MASK;
    if is_chunked {
        return Err(NdefError::ChunkedNotSupported);
    }
    if record_length < 2 {
        return Err(NdefError::TypeLengthMissing);
    }
    let type_length = data[1] as usize;
    let mut index: usize = 2;
    let payload_length: usize = if is_short_record {
        if record_length < 3 {
            return Err(NdefError::PayloadLengthMissing);
        }
        index = 3;
        data[2] as usize
    } else {
        if record_length < 6 {
            return Err(NdefError::PayloadLengthMissing);
        }
        index = 6;
        let length: u32 = 0x100_0000 * (data[2] as u32) + 0x1_0000 * (data[3] as u32) + 0x100 * (
        data[4] as u32) + (data[5] as u32);
        length as usize
    };
    let id_length: usize = if has_id_length {
        if record_length < index + 1 {
            return Err(NdefError::IdLengthMissing);
        }
        let id_length_index = index;
        index = index + 1;
        data[id_length_index] as usize
    } else {
        0
    };
    proof {
        let header = record_header(data@);
        assert(header is Ok);
        assert(header.unwrap().fields_start == index);
        assert(header.unwrap().type_length == type_length);
        assert(header.unwrap().id_length == id_length);
        assert(header.unwrap().payload_length == payload_length);
    }
    let type_index = index;
    if record_length - index < type_length {
        return Err(NdefError::TypeMissing);
    }
    index = index + type_length;
    let payload_type = vstd::slice::slice_subrange(data.as_slice(), type_index, index);
    let id_index = index;
    if record_length - index < id_length {
        return Err(NdefError::IdMissing);
    }
    index = index + id_length;
    let payload_id = vstd::slice::slice_to_vec(
        vstd::slice::slice_subrange(data.as_slice(), id_index, index),
    );
    let value_index = index;
    if record_length - index < payload_length {
        return Err(NdefError::PayloadMissing);
    }
    let payload_value = vstd::slice::slice_to_vec(
        vstd::slice::slice_subrange(data.as_slice(), value_index, value_index + payload_length),
    );
    if type_name_format != WELL_KNOWN {
        return Err(NdefError::NotWellKnown);
    }
    if payload_type.len() != 1 || payload_type[0] != TEXT_TYPE {
        assert(payload_type@ != seq![TEXT_TYPE]) by {
            if payload_type@.len() == 1 {
                assert(seq![TEXT_TYPE][0] == TEXT_TYPE);
            }
        }
        return Err(NdefError::NotTextRecord);
    }
    assert(payload_type@ =~= seq![TEXT_TYPE]);
    Ok(NdefTextRecord { id: payload_id, value: payload_value })
}

/// Two length bytes joined by shift and AND always give zero: the shifted
/// first byte and the second share no bit.
pub proof fn lemma_joined_length(first: i32, second: u8)
    ensures
        (first << 8) & (second as i32) == 0,
{
    assert((first << 8) & (second as i32) == 0) by (bit_vector);
}

} // verus!
