//! Reading the text of a tag: which blocks to read, when to stop, and what
//! the bytes that were read say.

use crate::nfc::ndef::parse_ndef_text_record;
use crate::nfc::ndef::record_text;
use crate::nfc::ndef::text_record;
use crate::nfc::ndef::NdefError;
use crate::nfc::ndef::NdefMessageParser;
use crate::nfc::ndef::ScannerView;
use vstd::prelude::*;

verus! {

/// The block that holds the capabilities of the tag.
pub const CAPABILITY_BLOCK: u8 = 3;

/// The last group of four blocks whose first block has a number that fits
/// in a byte.
pub const LAST_QUAD: u8 = 63;

/// The group of blocks after which a tag without the start of a message is
/// given up.
pub const FIRST_SECTOR_QUADS: u8 = 2;

/// Why a tag gives no text.
#[derive(Clone, Copy, Debug, PartialEq, Eq, Structural)]
pub enum TagReadError {
    /// The first sector holds no start of a message.
    NoMessage,
    /// The blocks of the tag end before the message does.
    Incomplete,
    /// The message holds no text record that can be read.
    Record(NdefError),
}

/// What to do next with the tag.
#[derive(Debug, PartialEq, Eq)]
pub enum ReadStep {
    /// Read sixteen bytes from this block on, and hand them over.
    Read(u8),
    /// The reading is over: the text of the tag, or why there is none.
    Done(Result<String, TagReadError>),
}

/// What a step of the reading holds.
pub enum ReadStepView {
    Read(u8),
    Done(Result<Seq<char>, TagReadError>),
}

impl View for ReadStep {
    type V = ReadStepView;

    open spec fn view(&self) -> ReadStepView {
        match *self {
            ReadStep::Read(block) => ReadStepView::Read(block),
            ReadStep::Done(Ok(text)) => ReadStepView::Done(Ok(text@)),
            ReadStep::Done(Err(e)) => ReadStepView::Done(Err(e)),
        }
    }
}

/// The reading of one tag: the scanner, how many groups of four blocks the
/// tag has, and which group was asked for last (none while the capabilities
/// are awaited).
#[derive(Debug, PartialEq, Eq)]
pub struct TagReader {
    parser: NdefMessageParser,
    total_quads: u8,
    quad: u8,
}

/// What the reading of a tag holds.
pub struct TagReaderView {
    pub scanner: ScannerView,
    pub total_quads: u8,
    pub quad: u8,
}

/// What the bytes that the scanner kept say, once the reading is over: the
/// text of the record, or why there is none.
pub open spec fn tag_text(scanner: ScannerView) -> Result<Seq<char>, TagReadError> {
    if !scanner.is_done() {
        Err(TagReadError::Incomplete)
    } else {
        match text_record(scanner.data) {
            Err(e) => Err(TagReadError::Record(e)),
            Ok(record) => match record_text(record.value) {
                Err(e) => Err(TagReadError::Record(e)),
                Ok(text) => Ok(text),
            },
        }
    }
}

impl TagReaderView {
    /// The reading before the capabilities of the tag are known.
    pub open spec fn initial() -> TagReaderView {
        TagReaderView { scanner: ScannerView::initial(), total_quads: 0, quad: 0 }
    }

    /// The step after the block with the capabilities: its third byte
    /// counts the memory of the tag in units of eight bytes, so half of it
    /// counts the groups of four blocks, of four bytes each. A tag without
    /// memory is incomplete; else the first group is read.
    pub open spec fn after_capabilities(self, block: Seq<u8>) -> (TagReaderView, ReadStepView) {
        let total_quads = block[2] / 2;
        let known = TagReaderView { total_quads, ..self };
        if total_quads == 0 {
            (known, ReadStepView::Done(tag_text(self.scanner)))
        } else {
            (TagReaderView { quad: 1, ..known }, ReadStepView::Read(4))
        }
    }

    /// The step after a group of blocks: the scanner takes the bytes. A
    /// complete message ends the reading with its text. So does a tag that
    /// shows no start of a message in its first sector, and a tag whose last
    /// group was read. Else the next group is read.
    pub open spec fn after_block(self, data: Seq<u8>) -> (TagReaderView, ReadStepView) {
        let scanner = self.scanner.scan(data);
        let fed = TagReaderView { scanner, ..self };
        if scanner.is_done() {
            (fed, ReadStepView::Done(tag_text(scanner)))
        } else if self.quad == FIRST_SECTOR_QUADS && !scanner.has_started() {
            (fed, ReadStepView::Done(Err(TagReadError::NoMessage)))
        } else if self.quad >= self.total_quads || self.quad >= LAST_QUAD {
            (fed, ReadStepView::Done(Err(TagReadError::Incomplete)))
        } else {
            (
                TagReaderView { quad: (self.quad + 1) as u8, ..fed },
                ReadStepView::Read((4 * (self.quad + 1)) as u8),
            )
        }
    }

    /// One step of the reading: the first block that comes is the one with
    /// the capabilities, every other one is a group of the memory.
    pub open spec fn next(self, block: Seq<u8>) -> (TagReaderView, ReadStepView) {
        if self.quad == 0 {
            self.after_capabilities(block)
        } else {
            self.after_block(block)
        }
    }
}

impl View for TagReader {
    type V = TagReaderView;

    closed spec fn view(&self) -> TagReaderView {
        TagReaderView { scanner: self.parser@, total_quads: self.total_quads, quad: self.quad }
    }
}

impl TagReader {
    /// The reading of a tag, and its first step: to read the block with the
    /// capabilities.
    pub fn new() -> (start: (Self, ReadStep))
        ensures
            start.0@ == TagReaderView::initial(),
            start.1@ == ReadStepView::Read(CAPABILITY_BLOCK),
    {
        (
            TagReader { parser: NdefMessageParser::new(), total_quads: 0, quad: 0 },
            ReadStep::Read(CAPABILITY_BLOCK),
        )
    }

    /// What the bytes that were kept say.
    fn finish(&self) -> (res: Result<String, TagReadError>)
        ensures
            match tag_text(self@.scanner) {
                Ok(text) => res is Ok && res.unwrap()@ == text,
                Err(e) => res is Err && res.unwrap_err() == e,
            },
    {
        if !self.parser.is_done() {
            return Err(TagReadError::Incomplete);
        }
        let record = match parse_ndef_text_record(self.parser.data()) {
            Ok(record) => record,
            Err(e) => {
                return Err(TagReadError::Record(e));
            },
        };
        match record.text() {
            Ok(text) => Ok(text),
            Err(e) => Err(TagReadError::Record(e)),
        }
    }

    /// Takes the sixteen bytes that were read, and says what to do next.
    pub fn next(&mut self, block: &[u8; 16]) -> (step: ReadStep)
        ensures
            (final(self)@, step@) == old(self)@.next(block@),
    {
        if self.quad == 0 {
            self.total_quads = block[2] / 2;
            if self.total_quads == 0 {
                return ReadStep::Done(self.finish());
            }
            self.quad = 1;
            return ReadStep::Read(4);
        }
        self.parser.add_data(block.as_slice());
        if self.parser.is_done() {
            return ReadStep::Done(self.finish());
        }
        if self.quad == FIRST_SECTOR_QUADS && !self.parser.has_started() {
            return ReadStep::Done(Err(TagReadError::NoMessage));
        }
        if self.quad >= self.total_quads || self.quad >= LAST_QUAD {
            return ReadStep::Done(Err(TagReadError::Incomplete));
        }
        self.quad = self.quad + 1;
        ReadStep::Read(4 * self.quad)
    }
}

} // verus!
