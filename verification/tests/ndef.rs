use bloop_box::nfc::ndef::parse_ndef_text_record;
use bloop_box::nfc::ndef::NdefError;
use bloop_box::nfc::ndef::NdefMessageParser;
use bloop_box::nfc::reader::ReadStep;
use bloop_box::nfc::reader::TagReadError;
use bloop_box::nfc::reader::TagReader;

/// Feeds all of `content` to a fresh scanner, in chunks of `chunk_size`.
fn scan(content: &[u8], chunk_size: usize) -> (Vec<u8>, bool, bool) {
    let mut parser = NdefMessageParser::new();
    for chunk in content.chunks(chunk_size) {
        parser.add_data(chunk);
    }
    (parser.data().clone(), parser.is_done(), parser.has_started())
}

fn tag_content() -> Vec<u8> {
    let mut content = vec![0x00, 0x00, 0x03, 0x07, 0xd1, 0x01, 0x03, 0x54, 0x00, b'h', b'i', 0xfe];
    content.resize(48, 0);
    content
}

#[test]
fn new_parser_has_not_started() {
    let parser = NdefMessageParser::new();
    assert!(!parser.is_done());
    assert!(!parser.has_started());
    assert!(parser.data().is_empty());
}

#[test]
fn chunk_sizes_do_not_matter() {
    let content = tag_content();
    let expected = (vec![0xd1, 0x01, 0x03, 0x54, 0x00, b'h', b'i'], true, true);
    assert_eq!(scan(&content, 1), expected);
    assert_eq!(scan(&content, 4), expected);
    assert_eq!(scan(&content, 16), expected);
    assert_eq!(scan(&content, 48), expected);
    for size in 1..=48 {
        assert_eq!(scan(&content, size), expected);
    }
}

#[test]
fn incomplete_message_is_the_same_for_all_chunk_sizes() {
    let content = [0x00, 0x03, 0x09, 1, 2, 3, 4, 5];
    let expected = (vec![1, 2, 3, 4, 5], false, true);
    assert_eq!(scan(&content, 1), expected);
    assert_eq!(scan(&content, 4), expected);
    assert_eq!(scan(&content, 16), expected);
}

#[test]
fn padding_only_never_starts() {
    assert_eq!(scan(&[0u8; 32], 4), (vec![], false, false));
    assert_eq!(scan(&[], 4), (vec![], false, false));
}

#[test]
fn any_byte_but_padding_is_a_start() {
    let mut parser = NdefMessageParser::new();
    parser.add_data(&[0x01]);
    assert!(parser.has_started());
    assert!(parser.data().is_empty());
    assert!(!parser.is_done());
    assert_eq!(scan(&[0x00, 0x01, 0x02, 0xff], 4), (vec![], false, true));
    assert_eq!(scan(&[0x00, 0x00, 0x03], 1), (vec![], false, true));
    // A byte that is passed over does not keep the block from opening later.
    assert_eq!(scan(&[0x01, 0x03, 0x01, 0xaa], 2), (vec![0xaa], true, true));
}

#[test]
fn complete_scanner_takes_no_further_byte() {
    let content = [0x03, 0x01, 0xaa, 0xbb];
    let expected = (vec![0xaa], true, true);
    assert_eq!(scan(&content, 1), expected);
    assert_eq!(scan(&content, 2), expected);
    assert_eq!(scan(&content, 3), expected);
    assert_eq!(scan(&content, 4), expected);
    assert_eq!(scan(&content, 16), expected);
}

#[test]
fn every_way_to_cut_the_content_gives_the_same() {
    let contents: Vec<Vec<u8>> = vec![
        tag_content(),
        vec![0x03, 0x00, 0x41, 0x42],
        vec![0x00, 0x03, 0xff, 0x01, 0x02, 0x03, 0x04],
        vec![0x07, 0x00, 0x03, 0x03, 1, 2, 3, 4, 5],
        vec![0x00, 0x03, 0x09, 1, 2, 3, 4, 5],
    ];
    for content in contents {
        let whole = scan(&content, content.len());
        for size in 1..=content.len() {
            assert_eq!(scan(&content, size), whole, "{:?} in chunks of {}", content, size);
        }
    }
}

#[test]
fn bytes_after_the_message_are_dropped() {
    let mut parser = NdefMessageParser::new();
    parser.add_data(&[0x03, 0x02, 0xaa, 0xbb, 0xcc, 0xdd]);
    assert!(parser.is_done());
    assert_eq!(parser.data(), &vec![0xaa, 0xbb]);
    parser.add_data(&[0xee, 0xff]);
    assert!(parser.is_done());
    assert_eq!(parser.data(), &vec![0xaa, 0xbb]);
}

#[test]
fn extended_length_joins_its_bytes_with_and() {
    // The two bytes after the 0xff marker are joined by shift and AND, which
    // gives zero whatever they are: a long block is never read.
    let mut parser = NdefMessageParser::new();
    parser.add_data(&[0x03]);
    parser.add_data(&[0xff]);
    assert!(!parser.is_done());
    parser.add_data(&[0x01]);
    assert!(!parser.is_done());
    parser.add_data(&[0x2c]);
    assert!(parser.is_done());
    assert!(parser.data().is_empty());
    parser.add_data(&[0xd1]);
    assert!(parser.is_done());
    assert!(parser.data().is_empty());
}

#[test]
fn zero_length_block_is_complete_at_once() {
    assert_eq!(scan(&[0x03, 0x00, 0x41], 1), (vec![], true, true));
    assert_eq!(scan(&[0x03, 0x00, 0x41], 3), (vec![], true, true));
    assert_eq!(scan(&[0x03, 0x00], 2), (vec![], true, true));
}

#[test]
fn text_record_hi() {
    let parser_output = scan(
        &[0x00, 0x00, 0x03, 0x07, 0xd1, 0x01, 0x03, 0x54, 0x00, b'h', b'i'],
        4,
    );
    assert!(parser_output.1);
    let record = parse_ndef_text_record(&parser_output.0).unwrap();
    assert_eq!(record.text(), Ok("hi".to_string()));
}

#[test]
fn text_record_skips_the_language_code() {
    let record = parse_ndef_text_record(&vec![0xd1, 0x01, 0x05, 0x54, 0x02, b'e', b'n', b'h', b'i'])
        .unwrap();
    assert_eq!(record.text(), Ok("hi".to_string()));
    let utf8 = parse_ndef_text_record(&vec![0xd1, 0x01, 0x03, 0x54, 0x80, 0xc3, 0xa9]).unwrap();
    assert_eq!(utf8.text(), Ok("\u{e9}".to_string()));
}

#[test]
fn empty_payload_is_empty_text() {
    let record = parse_ndef_text_record(&vec![0xd1, 0x01, 0x00, 0x54]).unwrap();
    assert_eq!(record.text(), Ok(String::new()));
}

#[test]
fn long_record_and_id_are_read() {
    let data = vec![
        0xc9, 0x01, 0x00, 0x00, 0x00, 0x03, 0x02, 0x54, b'i', b'd', 0x00, b'o', b'k', 0xff,
    ];
    let record = parse_ndef_text_record(&data).unwrap();
    assert_eq!(record.text(), Ok("ok".to_string()));
}

#[test]
fn each_record_error_has_an_input() {
    let cases: Vec<(Vec<u8>, NdefError)> = vec![
        (vec![], NdefError::FlagsMissing),
        (vec![0xf1, 0x01, 0x00, 0x54], NdefError::ChunkedNotSupported),
        (vec![0xd1], NdefError::TypeLengthMissing),
        (vec![0xd1, 0x01], NdefError::PayloadLengthMissing),
        (vec![0xc1, 0x01, 0x00, 0x00, 0x00], NdefError::PayloadLengthMissing),
        (vec![0xd9, 0x01, 0x00], NdefError::IdLengthMissing),
        (vec![0xd1, 0x02, 0x00, 0x54], NdefError::TypeMissing),
        (vec![0xd9, 0x01, 0x00, 0x02, 0x54, 0x01], NdefError::IdMissing),
        (vec![0xd1, 0x01, 0x03, 0x54, 0x00, b'h'], NdefError::PayloadMissing),
        (vec![0xc1, 0x01, 0xff, 0xff, 0xff, 0xff, 0x54], NdefError::PayloadMissing),
        (vec![0xd2, 0x01, 0x00, 0x54], NdefError::NotWellKnown),
        (vec![0xd1, 0x01, 0x00, 0x55], NdefError::NotTextRecord),
        (vec![0xd1, 0x00, 0x00], NdefError::NotTextRecord),
        (vec![0xd1, 0x02, 0x00, 0x54, 0x54], NdefError::NotTextRecord),
    ];
    for (data, error) in cases {
        assert_eq!(parse_ndef_text_record(&data).err(), Some(error), "{:?}", data);
    }
    let truncated_code = parse_ndef_text_record(&vec![0xd1, 0x01, 0x02, 0x54, 0x05, b'a']).unwrap();
    assert_eq!(truncated_code.text(), Err(NdefError::LanguageCodeMissing));
    let bad_text = parse_ndef_text_record(&vec![0xd1, 0x01, 0x02, 0x54, 0x00, 0xff]).unwrap();
    assert_eq!(bad_text.text(), Err(NdefError::InvalidUtf8));
    assert_eq!(NdefError::ChunkedNotSupported.message(), "Chunked records are not supported");
}

fn block(bytes: &[u8]) -> [u8; 16] {
    let mut block = [0u8; 16];
    block[..bytes.len()].copy_from_slice(bytes);
    block
}

#[test]
fn tag_reader_reads_until_the_message_is_complete() {
    let (mut reader, first) = TagReader::new();
    assert_eq!(first, ReadStep::Read(3));
    assert_eq!(reader.next(&block(&[0xe1, 0x10, 0x12, 0x00])), ReadStep::Read(4));
    let mut content = vec![0x03, 0x14, 0xd1, 0x01, 0x10, 0x54, 0x02, b'e', b'n'];
    content.extend_from_slice(b"hello, world!");
    content.push(0xfe);
    assert_eq!(reader.next(&block(&content[..16])), ReadStep::Read(8));
    assert_eq!(
        reader.next(&block(&content[16..])),
        ReadStep::Done(Ok("hello, world!".to_string()))
    );
}

#[test]
fn tag_reader_gives_up_without_a_message() {
    let (mut reader, _) = TagReader::new();
    assert_eq!(reader.next(&block(&[0xe1, 0x10, 0x12, 0x00])), ReadStep::Read(4));
    assert_eq!(reader.next(&[0u8; 16]), ReadStep::Read(8));
    assert_eq!(reader.next(&[0u8; 16]), ReadStep::Done(Err(TagReadError::NoMessage)));
}

#[test]
fn tag_reader_reports_an_incomplete_message() {
    let (mut reader, _) = TagReader::new();
    assert_eq!(reader.next(&block(&[0xe1, 0x10, 0x06, 0x00])), ReadStep::Read(4));
    assert_eq!(reader.next(&block(&[0x03, 0x80, 1, 2, 3])), ReadStep::Read(8));
    assert_eq!(reader.next(&[1u8; 16]), ReadStep::Read(12));
    assert_eq!(reader.next(&[1u8; 16]), ReadStep::Done(Err(TagReadError::Incomplete)));

    let (mut empty, _) = TagReader::new();
    assert_eq!(
        empty.next(&block(&[0xe1, 0x10, 0x01, 0x00])),
        ReadStep::Done(Err(TagReadError::Incomplete))
    );
}

#[test]
fn tag_reader_reports_a_bad_record() {
    let (mut reader, _) = TagReader::new();
    assert_eq!(reader.next(&block(&[0xe1, 0x10, 0x12, 0x00])), ReadStep::Read(4));
    assert_eq!(
        reader.next(&block(&[0x03, 0x04, 0xd1, 0x01, 0x00, 0x55])),
        ReadStep::Done(Err(TagReadError::Record(NdefError::NotTextRecord)))
    );
}

#[test]
fn tag_reader_stops_at_the_last_block_a_byte_can_name() {
    let (mut reader, _) = TagReader::new();
    assert_eq!(reader.next(&block(&[0xe1, 0x10, 0xff, 0x00])), ReadStep::Read(4));
    let mut step = reader.next(&block(&[0x03, 0xfe]));
    let mut reads = 1;
    while let ReadStep::Read(number) = step {
        reads += 1;
        assert_eq!(number as usize, 4 * reads);
        step = reader.next(&[0x03, 0, 0, 0, 0, 0, 0, 0, 0, 0, 0, 0, 0, 0, 0, 0]);
        if reads > 100 {
            break;
        }
    }
    assert!(reads <= 63);
}

#[test]
fn text_record_with_a_payload_shorter_than_its_language_code_fails() {
    let (data, done, _) = scan(
        &[0x00, 0x00, 0x03, 0x05, 0xd1, 0x01, 0x01, 0x54, 0x02, b'h', b'i'],
        4,
    );
    assert!(done);
    assert_eq!(data, vec![0xd1, 0x01, 0x01, 0x54, 0x02]);
    let record = parse_ndef_text_record(&data).unwrap();
    assert_eq!(record.text(), Err(NdefError::LanguageCodeMissing));
}
