use bloop_box::hardware::nfc::NfcUid;
use bloop_box::hardware::nfc::NfcUidError;
use bloop_box::hexstr::HexError;

#[test]
fn uid_of_four_bytes_is_single() {
    let uid = NfcUid::try_from(&[1u8, 2, 3, 4][..]).unwrap();
    assert_eq!(uid, NfcUid::Single([1, 2, 3, 4]));
    assert_eq!(uid.as_bytes(), &[1, 2, 3, 4]);
}

#[test]
fn uid_of_five_bytes_is_refused() {
    assert_eq!(NfcUid::try_from(&[1u8, 2, 3, 4, 5][..]), Err(NfcUidError::InvalidLength));
}

#[test]
fn uid_hex_and_display() {
    let uid = NfcUid::Double([0xde, 0xad, 0xbe, 0xef, 0x00, 0x01, 0xff]);
    assert_eq!(uid.to_hex(), "deadbeef0001ff");
    assert_eq!(uid.to_string(), "DE:AD:BE:EF:00:01:FF");
    assert_eq!(NfcUid::from_hex("DEADbeef0001ff"), Ok(uid));
    assert_eq!(NfcUid::from_hex("abc"), Err(HexError::OddLength));
    assert_eq!(NfcUid::from_hex("abcd"), Err(HexError::InvalidStringLength));
    assert_eq!(
        NfcUid::from_hex("0102030g"),
        Err(HexError::InvalidHexCharacter { c: 'g', index: 7 })
    );
}

#[test]
fn tagged_bytes_round_trip_for_each_length() {
    let uids = [
        NfcUid::Single([1, 2, 3, 4]),
        NfcUid::Double([1, 2, 3, 4, 5, 6, 7]),
        NfcUid::Triple([1, 2, 3, 4, 5, 6, 7, 8, 9, 10]),
    ];
    for uid in uids {
        let tagged = uid.as_tagged_bytes();
        assert_eq!(tagged[0] as usize, uid.as_bytes().len());
        assert_eq!(&tagged[1..], uid.as_bytes());
        assert_eq!(NfcUid::from_tagged_bytes(&tagged), Ok(uid));
    }
}

#[test]
fn tagged_bytes_of_other_lengths_are_refused() {
    assert_eq!(NfcUid::from_tagged_bytes(&[]), Err(NfcUidError::InvalidLength));
    assert_eq!(NfcUid::from_tagged_bytes(&[0]), Err(NfcUidError::InvalidLength));
    assert_eq!(NfcUid::from_tagged_bytes(&[5, 1, 2, 3, 4, 5]), Err(NfcUidError::InvalidLength));
    assert_eq!(NfcUid::from_tagged_bytes(&[4, 1, 2, 3]), Err(NfcUidError::InvalidLength));
    assert_eq!(NfcUid::from_tagged_bytes(&[4, 1, 2, 3, 4, 5]), Err(NfcUidError::InvalidLength));
    for len in 0..=12usize {
        let bytes = vec![7u8; len];
        let res = NfcUid::try_from(&bytes[..]);
        if len == 4 || len == 7 || len == 10 {
            assert_eq!(res.unwrap().as_bytes(), &bytes[..]);
        } else {
            assert_eq!(res, Err(NfcUidError::InvalidLength));
        }
    }
}

#[test]
fn uid_hex_round_trip() {
    let uid = NfcUid::Triple([0, 1, 2, 0xa0, 0xb1, 0xc2, 0xd3, 0xe4, 0xf5, 0xff]);
    assert_eq!(NfcUid::from_hex(&uid.to_hex()), Ok(uid));
    assert!(uid.same_as(&uid));
    assert!(!uid.same_as(&NfcUid::Single([0, 1, 2, 0xa0])));
    assert_eq!(NfcUidError::InvalidLength.message(), "Invalid UID length, must be 4, 7 or 10");
}

#[test]
fn display_text_reads_back() {
    let uids = [
        NfcUid::Single([0x0a, 0xb1, 0xc2, 0xff]),
        NfcUid::Double([1, 2, 3, 4, 5, 6, 0x7f]),
        NfcUid::Triple([0, 1, 2, 3, 4, 5, 6, 7, 8, 0xe9]),
    ];
    for uid in uids {
        assert_eq!(NfcUid::from_display(&uid.to_string()), Some(uid));
    }
    assert_eq!(NfcUid::Single([0x0a, 0xb1, 0xc2, 0xff]).to_string(), "0A:B1:C2:FF");
    assert_eq!(NfcUid::from_display("aa:bb:cc:dd"), Some(NfcUid::Single([0xaa, 0xbb, 0xcc, 0xdd])));
    assert_eq!(NfcUid::from_display("aabbccdd"), Some(NfcUid::Single([0xaa, 0xbb, 0xcc, 0xdd])));
    assert_eq!(NfcUid::from_display(":::a:abb:ccdd"), Some(NfcUid::Single([0xaa, 0xbb, 0xcc, 0xdd])));
    assert_eq!(NfcUid::from_display(""), None);
    assert_eq!(NfcUid::from_display("aa:bb:cc"), None);
    assert_eq!(NfcUid::from_display("aa:bb:cc:d"), None);
    assert_eq!(NfcUid::from_display("aa:bb:cc:dg"), None);
    assert_eq!(NfcUid::from_display("aa:bb:cc:d\u{e9}"), None);
}
