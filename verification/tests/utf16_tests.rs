use multitude::utf16::{
    alloc_string_from_utf16, alloc_string_from_utf16_bytes, alloc_string_from_utf16_bytes_lossy, alloc_string_from_utf16_lossy,
    alloc_string_from_utf16be, alloc_string_from_utf16be_lossy, alloc_string_from_utf16le, alloc_string_from_utf16le_lossy,
    decode_one, encode_char, encode_utf16, units_from_bytes, utf16_len,
};

fn collect(chars: Vec<char>) -> String {
    chars.into_iter().collect()
}

#[test]
fn decode_matches_std() {
    let text = "a\u{e9}\u{20ac}\u{1f600}z";
    let units: Vec<u16> = text.encode_utf16().collect();
    assert_eq!(collect(alloc_string_from_utf16(&units).unwrap()), String::from_utf16(&units).unwrap());
    assert_eq!(collect(alloc_string_from_utf16(&units).unwrap()), text);
}

#[test]
fn decode_reports_the_first_unpaired_surrogate() {
    let units = [0x61u16, 0xDC00, 0xD800];
    let err = alloc_string_from_utf16(&units).unwrap_err();
    assert_eq!(err.unpaired_surrogate, 0xDC00);
    let std_err = char::decode_utf16(units.iter().copied()).find_map(|r| r.err()).unwrap();
    assert_eq!(err.unpaired_surrogate, std_err.unpaired_surrogate());
    let lone_high = [0xD83Du16];
    assert_eq!(alloc_string_from_utf16(&lone_high).unwrap_err().unpaired_surrogate, 0xD83D);
}

#[test]
fn lossy_decode_matches_std() {
    let units = [0x48u16, 0xD800, 0x69, 0xDFFF, 0xD83D, 0xDE00];
    assert_eq!(collect(alloc_string_from_utf16_lossy(&units)), String::from_utf16_lossy(&units));
    assert_eq!(collect(alloc_string_from_utf16_lossy(&units)), "H\u{fffd}i\u{fffd}\u{1f600}");
}

#[test]
fn decode_one_steps() {
    let units = [0x41u16, 0xD83D, 0xDE00, 0xDC00];
    let a = decode_one(&units, 0).unwrap();
    assert_eq!((a.ch, a.used), ('A', 1));
    let b = decode_one(&units, 1).unwrap();
    assert_eq!((b.ch, b.used), ('\u{1f600}', 2));
    assert!(decode_one(&units, 3).is_none());
}

#[test]
fn byte_order_decoding() {
    assert_eq!(units_from_bytes(&[0x41, 0x00, 0x42, 0x00, 0x07], false), vec![0x41, 0x42]);
    assert_eq!(units_from_bytes(&[0x00, 0x41, 0x20, 0xAC], true), vec![0x41, 0x20AC]);
    assert_eq!(collect(alloc_string_from_utf16le(&[0x68, 0x00, 0x69, 0x00]).unwrap()), "hi");
    assert_eq!(collect(alloc_string_from_utf16be(&[0x00, 0x68, 0x00, 0x69]).unwrap()), "hi");
    assert!(alloc_string_from_utf16le(&[0x68, 0x00, 0x69]).is_err());
    assert!(alloc_string_from_utf16be(&[0xD8, 0x00]).is_err());
    assert_eq!(collect(alloc_string_from_utf16_bytes(&[0x3D, 0xD8, 0x00, 0xDE], false).unwrap()), "\u{1f600}");
}

#[test]
fn lossy_byte_decoding_replaces_odd_tail() {
    assert_eq!(collect(alloc_string_from_utf16le_lossy(&[0x68, 0x00, 0x69])), "h\u{fffd}");
    assert_eq!(collect(alloc_string_from_utf16be_lossy(&[0xD8, 0x00, 0x00, 0x41])), "\u{fffd}A");
    assert_eq!(collect(alloc_string_from_utf16_bytes_lossy(&[], true)), "");
}

#[test]
fn encode_matches_std() {
    let text = "x\u{3a9}\u{10348}";
    let expected: Vec<u16> = text.encode_utf16().collect();
    assert_eq!(encode_utf16(text), expected);
    let mut out = vec![7u16];
    encode_char('\u{1f600}', &mut out);
    assert_eq!(out, vec![7, 0xD83D, 0xDE00]);
}

#[test]
fn utf16_length_counts_surrogate_pairs() {
    assert_eq!(utf16_len("abc"), Ok(3));
    assert_eq!(utf16_len("\u{1f600}\u{e9}"), Ok(3));
    assert_eq!(utf16_len(""), Ok(0));
}

#[test]
fn round_trip_on_concrete_text() {
    let text = "round \u{1d11e} trip \u{ffff}\u{10000}";
    let units = encode_utf16(text);
    assert_eq!(units.len(), utf16_len(text).unwrap());
    assert_eq!(collect(alloc_string_from_utf16(&units).unwrap()), text);
    assert_eq!(collect(alloc_string_from_utf16_lossy(&units)), text);
}
