use msbt_cpp::{Endian, MsbtCpp, MsbtError};

/// A ten-byte header whose byte-order mark at offsets 8 and 9 is the
/// given pair.
fn header(b8: u8, b9: u8) -> Vec<u8> {
    vec![0, 0, 0, 0, 0, 0, 0, 0, b8, b9]
}

#[test]
fn detector_short_buffers_are_undetermined() {
    assert_eq!(MsbtCpp::check_endianness(&vec![]), None);
    assert_eq!(MsbtCpp::check_endianness(&vec![0xFE, 0xFF]), None);
    assert_eq!(MsbtCpp::check_endianness(&vec![1, 2, 3, 4, 5]), None);
    assert_eq!(MsbtCpp::check_endianness(&vec![0xFF; 9]), None);
}

#[test]
fn detector_big_endian_mark() {
    assert_eq!(MsbtCpp::check_endianness(&header(0xFE, 0xFF)), Some(Endian::Big));
    let mut longer = header(0xFE, 0xFF);
    longer.extend_from_slice(&[9, 9, 9, 9]);
    assert_eq!(MsbtCpp::check_endianness(&longer), Some(Endian::Big));
}

#[test]
fn detector_little_endian_mark() {
    assert_eq!(MsbtCpp::check_endianness(&header(0xFF, 0xFE)), Some(Endian::Little));
}

#[test]
fn detector_other_marks_are_undetermined() {
    assert_eq!(MsbtCpp::check_endianness(&header(0x00, 0x00)), None);
    assert_eq!(MsbtCpp::check_endianness(&header(0xFF, 0xFF)), None);
    assert_eq!(MsbtCpp::check_endianness(&header(0xFE, 0xFE)), None);
    assert_eq!(MsbtCpp::check_endianness(&header(0x12, 0x34)), None);
}

#[test]
fn from_binary_empty_input_fails() {
    let r = MsbtCpp::from_binary(&[], Some("text".to_owned()), Some("text".to_owned()));
    assert_eq!(r.err().unwrap(), MsbtError::EmptyInput);
}

#[test]
fn from_binary_five_bytes_fails_undetermined() {
    let r = MsbtCpp::from_binary(&[1, 2, 3, 4, 5], None, None);
    assert_eq!(r.err().unwrap(), MsbtError::UndeterminedEndianness);
}

#[test]
fn from_binary_unrecognized_mark_fails_whatever_the_decoders_said() {
    let r = MsbtCpp::from_binary(
        &header(0xAB, 0xCD),
        Some("primary".to_owned()),
        Some("fallback".to_owned()),
    );
    assert_eq!(r.err().unwrap(), MsbtError::UndeterminedEndianness);
}

#[test]
fn from_binary_little_prefers_primary() {
    let bin = header(0xFF, 0xFE);
    let m = MsbtCpp::from_binary(&bin, Some("primary".to_owned()), Some("fallback".to_owned()))
        .unwrap();
    assert_eq!(m.text, "primary");
    assert_eq!(m.binary, bin);
    assert_eq!(m.endian, Some(Endian::Little));
}

#[test]
fn from_binary_primary_crash_falls_back() {
    let bin = header(0xFF, 0xFE);
    let m = MsbtCpp::from_binary(&bin, None, Some("fallback".to_owned())).unwrap();
    assert_eq!(m.text, "fallback");
    assert_eq!(m.binary, bin);
    assert_eq!(m.endian, Some(Endian::Little));
}

#[test]
fn from_binary_empty_primary_text_falls_back() {
    let bin = header(0xFF, 0xFE);
    let m = MsbtCpp::from_binary(&bin, Some(String::new()), Some("fallback".to_owned())).unwrap();
    assert_eq!(m.text, "fallback");
}

#[test]
fn from_binary_big_endian_ignores_primary() {
    let bin = header(0xFE, 0xFF);
    let m = MsbtCpp::from_binary(&bin, Some("primary".to_owned()), Some("fallback".to_owned()))
        .unwrap();
    assert_eq!(m.text, "fallback");
    assert_eq!(m.endian, Some(Endian::Big));
}

#[test]
fn from_binary_no_usable_text_fails() {
    let bin = header(0xFF, 0xFE);
    let r = MsbtCpp::from_binary(&bin, Some(String::new()), Some(String::new()));
    assert_eq!(r.err().unwrap(), MsbtError::BinaryToTextFailed);
    let r = MsbtCpp::from_binary(&bin, None, None);
    assert_eq!(r.err().unwrap(), MsbtError::BinaryToTextFailed);
}

#[test]
fn from_text_prefers_primary_bytes() {
    let m = MsbtCpp::from_text("Hello", Some(vec![1, 2, 3]), Some(vec![4, 5, 6])).unwrap();
    assert_eq!(m.text, "Hello");
    assert_eq!(m.binary, vec![1, 2, 3]);
    assert_eq!(m.endian, None);
}

#[test]
fn from_text_uses_fallback_bytes_when_primary_crashed() {
    let bin = header(0xFF, 0xFE);
    let m = MsbtCpp::from_text("Hello", None, Some(bin.clone())).unwrap();
    assert_eq!(m.text, "Hello");
    assert_eq!(m.binary, bin);
    assert_eq!(m.endian, Some(Endian::Little));
}

#[test]
fn from_text_little_endian_encode_carries_the_mark() {
    let bin = header(0xFF, 0xFE);
    let m = MsbtCpp::from_text("Hello", Some(bin), None).unwrap();
    assert_eq!(&m.binary[8..10], &[0xFF, 0xFE]);
    assert_eq!(m.endian, Some(Endian::Little));
}

#[test]
fn from_text_without_any_encoder_output_fails() {
    let r = MsbtCpp::from_text("Hello", None, None);
    assert_eq!(r.err().unwrap(), MsbtError::TextToBinaryFailed);
}

#[test]
fn round_trip_through_the_orchestrator() {
    let encoded = MsbtCpp::from_text("Hello", Some(header(0xFF, 0xFE)), None).unwrap();
    let decoded =
        MsbtCpp::from_binary(&encoded.binary, Some(encoded.text.clone()), None).unwrap();
    assert_eq!(decoded.text, "Hello");
    assert_eq!(decoded.binary, encoded.binary);
}

#[test]
fn error_messages_match_their_stage() {
    assert_eq!(MsbtError::EmptyInput.message(), "Msbt Binary data is empty");
    assert_eq!(
        MsbtError::UndeterminedEndianness.message(),
        "Unable to process msbt from binary nor determine endianness"
    );
    assert_eq!(
        MsbtError::BinaryToTextFailed.message(),
        "Unable to process msbt from binary nor determine endianness"
    );
    assert_eq!(MsbtError::TextToBinaryFailed.message(), "Unable to convert text to binary");
}
