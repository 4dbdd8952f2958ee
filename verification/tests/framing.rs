use ezo_rtd::DataLoggerStorageIntervalResponse;
use ezo_rtd::ErrorKind;
use ezo_rtd::TemperatureScaleResponse;
use ezo_rtd::check_utf8;
use ezo_rtd::response_text;

#[test]
fn extracts_text_before_terminator() {
    assert_eq!(response_text("abc\0".as_bytes()).unwrap(), vec![0x61u8, 0x62, 0x63]);
    assert_eq!(response_text("\0".as_bytes()).unwrap(), Vec::<u8>::new());
}

#[test]
fn rejects_unterminated_buffers_as_malformed() {
    assert_eq!(response_text("".as_bytes()), Err(ErrorKind::MalformedResponse));
    assert_eq!(response_text("abc".as_bytes()), Err(ErrorKind::MalformedResponse));
    assert_eq!(response_text(&[0x01]), Err(ErrorKind::MalformedResponse));
}

#[test]
fn rejects_embedded_nul_as_malformed() {
    assert_eq!(response_text("a\0b\0".as_bytes()), Err(ErrorKind::MalformedResponse));
    assert_eq!(response_text("\0\0".as_bytes()), Err(ErrorKind::MalformedResponse));
}

#[test]
fn rejects_invalid_utf8_as_malformed() {
    assert_eq!(response_text(&[0xFF, 0x00]), Err(ErrorKind::MalformedResponse));
    assert_eq!(response_text(&[0xC3, 0x00]), Err(ErrorKind::MalformedResponse));
    assert_eq!(
        TemperatureScaleResponse::parse(&[0xFF, 0x00]),
        Err(ErrorKind::MalformedResponse)
    );
    assert_eq!(
        DataLoggerStorageIntervalResponse::parse(&[0xFF, 0x00]),
        Err(ErrorKind::MalformedResponse)
    );
}

#[test]
fn accepts_multibyte_utf8_text() {
    // A well-framed two-byte scalar: the frame is fine, only the grammar fails.
    let response = "\u{e9}\0".as_bytes();
    assert_eq!(response_text(response).unwrap(), vec![0xC3u8, 0xA9]);
    assert_eq!(
        TemperatureScaleResponse::parse(response),
        Err(ErrorKind::ResponseParse)
    );
}

#[test]
fn utf8_check_agrees_with_std() {
    let cases: Vec<Vec<u8>> = vec![
        vec![],
        vec![0x61],
        vec![0x7F],
        vec![0x80],
        vec![0xC2, 0x80],
        vec![0xC2],
        vec![0xC1, 0xBF],
        vec![0xC3, 0xA9],
        vec![0xE0, 0xA0, 0x80],
        vec![0xE0, 0x80, 0x80],
        vec![0xED, 0x9F, 0xBF],
        vec![0xED, 0xA0, 0x80],
        vec![0xEF, 0xBF, 0xBD],
        vec![0xF0, 0x90, 0x80, 0x80],
        vec![0xF0, 0x80, 0x80, 0x80],
        vec![0xF4, 0x8F, 0xBF, 0xBF],
        vec![0xF4, 0x90, 0x80, 0x80],
        vec![0xF5, 0x80, 0x80, 0x80],
        vec![0x61, 0xC3, 0xA9, 0x62],
        vec![0xE2, 0x82, 0xAC],
        vec![0xE2, 0x82],
    ];
    for case in cases {
        assert_eq!(check_utf8(&case), std::str::from_utf8(&case).is_ok());
    }
}
