use ascii_check::check_ascii_printable;
use ascii_check::AsciiError;

#[test]
fn test_check_ascii_printable() {
    check_ascii_printable("aeiou").unwrap();

    assert_eq!(check_ascii_printable("äeiou"),
               Err(AsciiError::NonAscii('ä')));
    assert_eq!(check_ascii_printable("aeïou"),
               Err(AsciiError::NonAscii('ï')));
    assert_eq!(check_ascii_printable("aeioü"),
               Err(AsciiError::NonAscii('ü')));
    assert_eq!(check_ascii_printable("foo€bar"),
               Err(AsciiError::NonAscii('€')));
    assert_eq!(check_ascii_printable("foo♦bar"),
               Err(AsciiError::NonAscii('♦')));

    assert_eq!(check_ascii_printable("foo\tbar"),
               Err(AsciiError::ControlChar(4)));
}

#[test]
fn empty_text_passes() {
    assert_eq!(check_ascii_printable(""), Ok(()));
}

#[test]
fn every_printable_byte_passes() {
    let all: String = (0x20u8..=0x7E).map(|b| b as char).collect();
    assert_eq!(check_ascii_printable(&all), Ok(()));
}

#[test]
fn control_position_counts_from_one() {
    assert_eq!(check_ascii_printable("\u{0}"), Err(AsciiError::ControlChar(1)));
    assert_eq!(check_ascii_printable("abc\u{7F}"), Err(AsciiError::ControlChar(4)));
    assert_eq!(check_ascii_printable("a\nb\tc"), Err(AsciiError::ControlChar(2)));
}

#[test]
fn the_first_failure_wins() {
    assert_eq!(check_ascii_printable("a\té"), Err(AsciiError::ControlChar(2)));
    assert_eq!(check_ascii_printable("aé\t"), Err(AsciiError::NonAscii('é')));
    assert_eq!(check_ascii_printable("x😀y"), Err(AsciiError::NonAscii('😀')));
}

#[test]
fn description_names_the_kind() {
    assert_eq!(AsciiError::ControlChar(3).description(), "contain ASCII control character");
    assert_eq!(AsciiError::NonAscii('é').description(), "contain non US-ASCII character");
}
