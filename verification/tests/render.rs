use freqmeter::consumer::DisplayMode;
use freqmeter::render::{render_line, render_setup, READING_WIDTH};

#[test]
fn text_line_is_carriage_return_and_reading() {
    assert_eq!(render_line(0, DisplayMode::Text), b"\r      0 Hz".to_vec());
    assert_eq!(render_line(42, DisplayMode::Text), b"\r     42 Hz".to_vec());
    assert_eq!(render_line(70000, DisplayMode::Text), b"\r  70000 Hz".to_vec());
    assert_eq!(render_line(9999999, DisplayMode::Text), b"\r9999999 Hz".to_vec());
}

#[test]
fn graphic_line_is_a_text_command() {
    assert_eq!(
        render_line(1000, DisplayMode::Graphic),
        b"\x1b\x1b\x0b\x44   1000 Hz".to_vec()
    );
    assert_eq!(render_line(1000, DisplayMode::Graphic)[2] as usize, 1 + READING_WIDTH + 3);
}

#[test]
fn wide_numbers_are_not_cut() {
    assert_eq!(render_line(10000000, DisplayMode::Text), b"\r10000000 Hz".to_vec());
    assert_eq!(
        render_line(u64::MAX, DisplayMode::Text),
        b"\r18446744073709551615 Hz".to_vec()
    );
}

#[test]
fn line_matches_the_standard_formatter() {
    for frequency in [0u64, 7, 10, 99, 100, 65535, 65536, 1234567, 12345678, 4294967295] {
        let expected = format!("\r{:7} Hz", frequency);
        assert_eq!(render_line(frequency, DisplayMode::Text), expected.into_bytes());
        let expected = format!("\x1b\x1b\x0b\x44{:7} Hz", frequency);
        assert_eq!(render_line(frequency, DisplayMode::Graphic), expected.into_bytes());
    }
}

#[test]
fn setup_bytes() {
    assert_eq!(render_setup(DisplayMode::Text), Vec::<u8>::new());
    let mut expected = Vec::new();
    expected.extend_from_slice(b"\x1b\x1b\x02\x40\x00"); // clear to black
    expected.extend_from_slice(b"\x1b\x1b\x03\x30\x30\x30"); // set position
    expected.extend_from_slice(b"\x1b\x1b\x02\x31\x02"); // set font
    expected.extend_from_slice(b"\x1b\x1b\x05\x33\x00\x08\x07\x0f"); // set colours
    expected.extend_from_slice(b"\x1b\x1b\x01\x20"); // switch to graphics mode
    assert_eq!(render_setup(DisplayMode::Graphic), expected);
}
