use sound_pipewire::text::{parse_u32, u32_text};

#[test]
fn numbers_are_written_in_decimal() {
    assert_eq!(u32_text(0), "0");
    assert_eq!(u32_text(9), "9");
    assert_eq!(u32_text(10), "10");
    assert_eq!(u32_text(1203), "1203");
    assert_eq!(u32_text(u32::MAX), "4294967295");
}

#[test]
fn numbers_are_read_as_the_standard_library_reads_them() {
    let texts = [
        "", "+", "-", "0", "7", "+7", "-7", "-0", "++7", "007", "4294967295", "4294967296",
        "00000000000000000004294967295", "99999999999999999999", "12a", "a12", " 12", "12 ", "1_2",
        "0x10", "1.5", "\u{661}", "\u{ff11}", "12\u{0}", "alsa_output",
    ];
    for text in texts {
        assert_eq!(parse_u32(text), text.parse::<u32>().ok(), "{text:?}");
    }
}

#[test]
fn numbers_read_back_as_written() {
    for n in [0, 1, 9, 10, 99, 100, 65535, 1_000_000_007, u32::MAX] {
        assert_eq!(parse_u32(&u32_text(n)), Some(n));
    }
}
