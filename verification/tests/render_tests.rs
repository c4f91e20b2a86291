use fourcc::FourCC;

#[test]
fn display_form() {
    assert_eq!(FourCC::from_string("RGBA").unwrap().to_string(), "RGBA");
    assert_eq!(FourCC(*b"avc1").to_string(), "avc1");
    assert_eq!(FourCC(*b"    ").to_string(), "    ");
}

#[test]
fn debug_form() {
    assert_eq!(FourCC::from_string("RGBA").unwrap().to_debug_string(), "'RGBA'");
    assert_eq!(FourCC(*b"''''").to_debug_string(), "''''''");
}

#[test]
fn display_of_invalid_code() {
    let out = FourCC::from_bytes(&[0, 1, 2, 3]).to_string();
    assert_eq!(out.chars().count(), 4);
    assert_eq!(out, "\0\u{1}\u{2}\u{3}");
}

#[test]
fn display_of_high_bytes() {
    let out = FourCC([0xff, 0x80, 0x41, 0xe9]).to_string();
    assert_eq!(out.chars().count(), 4);
    assert_eq!(out, "\u{ff}\u{80}A\u{e9}");
    let quoted = FourCC([0xff, 0x80, 0x41, 0xe9]).to_debug_string();
    assert_eq!(quoted.chars().count(), 6);
    assert_eq!(quoted, "'\u{ff}\u{80}A\u{e9}'");
}

#[test]
fn display_keeps_byte_order() {
    assert_eq!(FourCC::from_u32(0x4142_4344).to_string(), "ABCD");
    assert_eq!(FourCC::from_u32(0x4142_4344).to_debug_string(), "'ABCD'");
}
