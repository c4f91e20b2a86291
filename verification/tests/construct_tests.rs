use fourcc::{FourCC, FourCCError, TypeId};

#[test]
fn from_bytes_keeps_order() {
    let code = FourCC::from_bytes(&[0x52, 0x47, 0x42, 0x41]);
    assert_eq!(code.0, [0x52, 0x47, 0x42, 0x41]);
    assert_eq!(code.to_bytes(), [0x52, 0x47, 0x42, 0x41]);
}

#[test]
fn bytes_round_trip() {
    let samples: [TypeId; 5] =
        [[0, 0, 0, 0], [255, 255, 255, 255], [0, 1, 2, 3], [0x80, 0x7f, 0x20, 0x21], *b"moov"];
    for b in samples.iter() {
        assert_eq!(FourCC::from_bytes(b).to_bytes(), *b);
        assert_eq!(<TypeId>::from(FourCC::from(b)), *b);
    }
}

#[test]
fn u32_round_trip() {
    let samples: [u32; 8] =
        [0, 1, 255, 256, 0x0102_0304, 0x8000_0000, 1380401729, u32::MAX];
    for n in samples.iter() {
        assert_eq!(FourCC::from_u32(*n).to_u32(), *n);
        assert_eq!(u32::from(FourCC::from(*n)), *n);
    }
}

#[test]
fn code_round_trip_through_u32() {
    let samples: [TypeId; 4] = [[0, 0, 0, 1], [1, 0, 0, 0], [0xde, 0xad, 0xbe, 0xef], *b"RIFF"];
    for b in samples.iter() {
        let code = FourCC::from_bytes(b);
        assert_eq!(FourCC::from_u32(code.to_u32()), code);
    }
}

#[test]
fn from_u32_is_big_endian() {
    assert_eq!(FourCC::from_u32(0x0102_0304).0, [1, 2, 3, 4]);
    assert_eq!(FourCC::from_u32(1).0, [0, 0, 0, 1]);
    assert_eq!(FourCC::from_u32(0xff00_0000).0, [0xff, 0, 0, 0]);
    assert_eq!(FourCC::from_u32(1095911234).0, *b"ARGB");
}

#[test]
fn to_u32_is_big_endian() {
    assert_eq!(FourCC([1, 2, 3, 4]).to_u32(), 0x0102_0304);
    assert_eq!(FourCC([0, 0, 1, 0]).to_u32(), 256);
    assert_eq!(FourCC([0xff, 0xff, 0xff, 0xff]).to_u32(), u32::MAX);
    assert_eq!(FourCC(*b"RGBA").to_u32(), 1380401729);
}

#[test]
fn matches_std_byte_order() {
    let samples: [u32; 5] = [0, 0x1234_5678, 0xfedc_ba98, 1380401729, 0x0000_ff00];
    for n in samples.iter() {
        assert_eq!(FourCC::from_u32(*n).0, n.to_be_bytes());
        assert_eq!(FourCC(n.to_be_bytes()).to_u32(), *n);
    }
}

#[test]
fn three_routes_one_code() {
    let by_text = FourCC::from_string("RGBA").unwrap();
    let by_number = FourCC::from_u32(1380401729);
    let by_bytes = FourCC::from_bytes(&[0x52, 0x47, 0x42, 0x41]);
    assert_eq!(by_text, by_number);
    assert_eq!(by_text, by_bytes);
    assert_eq!(by_number, by_bytes);
}

#[test]
fn from_string_short_is_refused() {
    assert_eq!(FourCC::from_string(""), Err(FourCCError::ShortInput));
    assert_eq!(FourCC::from_string("R"), Err(FourCCError::ShortInput));
    assert_eq!(FourCC::from_string("RGB"), Err(FourCCError::ShortInput));
}

#[test]
fn from_string_ignores_the_rest() {
    assert_eq!(FourCC::from_string("RGBA colour format"), Ok(FourCC(*b"RGBA")));
    assert_eq!(FourCC::from_string("RGBA\0"), Ok(FourCC(*b"RGBA")));
}

#[test]
fn from_string_goes_by_encoded_bytes() {
    // Two characters, four bytes.
    assert_eq!(FourCC::from_string("\u{e9}\u{e9}"), Ok(FourCC([0xc3, 0xa9, 0xc3, 0xa9])));
    // Two characters, six bytes: the second is cut in the middle.
    assert_eq!(FourCC::from_string("\u{65e5}\u{672c}"), Ok(FourCC([0xe6, 0x97, 0xa5, 0xe6])));
    // Three characters, but only three bytes.
    assert_eq!(FourCC::from_string("abc"), Err(FourCCError::ShortInput));
    // One character, three bytes.
    assert_eq!(FourCC::from_string("\u{65e5}"), Err(FourCCError::ShortInput));
}

#[test]
fn default_is_all_zero() {
    assert_eq!(FourCC::default().0, [0, 0, 0, 0]);
    assert_eq!(FourCC::default().to_u32(), 0);
}

#[test]
fn copies_are_equal() {
    let a = FourCC(*b"WAVE");
    let b = a;
    let c = a.clone();
    assert_eq!(a, b);
    assert_eq!(a, c);
}

#[test]
fn validity_bounds() {
    assert!(FourCC([0x21, 0x7e, 0x21, 0x7e]).is_valid());
    assert!(!FourCC([0x20, 0x41, 0x41, 0x41]).is_valid());
    assert!(!FourCC([0x41, 0x7f, 0x41, 0x41]).is_valid());
    assert!(!FourCC([0x41, 0x41, 0x80, 0x41]).is_valid());
    assert!(!FourCC([0x41, 0x41, 0x41, 0x00]).is_valid());
    assert!(!FourCC([0x41, 0x41, 0x41, 0xff]).is_valid());
    assert!(!FourCC([0, 1, 2, 3]).is_valid());
    assert!(!FourCC(*b"ab d").is_valid());
    assert!(!FourCC(*b"abc\n").is_valid());
    assert!(FourCC(*b"avc1").is_valid());
}

#[test]
fn validity_agrees_with_std() {
    for b in 0..=255u8 {
        assert_eq!(FourCC([b, b'A', b'A', b'A']).is_valid(), b.is_ascii_graphic());
        assert_eq!(FourCC([b'A', b'A', b'A', b]).is_valid(), b.is_ascii_graphic());
    }
}

#[test]
fn try_from_str() {
    assert_eq!(FourCC::try_from("RGBA"), Ok(FourCC(*b"RGBA")));
    assert_eq!(FourCC::try_from("RGBA8888"), Ok(FourCC(*b"RGBA")));
    assert_eq!(FourCC::try_from("RGB"), Err(FourCCError::ShortInput));
    assert_eq!(FourCC::try_from(""), Err(FourCCError::ShortInput));
}
