use ffmpeg_ext::decimal::{render_i8, render_u8};

#[test]
fn unsigned_bytes_render_as_std_does() {
    for n in u8::MIN..=u8::MAX {
        assert_eq!(render_u8(n), n.to_string());
    }
}

#[test]
fn signed_bytes_render_as_std_does() {
    for n in i8::MIN..=i8::MAX {
        assert_eq!(render_i8(n), n.to_string());
    }
}

#[test]
fn numerals_have_no_padding() {
    assert_eq!(render_u8(0), "0");
    assert_eq!(render_u8(7), "7");
    assert_eq!(render_u8(10), "10");
    assert_eq!(render_u8(42), "42");
    assert_eq!(render_u8(100), "100");
    assert_eq!(render_u8(109), "109");
    assert_eq!(render_u8(255), "255");
}

#[test]
fn negative_numerals_carry_a_minus_sign() {
    assert_eq!(render_i8(0), "0");
    assert_eq!(render_i8(-1), "-1");
    assert_eq!(render_i8(-10), "-10");
    assert_eq!(render_i8(-128), "-128");
    assert_eq!(render_i8(127), "127");
}
