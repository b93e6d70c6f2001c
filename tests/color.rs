use sealupd::color::{Colorable, ColoredString};

#[test]
fn plain_text_when_colours_are_off() {
    assert_eq!("hi".error().render(false), "hi");
    assert_eq!(ColoredString::new("hi", &[]).render(true), "hi");
}

#[test]
fn codes_wrap_the_text() {
    assert_eq!("hi".error().render(true), "\x1b[31;1mhi\x1b[0m");
    assert_eq!("hi".warn().render(true), "\x1b[33mhi\x1b[0m");
    assert_eq!("hi".success().render(true), "\x1b[32;1mhi\x1b[0m");
}

#[test]
fn colours_accumulate() {
    assert_eq!("x".warn().success().render(true), "\x1b[33;32;1mx\x1b[0m");
    assert_eq!(ColoredString::new("x", &[4]).error().render(true), "\x1b[4;31;1mx\x1b[0m");
}

#[test]
fn codes_render_in_decimal() {
    assert_eq!(ColoredString::new("n", &[0, 107, -5]).render(true), "\x1b[0;107;-5mn\x1b[0m");
    assert_eq!(
        ColoredString::new("n", &[i32::MIN]).render(true),
        "\x1b[-2147483648mn\x1b[0m"
    );
}
