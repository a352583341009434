use doodleswap::text::{append_i32_decimal, extension_of, parse_usize};

fn decimal(n: i32) -> String {
    let mut s = String::from("id=");
    append_i32_decimal(&mut s, n);
    s
}

#[test]
fn decimals_of_i32() {
    assert_eq!(decimal(0), "id=0");
    assert_eq!(decimal(7), "id=7");
    assert_eq!(decimal(1234567890), "id=1234567890");
    assert_eq!(decimal(-42), "id=-42");
    assert_eq!(decimal(i32::MIN), "id=-2147483648");
    assert_eq!(decimal(i32::MAX), "id=2147483647");
}

#[test]
fn parse_usize_agrees_with_std() {
    for text in ["0", "12", "+12", "007", "", "+", "-1", "1 ", " 1", "12a", "５", "99999999999999999999999"] {
        assert_eq!(parse_usize(text), text.parse::<usize>().ok(), "text {:?}", text);
    }
    assert_eq!(parse_usize(&usize::MAX.to_string()), Some(usize::MAX));
}

#[test]
fn extension_is_what_follows_the_last_dot() {
    assert_eq!(extension_of("cat.png"), "png");
    assert_eq!(extension_of("a.b.jpg"), "jpg");
    assert_eq!(extension_of("noext"), "noext");
    assert_eq!(extension_of("trailing."), "");
    assert_eq!(extension_of(""), "");
}

