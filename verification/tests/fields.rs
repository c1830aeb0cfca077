use package_installer::fields::{split_first, split_next, SEPARATOR};

#[test]
fn separator_is_a_semicolon() {
    assert_eq!(SEPARATOR, ';');
}

#[test]
fn split_first_cuts_at_the_first_separator() {
    assert_eq!(split_first("a;b;c"), ("a", Some("b;c")));
    assert_eq!(split_first("foo;1.0;amd64;extra"), ("foo", Some("1.0;amd64;extra")));
}

#[test]
fn split_first_of_a_plain_text_is_the_text() {
    assert_eq!(split_first("pkgname"), ("pkgname", None));
}

#[test]
fn split_first_of_the_empty_text() {
    assert_eq!(split_first(""), ("", None));
}

#[test]
fn split_first_keeps_empty_fields() {
    assert_eq!(split_first(";x"), ("", Some("x")));
    assert_eq!(split_first("x;"), ("x", Some("")));
    assert_eq!(split_first(";"), ("", Some("")));
    assert_eq!(split_first(";;"), ("", Some(";")));
}

#[test]
fn split_first_counts_characters_not_bytes() {
    assert_eq!(split_first("päckchen;1.0~β;amd64"), ("päckchen", Some("1.0~β;amd64")));
    assert_eq!(split_first("日本語;x"), ("日本語", Some("x")));
    assert_eq!(split_first("日本語"), ("日本語", None));
}

#[test]
fn split_next_goes_on_where_something_remains() {
    assert_eq!(split_next(Some("1.0;amd64")), ("1.0", Some("amd64")));
    assert_eq!(split_next(Some("amd64")), ("amd64", None));
    assert_eq!(split_next(Some("")), ("", None));
}

#[test]
fn split_next_of_nothing_is_empty() {
    assert_eq!(split_next(None), ("", None));
}

#[test]
fn three_splits_read_the_first_three_fields() {
    let (first, more) = split_first("foo;1.0;amd64;extra;more");
    let (second, more) = split_next(more);
    let (third, more) = split_next(more);
    assert_eq!((first, second, third), ("foo", "1.0", "amd64"));
    assert_eq!(more, Some("extra;more"));
}
