use sql_fragments::{escape_ident, escape_ident_as_value};

#[test]
fn ident_without_quotes_is_unchanged() {
    assert_eq!(escape_ident("tenant_id"), "tenant_id");
    assert_eq!(escape_ident(""), "");
}

#[test]
fn ident_doubles_each_double_quote() {
    assert_eq!(escape_ident("say\"hi"), "say\"\"hi");
    assert_eq!(escape_ident("\""), "\"\"");
    assert_eq!(escape_ident("\"\""), "\"\"\"\"");
    assert_eq!(escape_ident("a\"b\"c"), "a\"\"b\"\"c");
}

#[test]
fn ident_leaves_single_quotes_alone() {
    assert_eq!(escape_ident("it's"), "it's");
}

#[test]
fn value_doubles_each_single_quote() {
    assert_eq!(escape_ident_as_value("it's"), "it''s");
    assert_eq!(escape_ident_as_value("'"), "''");
    assert_eq!(escape_ident_as_value("'a''"), "''a''''");
}

#[test]
fn value_leaves_double_quotes_alone() {
    assert_eq!(escape_ident_as_value("say\"hi"), "say\"hi");
}

#[test]
fn escaping_twice_escapes_again() {
    let once = escape_ident("a\"b");
    let twice = escape_ident(&once);
    assert_eq!(once, "a\"\"b");
    assert_eq!(twice, "a\"\"\"\"b");
    assert_ne!(once, twice);
    assert_eq!(escape_ident(&escape_ident("plain")), escape_ident("plain"));
}

#[test]
fn quotes_double_and_the_rest_stays() {
    let text = "\"x\"y'z\"";
    let escaped = escape_ident(text);
    assert_eq!(escaped, "\"\"x\"\"y'z\"\"");
    assert_eq!(escaped.matches('"').count(), 2 * text.matches('"').count());
    assert_eq!(escaped.replace('"', ""), text.replace('"', ""));
    assert_eq!(escaped.chars().count(), text.chars().count() + 3);
}

#[test]
fn non_ascii_text_passes_through() {
    assert_eq!(escape_ident("naïve\"é"), "naïve\"\"é");
    assert_eq!(escape_ident_as_value("l'été"), "l''été");
}
