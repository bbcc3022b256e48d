use ellipsis::utils::sanitize;

#[test]
fn words_stay_bare() {
    for s in ["a", "abc_DEF_123", "_x", "é", "Straße"] {
        assert_eq!(sanitize(s), s);
    }
}

#[test]
fn empty_stays_empty() {
    assert_eq!(sanitize(""), "");
}

#[test]
fn numbers_stay_bare() {
    for s in ["1", "2.0", "1.", "0.5", "1e5", "1E-5", "3.25e+2"] {
        assert_eq!(sanitize(s), s);
    }
}

#[test]
fn other_texts_are_quoted() {
    assert_eq!(sanitize("a b"), "\"a b\"");
    assert_eq!(sanitize("1abc"), "\"1abc\"");
    assert_eq!(sanitize("1.2.3"), "\"1.2.3\"");
    assert_eq!(sanitize("-1"), "\"-1\"");
    assert_eq!(sanitize(".5"), "\".5\"");
    assert_eq!(sanitize("#ff0000ff"), "\"#ff0000ff\"");
}

#[test]
fn embedded_quotes_are_not_escaped() {
    assert_eq!(sanitize("say \"hi\""), "\"say \"hi\"\"");
}

#[test]
fn numeric_start_that_is_no_number_is_quoted() {
    // '½' is numeric but does not start a number.
    assert_eq!(sanitize("½"), "\"½\"");
}
