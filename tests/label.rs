use ellipsis::Label;

#[test]
fn label() {
    // Regular without quotes
    assert_eq!(Label::Text("a".into()).as_string(), "a");

    // Regular with quotes
    assert_eq!(Label::Text("a b".into()).as_string(), "\"a b\"");

    // HTML-like
    assert_eq!(
        Label::HtmlLike("<<bold>a</bold>>".into()).as_string(),
        "<<bold>a</bold>>"
    );
}
