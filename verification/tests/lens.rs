use chamber_agent::lens::{validate, LensDefinition};

fn lens(id: &str, html: &str) -> LensDefinition {
    LensDefinition {
        id: id.to_owned(),
        name: "Release Board".to_owned(),
        icon: "layout".to_owned(),
        html: html.to_owned(),
    }
}

#[test]
fn accepts_a_complete_document() {
    let valid = lens(
        "release-board",
        "<!doctype html><html><body>Ready</body></html>",
    );
    assert_eq!(validate(&valid), Ok(()));
}

#[test]
fn rejects_a_bad_id() {
    let invalid = lens("Release Board", "<html></html>");
    assert!(validate(&invalid).is_err());
}

#[test]
fn rejects_a_fragment() {
    let invalid = lens("release-board", "<div>Ready</div>");
    assert!(validate(&invalid).is_err());
}

#[test]
fn bad_id_message() {
    let expected = Err("Lens id must use 1-64 lowercase letters, numbers, or hyphens".to_owned());
    assert_eq!(validate(&lens("", "<html></html>")), expected);
    assert_eq!(validate(&lens("-board", "<html></html>")), expected);
    assert_eq!(validate(&lens("board-", "<html></html>")), expected);
    assert_eq!(validate(&lens("bo_ard", "<html></html>")), expected);
    assert_eq!(validate(&lens("bōard", "<html></html>")), expected);
    assert_eq!(validate(&lens(&"a".repeat(65), "<html></html>")), expected);
    assert_eq!(validate(&lens(&"a".repeat(64), "<html></html>")), Ok(()));
    assert_eq!(validate(&lens("a", "<html></html>")), Ok(()));
}

#[test]
fn name_and_icon_limits() {
    let mut l = lens("board", "<html></html>");
    l.name = " \t\u{3000} ".to_owned();
    assert_eq!(validate(&l), Err("Lens name must use 1-80 characters".to_owned()));
    l.name = "é".repeat(41); // 82 bytes, 41 characters
    assert_eq!(validate(&l), Err("Lens name must use 1-80 characters".to_owned()));
    l.name = "é".repeat(40); // 80 bytes
    assert_eq!(validate(&l), Ok(()));
    l.icon = "".to_owned();
    assert_eq!(validate(&l), Err("Lens icon must use 1-32 characters".to_owned()));
    l.icon = "x".repeat(33);
    assert_eq!(validate(&l), Err("Lens icon must use 1-32 characters".to_owned()));
    l.icon = " x ".to_owned();
    assert_eq!(validate(&l), Ok(()));
}

#[test]
fn html_rules() {
    let mut l = lens("board", "");
    assert_eq!(
        validate(&l),
        Err("Lens HTML must be a complete HTML document".to_owned())
    );
    l.html = "<HTML LANG=en><BODY></BODY></HtMl>".to_owned();
    assert_eq!(validate(&l), Ok(()));
    l.html = "<html>".to_owned();
    assert_eq!(
        validate(&l),
        Err("Lens HTML must be a complete HTML document".to_owned())
    );
    let mut big = "<html></html>".to_owned();
    big.push_str(&" ".repeat(512 * 1024 - big.len()));
    l.html = big.clone();
    assert_eq!(validate(&l), Ok(()));
    big.push(' ');
    l.html = big;
    assert_eq!(validate(&l), Err("Lens HTML exceeds the 512 KiB limit".to_owned()));
}

#[test]
fn first_broken_rule_wins() {
    let mut l = lens("Bad", "<div>");
    l.name = "".to_owned();
    assert_eq!(
        validate(&l),
        Err("Lens id must use 1-64 lowercase letters, numbers, or hyphens".to_owned())
    );
}
