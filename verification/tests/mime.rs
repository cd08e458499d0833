use static_files::mime::{content_type_for, extension, known_or_any, ContentType};

fn pair(ct: &ContentType) -> (&str, &str) {
    (ct.ttype.as_str(), ct.subtype.as_str())
}

#[test]
fn extension_is_what_follows_the_last_dot() {
    assert_eq!(extension("css/all.css"), Some(String::from("css")));
    assert_eq!(extension("favicon.ico"), Some(String::from("ico")));
    assert_eq!(extension("archive.tar.gz"), Some(String::from("gz")));
    assert_eq!(extension("img/github@2x.png"), Some(String::from("png")));
}

#[test]
fn extension_is_taken_from_the_final_segment_only() {
    assert_eq!(extension("dir.d/file"), None);
    assert_eq!(extension("dir.d/file.txt"), Some(String::from("txt")));
    assert_eq!(extension("a.b/"), None);
}

#[test]
fn extension_is_absent_without_a_dot_or_with_a_leading_dot_only() {
    assert_eq!(extension(""), None);
    assert_eq!(extension("Makefile"), None);
    assert_eq!(extension(".hidden"), None);
    assert_eq!(extension("dir/.hidden"), None);
    assert_eq!(extension(".."), None);
    assert_eq!(extension("dir/.."), None);
}

#[test]
fn extension_may_be_empty_or_follow_a_hidden_name() {
    assert_eq!(extension("name."), Some(String::new()));
    assert_eq!(extension(".hidden.txt"), Some(String::from("txt")));
    assert_eq!(extension("..."), Some(String::new()));
}

#[test]
fn extension_keeps_characters_outside_ascii() {
    assert_eq!(extension("späti/naïve.Ünï"), Some(String::from("Ünï")));
}

#[test]
fn content_type_follows_the_extension_table() {
    assert_eq!(pair(&content_type_for("img/x.png")), ("image", "png"));
    assert_eq!(pair(&content_type_for("css/all.css")), ("text", "css"));
    assert_eq!(pair(&content_type_for("favicon.ico")), ("image", "x-icon"));
    assert_eq!(pair(&content_type_for("fonts/fontawesome-webfont.woff2")), ("font", "woff2"));
    assert_eq!(pair(&content_type_for("fonts/fontawesome-webfont.ttf")), ("application", "font-sfnt"));
    assert_eq!(pair(&content_type_for("index.html")), ("text", "html"));
}

#[test]
fn content_type_ignores_the_case_of_the_extension() {
    assert_eq!(pair(&content_type_for("IMG/X.PNG")), ("image", "png"));
}

#[test]
fn content_type_is_unknown_without_a_known_extension() {
    assert_eq!(pair(&content_type_for("data.unheard-of")), ("*", "*"));
    assert_eq!(pair(&content_type_for("Makefile")), ("*", "*"));
    assert_eq!(pair(&content_type_for("name.")), ("*", "*"));
    assert_eq!(pair(&content_type_for(".png")), ("*", "*"));
}

#[test]
fn content_type_constants() {
    assert_eq!(pair(&ContentType::css()), ("text", "css"));
    assert_eq!(pair(&ContentType::any()), ("*", "*"));
    assert_eq!(pair(&ContentType::new("application", "x-person")), ("application", "x-person"));
    assert_eq!(pair(&ContentType::css().clone()), ("text", "css"));
}

#[test]
fn unknown_type_stands_in_where_none_was_found() {
    assert_eq!(pair(&known_or_any(None)), ("*", "*"));
    assert_eq!(pair(&known_or_any(Some(ContentType::new("image", "png")))), ("image", "png"));
}
