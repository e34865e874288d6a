use explorer::get_icon_from_extension;
use explorer::icon::str_eq;

#[test]
fn known_extensions_get_their_icon() {
    assert_eq!(get_icon_from_extension(Some("rs")), "🦀");
    assert_eq!(get_icon_from_extension(Some("py")), "🐍");
    assert_eq!(get_icon_from_extension(Some("toml")), "🔧");
    assert_eq!(get_icon_from_extension(Some("lock")), "🔒");
    assert_eq!(get_icon_from_extension(Some("zip")), "📦");
    assert_eq!(get_icon_from_extension(Some("mp3")), "🔊");
    assert_eq!(get_icon_from_extension(Some("mkv")), "🎬");
}

#[test]
fn grouped_extensions_share_an_icon() {
    assert_eq!(get_icon_from_extension(Some("cpp")), "🇨++");
    assert_eq!(get_icon_from_extension(Some("cc")), "🇨++");
    assert_eq!(get_icon_from_extension(Some("cxx")), "🇨++");
    assert_eq!(get_icon_from_extension(Some("yaml")), "📄");
    assert_eq!(get_icon_from_extension(Some("yml")), "📄");
}

#[test]
fn unknown_or_missing_extension_gets_the_default_icon() {
    assert_eq!(get_icon_from_extension(Some("xyz")), "📄");
    assert_eq!(get_icon_from_extension(Some("")), "📄");
    assert_eq!(get_icon_from_extension(None), "📄");
}

#[test]
fn icons_are_case_sensitive_to_the_lowered_form() {
    assert_eq!(get_icon_from_extension(Some("RS")), "📄");
}

#[test]
fn str_eq_compares_by_characters() {
    assert!(str_eq("rs", "rs"));
    assert!(!str_eq("rs", "r"));
    assert!(!str_eq("rs", "rz"));
    assert!(str_eq("", ""));
    assert!(!str_eq("", "a"));
}
