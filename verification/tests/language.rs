use translate_dock::language::Language;

#[test]
fn full_names_are_the_service_names() {
    assert_eq!(Language::Auto.full_name(), "auto");
    assert_eq!(Language::English.full_name(), "English");
    assert_eq!(Language::Chinese.full_name(), "Chinese");
    assert_eq!(Language::Japanese.full_name(), "Japanese");
}

#[test]
fn display_labels() {
    assert_eq!(Language::Auto.display(), "自动");
    assert_eq!(Language::English.display(), "英语");
    assert_eq!(Language::Chinese.display(), "中文");
    assert_eq!(Language::Japanese.display(), "日语");
}
