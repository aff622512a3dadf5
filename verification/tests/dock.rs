use translate_dock::dock::{AppEvent, TranslateApp, TrayEvent, WindowCommand};
use translate_dock::language::Language;
use translate_dock::text::{char_is_whitespace, take_char_at, trims_to_empty};

fn app() -> TranslateApp {
    TranslateApp::new("sk-9".to_string(), "quit".to_string())
}

fn left_release() -> AppEvent {
    AppEvent::Tray(TrayEvent::Click { left_button: true, released: true })
}

#[test]
fn starts_chinese_to_english_visible_and_pinned() {
    let a = app();
    assert_eq!(a.input_text, "");
    assert_eq!(a.output_text, "");
    assert_eq!(a.source_lang, Language::Chinese);
    assert_eq!(a.target_lang, Language::English);
    assert!(!a.is_translating);
    assert_eq!(a.api_key, "sk-9");
    assert!(!a.show_settings);
    assert!(!a.api_key_visible);
    assert!(a.show_window);
    assert!(a.is_pinned);
    assert!(a.can_translate());
}

#[test]
fn blank_input_does_not_translate() {
    let mut a = app();
    a.input_text = " \t\n\u{3000}".to_string();
    assert!(a.trigger_translation().is_none());
    assert!(!a.is_translating);
    assert_eq!(a.output_text, "");
}

#[test]
fn trigger_starts_a_job() {
    let mut a = app();
    a.input_text = " 你好 ".to_string();
    let job = a.trigger_translation().unwrap();
    assert_eq!(job.text, " 你好 ");
    assert_eq!(job.source, Language::Chinese);
    assert_eq!(job.target, Language::English);
    assert_eq!(job.api_key, "sk-9");
    assert!(a.is_translating);
    assert_eq!(a.output_text, "翻译中...");
    assert!(!a.can_translate());
}

#[test]
fn finished_translation_is_shown() {
    let mut a = app();
    a.input_text = "hi".to_string();
    a.trigger_translation();
    a.receive_translation(Ok("你好".to_string()));
    assert!(!a.is_translating);
    assert_eq!(a.output_text, "你好");
    a.receive_translation(Err("网络错误: x".to_string()));
    assert_eq!(a.output_text, "错误: 网络错误: x");
}

#[test]
fn enter_without_shift_translates_without_line_break() {
    let mut a = app();
    a.input_text = "hello\n".to_string();
    let job = a.on_input_edited(false, Some(5)).unwrap();
    assert_eq!(job.text, "hello");
    assert_eq!(a.input_text, "hello");
    assert!(a.is_translating);
    assert_eq!(a.output_text, "翻译中...");
}

#[test]
fn enter_in_the_middle_translates_without_line_break() {
    let mut a = app();
    a.input_text = "a\nb".to_string();
    let job = a.on_input_edited(false, Some(1)).unwrap();
    assert_eq!(job.text, "ab");
    assert_eq!(a.input_text, "ab");
    assert!(a.is_translating);
}

#[test]
fn enter_counts_characters_not_bytes() {
    let mut a = app();
    a.input_text = "你\n好".to_string();
    let job = a.on_input_edited(false, Some(1)).unwrap();
    assert_eq!(job.text, "你好");
}

#[test]
fn shift_enter_keeps_line_break() {
    let mut a = app();
    a.input_text = "hello\n".to_string();
    assert!(a.on_input_edited(true, Some(5)).is_none());
    assert_eq!(a.input_text, "hello\n");
    assert!(!a.is_translating);
}

#[test]
fn edit_without_enter_does_nothing() {
    let mut a = app();
    a.input_text = "hello\n".to_string();
    assert!(a.on_input_edited(false, None).is_none());
    assert_eq!(a.input_text, "hello\n");
    assert!(!a.is_translating);
}

#[test]
fn enter_position_without_line_break_does_nothing() {
    let mut a = app();
    a.input_text = "hello".to_string();
    assert!(a.on_input_edited(false, Some(1)).is_none());
    assert!(a.on_input_edited(false, Some(9)).is_none());
    assert_eq!(a.input_text, "hello");
    assert!(!a.is_translating);
}

#[test]
fn enter_on_blank_line_only_removes_line_break() {
    let mut a = app();
    a.input_text = "  \n".to_string();
    assert!(a.on_input_edited(false, Some(2)).is_none());
    assert_eq!(a.input_text, "  ");
    assert!(!a.is_translating);
}

#[test]
fn tray_click_toggles_window() {
    let mut a = app();
    let events = vec![left_release()];
    assert_eq!(a.begin_frame(false, false, &events, None), vec![WindowCommand::Minimize]);
    assert!(!a.show_window);
    assert_eq!(
        a.begin_frame(false, false, &events, None),
        vec![WindowCommand::MoveToFixedPosition, WindowCommand::Restore, WindowCommand::Focus]
    );
    assert!(a.show_window);
}

#[test]
fn other_tray_events_change_nothing() {
    let mut a = app();
    let events = vec![
        AppEvent::Tray(TrayEvent::Click { left_button: true, released: false }),
        AppEvent::Tray(TrayEvent::Click { left_button: false, released: true }),
        AppEvent::Tray(TrayEvent::Other),
        AppEvent::Menu("other".to_string()),
    ];
    assert!(a.begin_frame(false, false, &events, None).is_empty());
    assert!(a.show_window);
}

#[test]
fn quit_item_closes() {
    let mut a = app();
    let events = vec![AppEvent::Menu("quit".to_string())];
    assert_eq!(a.handle_events(&events), vec![WindowCommand::Close]);
}

#[test]
fn losing_focus_hides_only_unpinned_window() {
    let mut a = app();
    assert!(a.begin_frame(false, true, &Vec::new(), None).is_empty());
    assert!(a.show_window);
    assert_eq!(a.toggle_pin(), WindowCommand::NormalLevel);
    assert_eq!(a.begin_frame(false, true, &Vec::new(), None), vec![WindowCommand::Minimize]);
    assert!(!a.show_window);
    assert!(a.begin_frame(true, false, &Vec::new(), None).is_empty());
    assert!(a.show_window);
    assert_eq!(a.toggle_pin(), WindowCommand::AlwaysOnTop);
}

#[test]
fn frame_orders_focus_events_then_result() {
    let mut a = app();
    a.toggle_pin();
    a.is_translating = true;
    let events = vec![left_release(), AppEvent::Menu("quit".to_string())];
    let cmds = a.begin_frame(false, true, &events, Some(Ok("done".to_string())));
    assert_eq!(
        cmds,
        vec![
            WindowCommand::Minimize,
            WindowCommand::MoveToFixedPosition,
            WindowCommand::Restore,
            WindowCommand::Focus,
            WindowCommand::Close
        ]
    );
    assert!(a.show_window);
    assert!(!a.is_translating);
    assert_eq!(a.output_text, "done");
}

#[test]
fn swap_exchanges_languages_and_texts() {
    let mut a = app();
    a.input_text = "你好".to_string();
    a.output_text = "Hello".to_string();
    a.swap_languages();
    assert_eq!(a.source_lang, Language::English);
    assert_eq!(a.target_lang, Language::Chinese);
    assert_eq!(a.input_text, "Hello");
    assert_eq!(a.output_text, "你好");
    a.swap_languages();
    assert_eq!(a.source_lang, Language::Chinese);
    assert_eq!(a.input_text, "你好");
}

#[test]
fn labels_and_icons() {
    let mut a = app();
    assert_eq!(a.language_label(), "中文 \u{2194} 英语");
    assert_eq!(a.pin_icon(), "📌");
    assert_eq!(a.pin_tooltip(), "取消固定（失去焦点自动隐藏）");
    assert_eq!(a.eye_icon(), "");
    a.toggle_pin();
    a.toggle_key_visibility();
    assert_eq!(a.pin_icon(), "📍");
    assert_eq!(a.pin_tooltip(), "固定（始终在前台）");
    assert_eq!(a.eye_icon(), "👁");
}

#[test]
fn settings_and_clear() {
    let mut a = app();
    a.toggle_settings();
    assert!(a.show_settings);
    a.toggle_settings();
    assert!(!a.show_settings);
    a.input_text = "abc".to_string();
    a.clear_input();
    assert_eq!(a.input_text, "");
}

#[test]
fn trimming_checks() {
    assert!(trims_to_empty(""));
    assert!(trims_to_empty(" \t\r\n\u{a0}\u{2003}\u{3000}"));
    assert!(!trims_to_empty(" a "));
    assert!(!trims_to_empty("\u{200b}"));
}

#[test]
fn white_space_characters() {
    for c in ['\t', '\n', '\u{b}', '\u{c}', '\r', ' ', '\u{85}', '\u{a0}', '\u{1680}', '\u{2000}', '\u{200a}', '\u{2028}', '\u{2029}', '\u{202f}', '\u{205f}', '\u{3000}'] {
        assert!(char_is_whitespace(c));
        assert_eq!(char_is_whitespace(c), c.is_whitespace());
    }
    for c in ['a', '\u{8}', '\u{e}', '\u{200b}', '\u{180e}', '\u{feff}', '中'] {
        assert!(!char_is_whitespace(c));
        assert_eq!(char_is_whitespace(c), c.is_whitespace());
    }
}

#[test]
fn taking_characters_out() {
    assert_eq!(take_char_at("a\nb", 1), ("ab".to_string(), Some('\n')));
    assert_eq!(take_char_at("你好", 0), ("好".to_string(), Some('你')));
    assert_eq!(take_char_at("ab", 2), ("ab".to_string(), None));
    assert_eq!(take_char_at("", 0), (String::new(), None));
}
