use muldex::keymap::{
    alt, configured_keymap, ctrl, parse_key_code, parse_modifiers, plain, shift, AppKeymapOverride,
    CliConfig,
    EditorKeymapOverride, KeyBinding, KeyBindingDef, KeyCodeView, KeyInput, KeyMods,
    KeymapConfig, RuntimeKeymap,
};
use muldex::keys::{AppAction, ComposerAction, EditorAction, KeyPress, PagerAction};
use muldex::vim::VimKey;

fn no_mods() -> KeyMods {
    KeyMods { shift: false, control: false, alt: false, super_key: false, hyper: false, meta: false }
}

fn control() -> KeyMods {
    KeyMods { control: true, ..no_mods() }
}

fn event(code: KeyCodeView, modifiers: KeyMods) -> KeyInput {
    KeyInput { code, modifiers, pressed: true }
}

fn def(key: &str, ctrl: Option<bool>) -> KeyBindingDef {
    KeyBindingDef { key: key.to_string(), ctrl, alt: None, shift: None }
}

#[test]
fn default_keymap_has_submit_bindings() {
    let km = RuntimeKeymap::defaults();
    assert!(!km.composer.submit.is_empty());
}

#[test]
fn default_keymap_has_movement_bindings() {
    let km = RuntimeKeymap::defaults();
    assert!(!km.editor.move_left.is_empty());
    assert!(!km.editor.move_right.is_empty());
}

#[test]
fn validation_passes_for_defaults() {
    let km = RuntimeKeymap::defaults();
    assert!(km.validate().is_ok());
}

#[test]
fn app_action_matches_clear_terminal() {
    let km = RuntimeKeymap::defaults();
    let event = event(KeyCodeView::Char('l'), control());
    assert_eq!(km.match_app_action(&event), Some("clear_terminal"));
}

#[test]
fn composer_action_matches_submit() {
    let km = RuntimeKeymap::defaults();
    let event = event(KeyCodeView::Enter, no_mods());
    assert_eq!(km.match_composer_action(&event), Some("submit"));
}

#[test]
fn editor_action_matches_move_left() {
    let km = RuntimeKeymap::defaults();
    let event = event(KeyCodeView::Left, no_mods());
    assert_eq!(km.match_editor_action(&event), Some("move_left"));
}

#[test]
fn bindings_need_exactly_their_modifiers() {
    let km = RuntimeKeymap::defaults();
    assert_eq!(km.match_app_action(&event(KeyCodeView::Char('l'), no_mods())), None);
    let ctrl_shift = KeyMods { shift: true, ..control() };
    assert_eq!(km.match_app_action(&event(KeyCodeView::Char('l'), ctrl_shift)), None);
    assert_eq!(km.match_chat_action(&event(KeyCodeView::Char('c'), control())), Some("interrupt_turn"));
    assert_eq!(km.match_pager_action(&event(KeyCodeView::Char('G'), no_mods())), Some("jump_bottom"));
    assert_eq!(km.match_approval_action(&event(KeyCodeView::Esc, no_mods())), Some("deny"));
    assert_eq!(
        km.match_editor_action(&event(KeyCodeView::Char('w'), control())),
        Some("delete_backward_word")
    );
}

#[test]
fn key_event_view_resolves_every_section() {
    let km = RuntimeKeymap::defaults();
    let v = km.key_event_view(&event(KeyCodeView::Up, no_mods()));
    assert_eq!(v.pager, Some(PagerAction::ScrollUp));
    assert_eq!(v.editor, Some(EditorAction::MoveUp));
    assert_eq!(v.app, None);
    assert_eq!(v.key, KeyPress::Other);
    assert_eq!(v.vim, VimKey::Other);

    let v = km.key_event_view(&event(KeyCodeView::Char('t'), control()));
    assert_eq!(v.app, Some(AppAction::OpenTranscript));
    assert_eq!(v.key, KeyPress::Other);
    assert_eq!(v.vim, VimKey::Char('t'));

    let v = km.key_event_view(&event(KeyCodeView::Char('d'), control()));
    assert_eq!(v.key, KeyPress::ControlCOrD);

    let v = km.key_event_view(&event(KeyCodeView::Char('?'), no_mods()));
    assert_eq!(v.composer, Some(ComposerAction::Other));
    assert_eq!(v.key, KeyPress::Char('?'));

    let released = KeyInput { pressed: false, ..event(KeyCodeView::Enter, no_mods()) };
    let v = km.key_event_view(&released);
    assert!(!v.pressed);
    assert_eq!(v.composer, Some(ComposerAction::Submit));
}

#[test]
fn validation_names_the_first_duplicate() {
    let mut km = RuntimeKeymap::defaults();
    km.app.copy = vec![ctrl(KeyCodeView::Char('t'))];
    let err = km.validate().unwrap_err();
    assert_eq!(err, "app: duplicate key binding ctrl+t");

    let mut km = RuntimeKeymap::defaults();
    km.editor.yank = vec![plain(KeyCodeView::Left)];
    assert_eq!(km.validate().unwrap_err(), "editor: duplicate key binding left");

    let mut km = RuntimeKeymap::defaults();
    km.composer.queue = vec![plain(KeyCodeView::Tab), plain(KeyCodeView::Tab)];
    assert_eq!(km.validate().unwrap_err(), "composer: duplicate key binding tab");
}

#[test]
fn conflicts_are_checked_only_within_the_listed_actions() {
    let mut km = RuntimeKeymap::defaults();
    // insert_newline is not among the editing actions checked for conflicts
    km.editor.insert_newline = vec![plain(KeyCodeView::Left)];
    assert!(km.validate().is_ok());
    let a = vec![alt(KeyCodeView::F(5))];
    let b = vec![shift(KeyCodeView::F(5))];
    assert!(RuntimeKeymap::check_conflicts("x", &vec![&a, &b]).is_ok());
    let c = vec![alt(KeyCodeView::F(5))];
    assert_eq!(
        RuntimeKeymap::check_conflicts("x", &vec![&a, &b, &c]).unwrap_err(),
        "x: duplicate key binding alt+f5"
    );
}

#[test]
fn key_names_parse_case_insensitively() {
    assert_eq!(parse_key_code("Enter"), KeyCodeView::Enter);
    assert_eq!(parse_key_code("ESCAPE"), KeyCodeView::Esc);
    assert_eq!(parse_key_code("del"), KeyCodeView::Delete);
    assert_eq!(parse_key_code("Page_Down"), KeyCodeView::PageDown);
    assert_eq!(parse_key_code("F12"), KeyCodeView::F(12));
    assert_eq!(parse_key_code("space"), KeyCodeView::Char(' '));
    assert_eq!(parse_key_code("X"), KeyCodeView::Char('x'));
    assert_eq!(parse_key_code("é"), KeyCodeView::Char('?'));
    assert_eq!(parse_key_code("f13"), KeyCodeView::Char('?'));
}

#[test]
fn modifier_lists_parse_by_name() {
    let m = parse_modifiers("Ctrl + shift");
    assert!(m.control && m.shift && !m.alt && !m.super_key);
    let m = parse_modifiers("option+cmd+bogus");
    assert!(m.alt && m.super_key && !m.control);
    assert_eq!(parse_modifiers(""), no_mods());
}

#[test]
fn configured_bindings_replace_only_the_named_actions() {
    let mut km = RuntimeKeymap::defaults();
    let config = CliConfig {
        keymap: Some(KeymapConfig {
            app: Some(AppKeymapOverride {
                copy: Some(vec![def("y", Some(true))]),
                ..Default::default()
            }),
            editor: Some(EditorKeymapOverride {
                kill_whole_line: Some(vec![def("k", Some(true)), KeyBindingDef {
                    key: "backspace".to_string(),
                    ctrl: None,
                    alt: Some(true),
                    shift: Some(false),
                }]),
                ..Default::default()
            }),
            ..Default::default()
        }),
    };
    config.apply_keymap(&mut km);
    assert_eq!(km.app.copy, vec![ctrl(KeyCodeView::Char('y'))]);
    assert_eq!(km.app.clear_terminal, vec![ctrl(KeyCodeView::Char('l'))]);
    assert_eq!(
        km.editor.kill_whole_line,
        vec![ctrl(KeyCodeView::Char('k')), alt(KeyCodeView::Backspace)]
    );
    assert_eq!(km.editor.move_left, vec![plain(KeyCodeView::Left)]);
    assert_eq!(
        KeyBindingDef { key: "Tab".to_string(), ctrl: None, alt: None, shift: Some(true) }
            .to_key_binding(),
        KeyBinding::new(KeyCodeView::Tab, KeyMods { shift: true, ..no_mods() })
    );
}

#[test]
fn empty_config_keeps_the_defaults() {
    let mut km = RuntimeKeymap::defaults();
    CliConfig::default().apply_keymap(&mut km);
    assert_eq!(km.composer.submit.len(), 3);
    assert!(km.validate().is_ok());
}

#[test]
fn configured_keymap_applies_the_overrides_to_the_defaults() {
    let (km, check) = configured_keymap(None);
    assert_eq!(km, RuntimeKeymap::defaults());
    assert_eq!(check, Ok(()));
    let config = CliConfig {
        keymap: Some(KeymapConfig {
            app: Some(AppKeymapOverride { copy: Some(vec![def("y", Some(true))]), ..Default::default() }),
            ..Default::default()
        }),
    };
    let (km, check) = configured_keymap(Some(&config));
    assert_eq!(check, Ok(()));
    assert_eq!(km.app.copy, vec![ctrl(KeyCodeView::Char('y'))]);
    assert_eq!(km.editor, RuntimeKeymap::defaults().editor);
}
