use muldex::commands::InteractiveShellInput;
use muldex::keymap::{KeyCodeView, KeyInput, KeyMods};
use muldex::keys::InteractiveKeyAction;
use muldex::shell_input::{editor_invocation, input_effect, parse_scripted_keys, InputEffect};

fn key(code: KeyCodeView, control: bool) -> KeyInput {
    KeyInput {
        code,
        modifiers: KeyMods { shift: false, control, alt: false, super_key: false, hyper: false, meta: false },
        pressed: true,
    }
}

#[test]
fn scripted_keys_type_text_and_press_named_keys() {
    let keys = parse_scripted_keys("TEXT:/mo, TAB ,ENTER,bogus,CTRL_R,TEXT:");
    assert_eq!(
        keys,
        vec![
            key(KeyCodeView::Char('/'), false),
            key(KeyCodeView::Char('m'), false),
            key(KeyCodeView::Char('o'), false),
            key(KeyCodeView::Tab, false),
            key(KeyCodeView::Enter, false),
            key(KeyCodeView::Char('r'), true),
        ]
    );
    assert!(parse_scripted_keys("").is_empty());
    assert_eq!(parse_scripted_keys("ESC,UP,DOWN,CTRL_U,CTRL_C").len(), 5);
}

#[test]
fn key_actions_become_loop_effects() {
    assert_eq!(input_effect(InteractiveKeyAction::Noop, false), InputEffect::Nothing);
    assert_eq!(input_effect(InteractiveKeyAction::RedrawPrompt, false), InputEffect::Redraw);
    assert_eq!(input_effect(InteractiveKeyAction::ClearScreen, true), InputEffect::ClearAndRedraw);
    assert_eq!(input_effect(InteractiveKeyAction::OpenExternalEditor, false), InputEffect::EditExternally);
    assert_eq!(input_effect(InteractiveKeyAction::OpenExternalEditor, true), InputEffect::Nothing);
    assert_eq!(input_effect(InteractiveKeyAction::Copy, false), InputEffect::CopyBuffer("copied to clipboard"));
    assert_eq!(input_effect(InteractiveKeyAction::Yank, false), InputEffect::CopyBuffer("yanked to clipboard"));
    assert_eq!(input_effect(InteractiveKeyAction::Yank, true), InputEffect::Nothing);
    assert_eq!(
        input_effect(InteractiveKeyAction::Status, true),
        InputEffect::Finish(InteractiveShellInput::Status)
    );
    assert_eq!(
        input_effect(InteractiveKeyAction::Submit(InteractiveShellInput::Help), false),
        InputEffect::Finish(InteractiveShellInput::Help)
    );
}

#[test]
fn editor_comes_from_visual_then_editor_then_the_platform() {
    let (program, args) = editor_invocation(Some("code --wait".to_string()), Some("nano".to_string()), false);
    assert_eq!(program, "code");
    assert_eq!(args, vec!["--wait".to_string()]);
    let (program, args) = editor_invocation(Some(String::new()), Some("nano -w".to_string()), false);
    assert_eq!(program, "nano");
    assert_eq!(args, vec!["-w".to_string()]);
    assert_eq!(editor_invocation(None, None, false).0, "vi");
    assert_eq!(editor_invocation(None, None, true).0, "notepad");
    let (program, args) = editor_invocation(Some("   ".to_string()), None, true);
    assert_eq!(program, "vi");
    assert!(args.is_empty());
}
