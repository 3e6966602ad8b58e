use gestro::config::{Modifier, Shortcut};
use gestro::simulator::{
    fire_shortcut, modifier_to_enigo, shortcut_keystrokes, string_to_enigo_key,
    string_to_macos_keycode, to_ascii_lower, KeyCode, KeyPlan, KeyStroke, ModifierFlags,
    ModifierKey, Platform,
};

fn shortcut(mods: &[&str], key: &str) -> Shortcut {
    Shortcut {
        modifiers: mods.iter().map(|m| Modifier(m.to_string())).collect(),
        key: key.to_string(),
        label: None,
    }
}

#[test]
fn modifier_names() {
    assert_eq!(modifier_to_enigo("Ctrl"), Some(ModifierKey::Control));
    assert_eq!(modifier_to_enigo("Control"), Some(ModifierKey::Control));
    assert_eq!(modifier_to_enigo("Alt"), Some(ModifierKey::Alt));
    assert_eq!(modifier_to_enigo("Shift"), Some(ModifierKey::Shift));
    for m in ["Meta", "Super", "Cmd", "Command"] {
        assert_eq!(modifier_to_enigo(m), Some(ModifierKey::Meta));
    }
    assert_eq!(modifier_to_enigo("ctrl"), None);
    assert_eq!(modifier_to_enigo("Hyper"), None);
    assert_eq!(modifier_to_enigo(""), None);
}

#[test]
fn macos_keycodes_of_characters() {
    assert_eq!(string_to_macos_keycode("a"), Some(0x00));
    assert_eq!(string_to_macos_keycode("A"), Some(0x00));
    assert_eq!(string_to_macos_keycode("T"), Some(0x11));
    assert_eq!(string_to_macos_keycode("5"), Some(0x17));
    assert_eq!(string_to_macos_keycode("["), Some(0x21));
    assert_eq!(string_to_macos_keycode("]"), Some(0x1E));
    assert_eq!(string_to_macos_keycode("'"), Some(0x27));
    assert_eq!(string_to_macos_keycode("\\"), Some(0x2A));
    assert_eq!(string_to_macos_keycode("`"), Some(0x32));
    assert_eq!(string_to_macos_keycode("*"), None);
    assert_eq!(string_to_macos_keycode("é"), None);
    assert_eq!(string_to_macos_keycode(""), None);
}

#[test]
fn macos_keycodes_of_names() {
    assert_eq!(string_to_macos_keycode("Space"), Some(0x31));
    assert_eq!(string_to_macos_keycode("Return"), Some(0x24));
    assert_eq!(string_to_macos_keycode("Enter"), Some(0x24));
    assert_eq!(string_to_macos_keycode("Esc"), Some(0x35));
    assert_eq!(string_to_macos_keycode("Right"), Some(0x7C));
    assert_eq!(string_to_macos_keycode("F5"), Some(0x60));
    assert_eq!(string_to_macos_keycode("F12"), Some(0x6F));
    assert_eq!(string_to_macos_keycode("MediaPlayPause"), None);
    assert_eq!(string_to_macos_keycode("BrowserBack"), None);
    assert_eq!(string_to_macos_keycode("space"), None);
}

#[test]
fn simulator_keys() {
    let p = Platform::OtherUnix;
    assert_eq!(string_to_enigo_key("T", p), Some(KeyCode::Unicode('t')));
    assert_eq!(string_to_enigo_key("[", p), Some(KeyCode::Unicode('[')));
    assert_eq!(string_to_enigo_key("é", p), None);
    assert_eq!(string_to_enigo_key("Enter", p), Some(KeyCode::Return));
    assert_eq!(string_to_enigo_key("Up", p), Some(KeyCode::UpArrow));
    assert_eq!(string_to_enigo_key("PageDown", p), Some(KeyCode::PageDown));
    assert_eq!(string_to_enigo_key("F11", p), Some(KeyCode::F11));
    assert_eq!(string_to_enigo_key("MediaTrackNext", p), Some(KeyCode::MediaNextTrack));
    assert_eq!(string_to_enigo_key("AudioVolumeMute", p), Some(KeyCode::VolumeMute));
    assert_eq!(string_to_enigo_key("VolumeDown", p), Some(KeyCode::VolumeDown));
    assert_eq!(string_to_enigo_key("Nope", p), None);
}

#[test]
fn browser_keys_per_platform() {
    assert_eq!(string_to_enigo_key("BrowserBack", Platform::Windows), Some(KeyCode::BrowserBack));
    assert_eq!(string_to_enigo_key("BrowserBack", Platform::OtherUnix), Some(KeyCode::Other(0x1008FF26)));
    assert_eq!(string_to_enigo_key("BrowserBack", Platform::MacOs), None);
    assert_eq!(string_to_enigo_key("BrowserForward", Platform::OtherUnix), Some(KeyCode::Other(0x1008FF27)));
    assert_eq!(string_to_enigo_key("BrowserRefresh", Platform::OtherUnix), Some(KeyCode::Other(0x1008FF29)));
    assert_eq!(string_to_enigo_key("BrowserHome", Platform::OtherUnix), Some(KeyCode::Other(0x1008FF18)));
    assert_eq!(string_to_enigo_key("BrowserHome", Platform::Windows), Some(KeyCode::BrowserHome));
}

#[test]
fn ascii_lowering() {
    assert_eq!(to_ascii_lower('A'), 'a');
    assert_eq!(to_ascii_lower('Z'), 'z');
    assert_eq!(to_ascii_lower('a'), 'a');
    assert_eq!(to_ascii_lower('@'), '@');
    assert_eq!(to_ascii_lower('['), '[');
    assert_eq!(to_ascii_lower('É'), 'É');
}

#[test]
fn keystrokes_press_click_release_in_reverse() {
    let s = shortcut(&["Ctrl", "Hyper", "Shift"], "t");
    assert_eq!(
        shortcut_keystrokes(&s, Platform::OtherUnix),
        vec![
            KeyStroke::Press(ModifierKey::Control),
            KeyStroke::Press(ModifierKey::Shift),
            KeyStroke::Pause,
            KeyStroke::Click(KeyCode::Unicode('t')),
            KeyStroke::Release(ModifierKey::Shift),
            KeyStroke::Release(ModifierKey::Control),
        ]
    );
    assert_eq!(
        shortcut_keystrokes(&shortcut(&[], "F5"), Platform::Windows),
        vec![KeyStroke::Click(KeyCode::F5)]
    );
    assert_eq!(
        shortcut_keystrokes(&shortcut(&["Alt"], "Unknown"), Platform::Windows),
        vec![
            KeyStroke::Press(ModifierKey::Alt),
            KeyStroke::Pause,
            KeyStroke::Release(ModifierKey::Alt),
        ]
    );
    assert_eq!(
        shortcut_keystrokes(&shortcut(&["Hyper"], "x"), Platform::Windows),
        vec![KeyStroke::Pause, KeyStroke::Click(KeyCode::Unicode('x'))]
    );
}

#[test]
fn only_presses_abort_on_failure() {
    assert!(KeyStroke::Press(ModifierKey::Meta).aborts_on_failure());
    assert!(!KeyStroke::Pause.aborts_on_failure());
    assert!(!KeyStroke::Click(KeyCode::Tab).aborts_on_failure());
    assert!(!KeyStroke::Release(ModifierKey::Meta).aborts_on_failure());
}

#[test]
fn macos_posts_flagged_key_events() {
    match fire_shortcut(&shortcut(&["Cmd", "Shift"], "T"), Platform::MacOs) {
        KeyPlan::FlaggedKey { keycode, flags } => {
            assert_eq!(keycode, 0x11);
            assert_eq!(
                flags,
                ModifierFlags { command: true, control: false, alternate: false, shift: true }
            );
        }
        other => panic!("Expected FlaggedKey, got {other:?}"),
    }
    match fire_shortcut(&shortcut(&["Ctrl", "Alt"], "Right"), Platform::MacOs) {
        KeyPlan::FlaggedKey { keycode, flags } => {
            assert_eq!(keycode, 0x7C);
            assert_eq!(
                flags,
                ModifierFlags { command: false, control: true, alternate: true, shift: false }
            );
        }
        other => panic!("Expected FlaggedKey, got {other:?}"),
    }
}

#[test]
fn macos_falls_back_to_keystrokes_on_main_thread() {
    match fire_shortcut(&shortcut(&[], "t"), Platform::MacOs) {
        KeyPlan::Keystrokes { strokes, on_main_thread } => {
            assert!(on_main_thread);
            assert_eq!(strokes, vec![KeyStroke::Click(KeyCode::Unicode('t'))]);
        }
        other => panic!("Expected Keystrokes, got {other:?}"),
    }
    match fire_shortcut(&shortcut(&["Ctrl"], "MediaPlayPause"), Platform::MacOs) {
        KeyPlan::Keystrokes { strokes, on_main_thread } => {
            assert!(on_main_thread);
            assert_eq!(
                strokes,
                vec![
                    KeyStroke::Press(ModifierKey::Control),
                    KeyStroke::Pause,
                    KeyStroke::Click(KeyCode::MediaPlayPause),
                    KeyStroke::Release(ModifierKey::Control),
                ]
            );
        }
        other => panic!("Expected Keystrokes, got {other:?}"),
    }
}

#[test]
fn other_platforms_play_keystrokes() {
    match fire_shortcut(&shortcut(&["Ctrl", "Alt"], "Right"), Platform::OtherUnix) {
        KeyPlan::Keystrokes { strokes, on_main_thread } => {
            assert!(!on_main_thread);
            assert_eq!(
                strokes,
                vec![
                    KeyStroke::Press(ModifierKey::Control),
                    KeyStroke::Press(ModifierKey::Alt),
                    KeyStroke::Pause,
                    KeyStroke::Click(KeyCode::RightArrow),
                    KeyStroke::Release(ModifierKey::Alt),
                    KeyStroke::Release(ModifierKey::Control),
                ]
            );
        }
        other => panic!("Expected Keystrokes, got {other:?}"),
    }
    match fire_shortcut(&shortcut(&[], "BrowserForward"), Platform::Windows) {
        KeyPlan::Keystrokes { strokes, on_main_thread } => {
            assert!(!on_main_thread);
            assert_eq!(strokes, vec![KeyStroke::Click(KeyCode::BrowserForward)]);
        }
        other => panic!("Expected Keystrokes, got {other:?}"),
    }
}
