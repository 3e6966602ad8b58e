use vstd::prelude::*;
use crate::config::{Shortcut, ShortcutView};
use crate::text::{chars_of, spells};
use vstd::utf8::{encode_scalar, encode_utf8, is_scalar};

verus! {

/// The desktop platform a shortcut is fired on; key names map to keys differently on each.
#[derive(Debug, Clone, Copy, PartialEq, Eq, Structural)]
pub enum Platform {
    MacOs,
    Windows,
    /// Linux and the other Unix desktops (X11 / Wayland).
    OtherUnix,
}

/// A modifier key that can be held down while a shortcut fires.
#[derive(Debug, Clone, Copy, PartialEq, Eq, Structural)]
pub enum ModifierKey {
    Control,
    Alt,
    Shift,
    Meta,
}

/// A key that the keyboard simulator can press, named as the simulator names it.
#[derive(Debug, Clone, Copy, PartialEq, Eq, Structural)]
pub enum KeyCode {
    /// The key that types this character.
    Unicode(char),
    Space,
    Return,
    Tab,
    Escape,
    Backspace,
    Delete,
    UpArrow,
    DownArrow,
    LeftArrow,
    RightArrow,
    Home,
    End,
    PageUp,
    PageDown,
    F1,
    F2,
    F3,
    F4,
    F5,
    F6,
    F7,
    F8,
    F9,
    F10,
    F11,
    F12,
    MediaPlayPause,
    MediaNextTrack,
    MediaPrevTrack,
    VolumeUp,
    VolumeDown,
    VolumeMute,
    BrowserBack,
    BrowserForward,
    BrowserRefresh,
    BrowserHome,
    /// A raw platform key symbol (an X11 keysym on Unix desktops).
    Other(u32),
}

/// The modifier key a modifier name stands for.
pub open spec fn modifier_key_for(name: Seq<char>) -> Option<ModifierKey> {
    if name == "Ctrl"@ || name == "Control"@ {
        Some(ModifierKey::Control)
    } else if name == "Alt"@ {
        Some(ModifierKey::Alt)
    } else if name == "Shift"@ {
        Some(ModifierKey::Shift)
    } else if name == "Meta"@ || name == "Super"@ || name == "Cmd"@ || name == "Command"@ {
        Some(ModifierKey::Meta)
    } else {
        None
    }
}

/// A key name made of one character whose UTF-8 encoding is a single byte.
pub open spec fn is_single_byte_name(name: Seq<char>) -> bool {
    name.len() == 1 && (name[0] as u32) < 0x80
}

/// ASCII lower case of a character; other characters are unchanged.
pub open spec fn ascii_lower(c: char) -> char {
    if 'A' <= c && c <= 'Z' {
        ((c as u32) + 32) as char
    } else {
        c
    }
}

/// The macOS virtual key code of a (lower-case) character key.
pub open spec fn macos_char_keycode(c: char) -> Option<u16> {
    match c {
        'a' => Some(0x00),
        's' => Some(0x01),
        'd' => Some(0x02),
        'f' => Some(0x03),
        'h' => Some(0x04),
        'g' => Some(0x05),
        'z' => Some(0x06),
        'x' => Some(0x07),
        'c' => Some(0x08),
        'v' => Some(0x09),
        'b' => Some(0x0B),
        'q' => Some(0x0C),
        'w' => Some(0x0D),
        'e' => Some(0x0E),
        'r' => Some(0x0F),
        'y' => Some(0x10),
        't' => Some(0x11),
        '1' => Some(0x12),
        '2' => Some(0x13),
        '3' => Some(0x14),
        '4' => Some(0x15),
        '6' => Some(0x16),
        '5' => Some(0x17),
        '=' => Some(0x18),
        '9' => Some(0x19),
        '7' => Some(0x1A),
        '-' => Some(0x1B),
        '8' => Some(0x1C),
        '0' => Some(0x1D),
        ']' => Some(0x1E),
        'o' => Some(0x1F),
        'u' => Some(0x20),
        '[' => Some(0x21),
        'i' => Some(0x22),
        'p' => Some(0x23),
        'l' => Some(0x25),
        'j' => Some(0x26),
        '\'' => Some(0x27),
        'k' => Some(0x28),
        ';' => Some(0x29),
        '\\' => Some(0x2A),
        ',' => Some(0x2B),
        '/' => Some(0x2C),
        'n' => Some(0x2D),
        'm' => Some(0x2E),
        '.' => Some(0x2F),
        '`' => Some(0x32),
        _ => None,
    }
}

/// The macOS virtual key code of a named key.
pub open spec fn macos_named_keycode(name: Seq<char>) -> Option<u16> {
    if name == "Space"@ {
        Some(0x31)
    }     else if name == "Return"@ || name == "Enter"@ {
        Some(0x24)
    }     else if name == "Tab"@ {
        Some(0x30)
    }     else if name == "Escape"@ || name == "Esc"@ {
        Some(0x35)
    }     else if name == "Backspace"@ {
        Some(0x33)
    }     else if name == "Delete"@ {
        Some(0x75)
    }     else if name == "Up"@ {
        Some(0x7E)
    }     else if name == "Down"@ {
        Some(0x7D)
    }     else if name == "Left"@ {
        Some(0x7B)
    }     else if name == "Right"@ {
        Some(0x7C)
    }     else if name == "Home"@ {
        Some(0x73)
    }     else if name == "End"@ {
        Some(0x77)
    }     else if name == "PageUp"@ {
        Some(0x74)
    }     else if name == "PageDown"@ {
        Some(0x79)
    }     else if name == "F1"@ {
        Some(0x7A)
    }     else if name == "F2"@ {
        Some(0x78)
    }     else if name == "F3"@ {
        Some(0x63)
    }     else if name == "F4"@ {
        Some(0x76)
    }     else if name == "F5"@ {
        Some(0x60)
    }     else if name == "F6"@ {
        Some(0x61)
    }     else if name == "F7"@ {
        Some(0x62)
    }     else if name == "F8"@ {
        Some(0x64)
    }     else if name == "F9"@ {
        Some(0x65)
    }     else if name == "F10"@ {
        Some(0x6D)
    }     else if name == "F11"@ {
        Some(0x67)
    }     else if name == "F12"@ {
        Some(0x6F)
    } else {
        None
    }
}

/// The macOS virtual key code of a key name (Carbon HIToolbox key codes).
pub open spec fn macos_keycode_for(name: Seq<char>) -> Option<u16> {
    if is_single_byte_name(name) {
        macos_char_keycode(ascii_lower(name[0]))
    } else {
        macos_named_keycode(name)
    }
}

/// The browser navigation keys: each platform has its own way to press them.
pub open spec fn browser_key_for(name: Seq<char>, platform: Platform) -> Option<KeyCode> {
    if name == "BrowserBack"@ {
        match platform {
            Platform::Windows => Some(KeyCode::BrowserBack),
            Platform::OtherUnix => Some(KeyCode::Other(0x1008FF26)),
            Platform::MacOs => None,
        }
    }     else if name == "BrowserForward"@ {
        match platform {
            Platform::Windows => Some(KeyCode::BrowserForward),
            Platform::OtherUnix => Some(KeyCode::Other(0x1008FF27)),
            Platform::MacOs => None,
        }
    }     else if name == "BrowserRefresh"@ {
        match platform {
            Platform::Windows => Some(KeyCode::BrowserRefresh),
            Platform::OtherUnix => Some(KeyCode::Other(0x1008FF29)),
            Platform::MacOs => None,
        }
    }     else if name == "BrowserHome"@ {
        match platform {
            Platform::Windows => Some(KeyCode::BrowserHome),
            Platform::OtherUnix => Some(KeyCode::Other(0x1008FF18)),
            Platform::MacOs => None,
        }
    } else {
        None
    }
}

/// The simulator key of a named key.
pub open spec fn named_key_for(name: Seq<char>, platform: Platform) -> Option<KeyCode> {
    if name == "Space"@ {
        Some(KeyCode::Space)
    }     else if name == "Return"@ || name == "Enter"@ {
        Some(KeyCode::Return)
    }     else if name == "Tab"@ {
        Some(KeyCode::Tab)
    }     else if name == "Escape"@ || name == "Esc"@ {
        Some(KeyCode::Escape)
    }     else if name == "Backspace"@ {
        Some(KeyCode::Backspace)
    }     else if name == "Delete"@ {
        Some(KeyCode::Delete)
    }     else if name == "Up"@ {
        Some(KeyCode::UpArrow)
    }     else if name == "Down"@ {
        Some(KeyCode::DownArrow)
    }     else if name == "Left"@ {
        Some(KeyCode::LeftArrow)
    }     else if name == "Right"@ {
        Some(KeyCode::RightArrow)
    }     else if name == "Home"@ {
        Some(KeyCode::Home)
    }     else if name == "End"@ {
        Some(KeyCode::End)
    }     else if name == "PageUp"@ {
        Some(KeyCode::PageUp)
    }     else if name == "PageDown"@ {
        Some(KeyCode::PageDown)
    }     else if name == "F1"@ {
        Some(KeyCode::F1)
    }     else if name == "F2"@ {
        Some(KeyCode::F2)
    }     else if name == "F3"@ {
        Some(KeyCode::F3)
    }     else if name == "F4"@ {
        Some(KeyCode::F4)
    }     else if name == "F5"@ {
        Some(KeyCode::F5)
    }     else if name == "F6"@ {
        Some(KeyCode::F6)
    }     else if name == "F7"@ {
        Some(KeyCode::F7)
    }     else if name == "F8"@ {
        Some(KeyCode::F8)
    }     else if name == "F9"@ {
        Some(KeyCode::F9)
    }     else if name == "F10"@ {
        Some(KeyCode::F10)
    }     else if name == "F11"@ {
        Some(KeyCode::F11)
    }     else if name == "F12"@ {
        Some(KeyCode::F12)
    }     else if name == "MediaPlayPause"@ {
        Some(KeyCode::MediaPlayPause)
    }     else if name == "MediaNextTrack"@ || name == "MediaTrackNext"@ {
        Some(KeyCode::MediaNextTrack)
    }     else if name == "MediaPrevTrack"@ || name == "MediaTrackPrevious"@ {
        Some(KeyCode::MediaPrevTrack)
    }     else if name == "AudioVolumeUp"@ || name == "VolumeUp"@ {
        Some(KeyCode::VolumeUp)
    }     else if name == "AudioVolumeDown"@ || name == "VolumeDown"@ {
        Some(KeyCode::VolumeDown)
    }     else if name == "AudioVolumeMute"@ || name == "VolumeMute"@ {
        Some(KeyCode::VolumeMute)
    } else {
        browser_key_for(name, platform)
    }
}

/// The simulator key of a key name: a single character types its lower case.
pub open spec fn key_for(name: Seq<char>, platform: Platform) -> Option<KeyCode> {
    if is_single_byte_name(name) {
        Some(KeyCode::Unicode(ascii_lower(name[0])))
    } else {
        named_key_for(name, platform)
    }
}

/// ASCII lower case of a character.
pub fn to_ascii_lower(c: char) -> (lower: char)
    ensures
        lower == ascii_lower(c),
{
    if 'A' <= c && c <= 'Z' {
        let code: u8 = c as u8;
        assert(code == c as u32);
        let l: u8 = code + 32;
        l as char
    } else {
        c
    }
}

/// The modifier key a modifier name stands for, if it names one.
pub fn modifier_to_enigo(name: &str) -> (key: Option<ModifierKey>)
    ensures
        key == modifier_key_for(name@),
{
    let n = chars_of(name);
    let t = n.as_slice();
    if spells(t, "Ctrl") || spells(t, "Control") {
        Some(ModifierKey::Control)
    } else if spells(t, "Alt") {
        Some(ModifierKey::Alt)
    } else if spells(t, "Shift") {
        Some(ModifierKey::Shift)
    } else if spells(t, "Meta") || spells(t, "Super") || spells(t, "Cmd") || spells(t, "Command") {
        Some(ModifierKey::Meta)
    } else {
        None
    }
}

fn macos_char_keycode_of(c: char) -> (code: Option<u16>)
    ensures
        code == macos_char_keycode(c),
{
    match c {
        'a' => Some(0x00),
        's' => Some(0x01),
        'd' => Some(0x02),
        'f' => Some(0x03),
        'h' => Some(0x04),
        'g' => Some(0x05),
        'z' => Some(0x06),
        'x' => Some(0x07),
        'c' => Some(0x08),
        'v' => Some(0x09),
        'b' => Some(0x0B),
        'q' => Some(0x0C),
        'w' => Some(0x0D),
        'e' => Some(0x0E),
        'r' => Some(0x0F),
        'y' => Some(0x10),
        't' => Some(0x11),
        '1' => Some(0x12),
        '2' => Some(0x13),
        '3' => Some(0x14),
        '4' => Some(0x15),
        '6' => Some(0x16),
        '5' => Some(0x17),
        '=' => Some(0x18),
        '9' => Some(0x19),
        '7' => Some(0x1A),
        '-' => Some(0x1B),
        '8' => Some(0x1C),
        '0' => Some(0x1D),
        ']' => Some(0x1E),
        'o' => Some(0x1F),
        'u' => Some(0x20),
        '[' => Some(0x21),
        'i' => Some(0x22),
        'p' => Some(0x23),
        'l' => Some(0x25),
        'j' => Some(0x26),
        '\'' => Some(0x27),
        'k' => Some(0x28),
        ';' => Some(0x29),
        '\\' => Some(0x2A),
        ',' => Some(0x2B),
        '/' => Some(0x2C),
        'n' => Some(0x2D),
        'm' => Some(0x2E),
        '.' => Some(0x2F),
        '`' => Some(0x32),
        _ => None,
    }
}

fn macos_named_keycode_of(t: &[char]) -> (code: Option<u16>)
    ensures
        code == macos_named_keycode(t@),
{
    if spells(t, "Space") {
        Some(0x31)
    }     else if spells(t, "Return") || spells(t, "Enter") {
        Some(0x24)
    }     else if spells(t, "Tab") {
        Some(0x30)
    }     else if spells(t, "Escape") || spells(t, "Esc") {
        Some(0x35)
    }     else if spells(t, "Backspace") {
        Some(0x33)
    }     else if spells(t, "Delete") {
        Some(0x75)
    }     else if spells(t, "Up") {
        Some(0x7E)
    }     else if spells(t, "Down") {
        Some(0x7D)
    }     else if spells(t, "Left") {
        Some(0x7B)
    }     else if spells(t, "Right") {
        Some(0x7C)
    }     else if spells(t, "Home") {
        Some(0x73)
    }     else if spells(t, "End") {
        Some(0x77)
    }     else if spells(t, "PageUp") {
        Some(0x74)
    }     else if spells(t, "PageDown") {
        Some(0x79)
    }     else if spells(t, "F1") {
        Some(0x7A)
    }     else if spells(t, "F2") {
        Some(0x78)
    }     else if spells(t, "F3") {
        Some(0x63)
    }     else if spells(t, "F4") {
        Some(0x76)
    }     else if spells(t, "F5") {
        Some(0x60)
    }     else if spells(t, "F6") {
        Some(0x61)
    }     else if spells(t, "F7") {
        Some(0x62)
    }     else if spells(t, "F8") {
        Some(0x64)
    }     else if spells(t, "F9") {
        Some(0x65)
    }     else if spells(t, "F10") {
        Some(0x6D)
    }     else if spells(t, "F11") {
        Some(0x67)
    }     else if spells(t, "F12") {
        Some(0x6F)
    } else {
        None
    }
}

/// Map a key name to its macOS virtual key code (Carbon HIToolbox/Events.h).
pub fn string_to_macos_keycode(name: &str) -> (code: Option<u16>)
    ensures
        code == macos_keycode_for(name@),
{
    let n = chars_of(name);
    if n.len() == 1 && (n[0] as u32) < 0x80 {
        macos_char_keycode_of(to_ascii_lower(n[0]))
    } else {
        macos_named_keycode_of(n.as_slice())
    }
}

fn browser_key_of(t: &[char], platform: Platform) -> (key: Option<KeyCode>)
    ensures
        key == browser_key_for(t@, platform),
{
    if spells(t, "BrowserBack") {
        match platform {
            Platform::Windows => Some(KeyCode::BrowserBack),
            Platform::OtherUnix => Some(KeyCode::Other(0x1008FF26)),
            Platform::MacOs => None,
        }
    }     else if spells(t, "BrowserForward") {
        match platform {
            Platform::Windows => Some(KeyCode::BrowserForward),
            Platform::OtherUnix => Some(KeyCode::Other(0x1008FF27)),
            Platform::MacOs => None,
        }
    }     else if spells(t, "BrowserRefresh") {
        match platform {
            Platform::Windows => Some(KeyCode::BrowserRefresh),
            Platform::OtherUnix => Some(KeyCode::Other(0x1008FF29)),
            Platform::MacOs => None,
        }
    }     else if spells(t, "BrowserHome") {
        match platform {
            Platform::Windows => Some(KeyCode::BrowserHome),
            Platform::OtherUnix => Some(KeyCode::Other(0x1008FF18)),
            Platform::MacOs => None,
        }
    } else {
        None
    }
}

fn named_key_of(t: &[char], platform: Platform) -> (key: Option<KeyCode>)
    ensures
        key == named_key_for(t@, platform),
{
    if spells(t, "Space") {
        Some(KeyCode::Space)
    }     else if spells(t, "Return") || spells(t, "Enter") {
        Some(KeyCode::Return)
    }     else if spells(t, "Tab") {
        Some(KeyCode::Tab)
    }     else if spells(t, "Escape") || spells(t, "Esc") {
        Some(KeyCode::Escape)
    }     else if spells(t, "Backspace") {
        Some(KeyCode::Backspace)
    }     else if spells(t, "Delete") {
        Some(KeyCode::Delete)
    }     else if spells(t, "Up") {
        Some(KeyCode::UpArrow)
    }     else if spells(t, "Down") {
        Some(KeyCode::DownArrow)
    }     else if spells(t, "Left") {
        Some(KeyCode::LeftArrow)
    }     else if spells(t, "Right") {
        Some(KeyCode::RightArrow)
    }     else if spells(t, "Home") {
        Some(KeyCode::Home)
    }     else if spells(t, "End") {
        Some(KeyCode::End)
    }     else if spells(t, "PageUp") {
        Some(KeyCode::PageUp)
    }     else if spells(t, "PageDown") {
        Some(KeyCode::PageDown)
    }     else if spells(t, "F1") {
        Some(KeyCode::F1)
    }     else if spells(t, "F2") {
        Some(KeyCode::F2)
    }     else if spells(t, "F3") {
        Some(KeyCode::F3)
    }     else if spells(t, "F4") {
        Some(KeyCode::F4)
    }     else if spells(t, "F5") {
        Some(KeyCode::F5)
    }     else if spells(t, "F6") {
        Some(KeyCode::F6)
    }     else if spells(t, "F7") {
        Some(KeyCode::F7)
    }     else if spells(t, "F8") {
        Some(KeyCode::F8)
    }     else if spells(t, "F9") {
        Some(KeyCode::F9)
    }     else if spells(t, "F10") {
        Some(KeyCode::F10)
    }     else if spells(t, "F11") {
        Some(KeyCode::F11)
    }     else if spells(t, "F12") {
        Some(KeyCode::F12)
    }     else if spells(t, "MediaPlayPause") {
        Some(KeyCode::MediaPlayPause)
    }     else if spells(t, "MediaNextTrack") || spells(t, "MediaTrackNext") {
        Some(KeyCode::MediaNextTrack)
    }     else if spells(t, "MediaPrevTrack") || spells(t, "MediaTrackPrevious") {
        Some(KeyCode::MediaPrevTrack)
    }     else if spells(t, "AudioVolumeUp") || spells(t, "VolumeUp") {
        Some(KeyCode::VolumeUp)
    }     else if spells(t, "AudioVolumeDown") || spells(t, "VolumeDown") {
        Some(KeyCode::VolumeDown)
    }     else if spells(t, "AudioVolumeMute") || spells(t, "VolumeMute") {
        Some(KeyCode::VolumeMute)
    } else {
        browser_key_of(t, platform)
    }
}

/// The key the simulator presses for a key name on `platform`, if the name is known there.
pub fn string_to_enigo_key(name: &str, platform: Platform) -> (key: Option<KeyCode>)
    ensures
        key == key_for(name@, platform),
{
    let n = chars_of(name);
    if n.len() == 1 && (n[0] as u32) < 0x80 {
        Some(KeyCode::Unicode(to_ascii_lower(n[0])))
    } else {
        named_key_of(n.as_slice(), platform)
    }
}

/// One step of playing a shortcut on the simulated keyboard.
#[derive(Debug, Clone, Copy, PartialEq, Eq, Structural)]
pub enum KeyStroke {
    /// Hold a modifier down. When this step fails, the rest of the plan is abandoned.
    Press(ModifierKey),
    /// Give the operating system time to register the held modifiers.
    Pause,
    /// Press and release the main key.
    Click(KeyCode),
    /// Let go of a modifier.
    Release(ModifierKey),
}

impl KeyStroke {
    /// Whether a failure of this step ends the whole shortcut.
    pub fn aborts_on_failure(&self) -> (aborts: bool)
        ensures
            aborts == (*self is Press),
    {
        match self {
            KeyStroke::Press(_) => true,
            _ => false,
        }
    }
}

/// Modifier flags carried by a single key event (macOS key events).
#[derive(Debug, Clone, Copy, PartialEq, Eq, Structural)]
pub struct ModifierFlags {
    pub command: bool,
    pub control: bool,
    pub alternate: bool,
    pub shift: bool,
}

/// How a shortcut is played on the keyboard.
#[derive(Debug)]
pub enum KeyPlan {
    /// Post one key down and one key up event with the modifier flags set on them.
    FlaggedKey { keycode: u16, flags: ModifierFlags },
    /// Play the strokes in order; `on_main_thread` when they must run on the main dispatch queue.
    Keystrokes { strokes: Vec<KeyStroke>, on_main_thread: bool },
}

/// A key plan as plain values.
pub enum KeyPlanView {
    FlaggedKey { keycode: u16, flags: ModifierFlags },
    Keystrokes { strokes: Seq<KeyStroke>, on_main_thread: bool },
}

impl View for KeyPlan {
    type V = KeyPlanView;

    open spec fn view(&self) -> KeyPlanView {
        match self {
            KeyPlan::FlaggedKey { keycode, flags } => KeyPlanView::FlaggedKey {
                keycode: *keycode,
                flags: *flags,
            },
            KeyPlan::Keystrokes { strokes, on_main_thread } => KeyPlanView::Keystrokes {
                strokes: strokes@,
                on_main_thread: *on_main_thread,
            },
        }
    }
}

/// The modifier keys that the modifier names stand for, in order; unknown names are skipped.
pub open spec fn held_modifiers(names: Seq<Seq<char>>) -> Seq<ModifierKey>
    decreases names.len(),
{
    if names.len() == 0 {
        seq![]
    } else {
        let earlier = held_modifiers(names.drop_last());
        match modifier_key_for(names.last()) {
            Some(k) => earlier.push(k),
            None => earlier,
        }
    }
}

/// Press every known modifier in order, pause if the shortcut has modifiers, click the key
/// if its name is known on the platform, then release the modifiers in reverse order.
pub open spec fn keystrokes_for(s: ShortcutView, platform: Platform) -> Seq<KeyStroke> {
    let held = held_modifiers(s.modifiers);
    held.map_values(|k: ModifierKey| KeyStroke::Press(k)) + (if s.modifiers.len() > 0 {
        seq![KeyStroke::Pause]
    } else {
        seq![]
    }) + (match key_for(s.key, platform) {
        Some(k) => seq![KeyStroke::Click(k)],
        None => seq![],
    }) + held.reverse().map_values(|k: ModifierKey| KeyStroke::Release(k))
}

/// The flags of the modifiers that the names stand for.
pub open spec fn flags_for(names: Seq<Seq<char>>) -> ModifierFlags {
    let held = held_modifiers(names);
    ModifierFlags {
        command: held.contains(ModifierKey::Meta),
        control: held.contains(ModifierKey::Control),
        alternate: held.contains(ModifierKey::Alt),
        shift: held.contains(ModifierKey::Shift),
    }
}

/// On macOS a shortcut with modifiers and a key that has a virtual key code is posted as one
/// flagged key event; every other shortcut is played stroke by stroke, on the main thread on macOS.
pub open spec fn plan_for(s: ShortcutView, platform: Platform) -> KeyPlanView {
    if platform == Platform::MacOs && s.modifiers.len() > 0 && macos_keycode_for(s.key) is Some {
        KeyPlanView::FlaggedKey { keycode: macos_keycode_for(s.key)->0, flags: flags_for(s.modifiers) }
    } else {
        KeyPlanView::Keystrokes {
            strokes: keystrokes_for(s, platform),
            on_main_thread: platform == Platform::MacOs,
        }
    }
}

/// The modifier keys of a shortcut, in the order of its modifier names.
fn held_modifier_keys(shortcut: &Shortcut) -> (held: Vec<ModifierKey>)
    ensures
        held@ == held_modifiers(shortcut@.modifiers),
{
    let ghost names = shortcut@.modifiers;
    let mut held: Vec<ModifierKey> = Vec::new();
    let n = shortcut.modifiers.len();
    for i in 0..n
        invariant
            n == shortcut.modifiers@.len(),
            names == shortcut@.modifiers,
            held@ == held_modifiers(names.take(i as int)),
    {
        assert(names.take(i + 1).drop_last() =~= names.take(i as int));
        if let Some(k) = modifier_to_enigo(shortcut.modifiers[i].0.as_str()) {
            held.push(k);
        }
    }
    assert(names.take(n as int) =~= names);
    held
}

/// The strokes that play a shortcut on `platform`.
pub fn shortcut_keystrokes(shortcut: &Shortcut, platform: Platform) -> (strokes: Vec<KeyStroke>)
    ensures
        strokes@ == keystrokes_for(shortcut@, platform),
{
    let held = held_modifier_keys(shortcut);
    let ghost presses = held@.map_values(|k: ModifierKey| KeyStroke::Press(k));
    let mut strokes: Vec<KeyStroke> = Vec::new();
    for i in 0..held.len()
        invariant
            strokes@ =~= presses.take(i as int),
            presses.len() == held@.len(),
            presses == held@.map_values(|k: ModifierKey| KeyStroke::Press(k)),
    {
        strokes.push(KeyStroke::Press(held[i]));
    }
    let ghost pause: Seq<KeyStroke> = if shortcut@.modifiers.len() > 0 {
        seq![KeyStroke::Pause]
    } else {
        seq![]
    };
    if shortcut.modifiers.len() > 0 {
        strokes.push(KeyStroke::Pause);
    }
    assert(strokes@ =~= presses + pause);
    let ghost click: Seq<KeyStroke> = match key_for(shortcut@.key, platform) {
        Some(k) => seq![KeyStroke::Click(k)],
        None => seq![],
    };
    if let Some(k) = string_to_enigo_key(shortcut.key.as_str(), platform) {
        strokes.push(KeyStroke::Click(k));
    }
    let ghost before_release = strokes@;
    assert(before_release =~= presses + pause + click);
    let ghost releases = held@.reverse().map_values(|k: ModifierKey| KeyStroke::Release(k));
    let mut j = held.len();
    while j > 0
        invariant
            j <= held@.len(),
            releases == held@.reverse().map_values(|k: ModifierKey| KeyStroke::Release(k)),
            releases.len() == held@.len(),
            strokes@ =~= before_release + releases.take(held@.len() - j),
        decreases j,
    {
        j = j - 1;
        strokes.push(KeyStroke::Release(held[j]));
        assert(releases[held@.len() - j - 1] == KeyStroke::Release(held@[j as int]));
        assert(releases.take(held@.len() - j) =~= releases.take(held@.len() - j - 1).push(
            KeyStroke::Release(held@[j as int]),
        ));
    }
    assert(releases.take(held@.len() as int) =~= releases);
    strokes
}

/// The flags of the modifiers of a shortcut.
fn shortcut_flags(shortcut: &Shortcut) -> (flags: ModifierFlags)
    ensures
        flags == flags_for(shortcut@.modifiers),
{
    let held = held_modifier_keys(shortcut);
    let mut flags = ModifierFlags { command: false, control: false, alternate: false, shift: false };
    for i in 0..held.len()
        invariant
            flags.command == held@.take(i as int).contains(ModifierKey::Meta),
            flags.control == held@.take(i as int).contains(ModifierKey::Control),
            flags.alternate == held@.take(i as int).contains(ModifierKey::Alt),
            flags.shift == held@.take(i as int).contains(ModifierKey::Shift),
    {
        let ghost before = held@.take(i as int);
        assert(held@.take(i + 1) =~= before.push(held@[i as int]));
        proof {
            broadcast use vstd::seq_lib::lemma_seq_contains_after_push;

        }
        match held[i] {
            ModifierKey::Meta => flags.command = true,
            ModifierKey::Control => flags.control = true,
            ModifierKey::Alt => flags.alternate = true,
            ModifierKey::Shift => flags.shift = true,
        }
    }
    assert(held@.take(held@.len() as int) =~= held@);
    flags
}

/// Decide how to fire a keyboard shortcut on `platform`.
/// On macOS a shortcut with modifiers whose key has a virtual key code is posted as one key
/// event with the modifier flags set on it, which avoids a race with separately pressed
/// modifiers; media keys and shortcuts without modifiers are played stroke by stroke on the
/// main thread.
pub fn fire_shortcut(shortcut: &Shortcut, platform: Platform) -> (plan: KeyPlan)
    ensures
        plan@ == plan_for(shortcut@, platform),
{
    if platform == Platform::MacOs && shortcut.modifiers.len() > 0 {
        if let Some(keycode) = string_to_macos_keycode(shortcut.key.as_str()) {
            return KeyPlan::FlaggedKey { keycode, flags: shortcut_flags(shortcut) };
        }
    }
    let on_main_thread = platform == Platform::MacOs;
    KeyPlan::Keystrokes { strokes: shortcut_keystrokes(shortcut, platform), on_main_thread }
}

/// Played stroke by stroke, a shortcut presses its modifiers first, in order, and releases
/// them last, in reverse order: the i-th modifier pressed is the i-th from the end released.
pub proof fn lemma_modifiers_released_in_reverse(s: ShortcutView, platform: Platform)
    ensures
        ({
            let strokes = keystrokes_for(s, platform);
            let held = held_modifiers(s.modifiers);
            &&& strokes.len() >= 2 * held.len()
            &&& forall|i: int|
                0 <= i < held.len() ==> strokes[i] == KeyStroke::Press(#[trigger] held[i])
                    && strokes[strokes.len() - 1 - i] == KeyStroke::Release(held[i])
        }),
{
    let strokes = keystrokes_for(s, platform);
    let held = held_modifiers(s.modifiers);
    let presses = held.map_values(|k: ModifierKey| KeyStroke::Press(k));
    let releases = held.reverse().map_values(|k: ModifierKey| KeyStroke::Release(k));
    let middle = (if s.modifiers.len() > 0 {
        seq![KeyStroke::Pause]
    } else {
        seq![]
    }) + (match key_for(s.key, platform) {
        Some(k) => seq![KeyStroke::Click(k)],
        None => seq![],
    });
    assert(strokes =~= presses + middle + releases);
    assert forall|i: int| 0 <= i < held.len() implies strokes[i] == KeyStroke::Press(
        #[trigger] held[i],
    ) && strokes[strokes.len() - 1 - i] == KeyStroke::Release(held[i]) by {
        assert(presses[i] == KeyStroke::Press(held[i]));
        assert(releases[held.len() - 1 - i] == KeyStroke::Release(held.reverse()[held.len() - 1 - i]));
    }
}

/// Single-letter key names are case-insensitive: an upper-case letter names the same key
/// as its lower case, for the simulator and for macOS key codes.
pub proof fn lemma_letter_keys_ignore_case(c: char, platform: Platform)
    requires
        'A' <= c <= 'Z',
    ensures
        key_for(seq![c], platform) == key_for(seq![ascii_lower(c)], platform),
        macos_keycode_for(seq![c]) == macos_keycode_for(seq![ascii_lower(c)]),
        key_for(seq![c], platform) == Some(KeyCode::Unicode(ascii_lower(c))),
{
    let l = ascii_lower(c);
    assert((l as u32) < 0x80);
    assert(ascii_lower(l) == l);
}

/// A UTF-8 encoding is at least as long as the text it encodes.
proof fn lemma_encoding_covers_chars(s: Seq<char>)
    ensures
        encode_utf8(s).len() >= s.len(),
    decreases s.len(),
{
    if s.len() > 0 {
        lemma_encoding_covers_chars(s.drop_first());
    }
}

/// A key name is a single-byte name exactly when its UTF-8 encoding is one byte long.
pub proof fn lemma_single_byte_name_is_one_byte(s: Seq<char>)
    ensures
        is_single_byte_name(s) <==> encode_utf8(s).len() == 1,
{
    if s.len() >= 1 {
        lemma_encoding_covers_chars(s.drop_first());
        let c = s[0] as u32;
        assert(encode_utf8(s) == encode_scalar(c) + encode_utf8(s.drop_first()));
        assert(is_scalar(c)) by {
            vstd::utf8::char_is_scalar(s[0]);
        }
    }
}

/// Every named key of the simulator table, on every platform: the arrow names are the arrow
/// keys, "Return"/"Enter" is the return key, the media and volume names their keys, and the
/// browser keys are named keys on Windows, X11 keysyms on other Unix desktops, and absent on macOS.
pub proof fn lemma_named_simulator_keys(p: Platform)
    ensures
        key_for("Space"@, p) == Some(KeyCode::Space),
        key_for("Return"@, p) == Some(KeyCode::Return),
        key_for("Enter"@, p) == Some(KeyCode::Return),
        key_for("Tab"@, p) == Some(KeyCode::Tab),
        key_for("Escape"@, p) == Some(KeyCode::Escape),
        key_for("Esc"@, p) == Some(KeyCode::Escape),
        key_for("Backspace"@, p) == Some(KeyCode::Backspace),
        key_for("Delete"@, p) == Some(KeyCode::Delete),
        key_for("Up"@, p) == Some(KeyCode::UpArrow),
        key_for("Down"@, p) == Some(KeyCode::DownArrow),
        key_for("Left"@, p) == Some(KeyCode::LeftArrow),
        key_for("Right"@, p) == Some(KeyCode::RightArrow),
        key_for("Home"@, p) == Some(KeyCode::Home),
        key_for("End"@, p) == Some(KeyCode::End),
        key_for("PageUp"@, p) == Some(KeyCode::PageUp),
        key_for("PageDown"@, p) == Some(KeyCode::PageDown),
        key_for("F1"@, p) == Some(KeyCode::F1),
        key_for("F2"@, p) == Some(KeyCode::F2),
        key_for("F3"@, p) == Some(KeyCode::F3),
        key_for("F4"@, p) == Some(KeyCode::F4),
        key_for("F5"@, p) == Some(KeyCode::F5),
        key_for("F6"@, p) == Some(KeyCode::F6),
        key_for("F7"@, p) == Some(KeyCode::F7),
        key_for("F8"@, p) == Some(KeyCode::F8),
        key_for("F9"@, p) == Some(KeyCode::F9),
        key_for("F10"@, p) == Some(KeyCode::F10),
        key_for("F11"@, p) == Some(KeyCode::F11),
        key_for("F12"@, p) == Some(KeyCode::F12),
        key_for("MediaPlayPause"@, p) == Some(KeyCode::MediaPlayPause),
        key_for("MediaNextTrack"@, p) == Some(KeyCode::MediaNextTrack),
        key_for("MediaTrackNext"@, p) == Some(KeyCode::MediaNextTrack),
        key_for("MediaPrevTrack"@, p) == Some(KeyCode::MediaPrevTrack),
        key_for("MediaTrackPrevious"@, p) == Some(KeyCode::MediaPrevTrack),
        key_for("AudioVolumeUp"@, p) == Some(KeyCode::VolumeUp),
        key_for("VolumeUp"@, p) == Some(KeyCode::VolumeUp),
        key_for("AudioVolumeDown"@, p) == Some(KeyCode::VolumeDown),
        key_for("VolumeDown"@, p) == Some(KeyCode::VolumeDown),
        key_for("AudioVolumeMute"@, p) == Some(KeyCode::VolumeMute),
        key_for("VolumeMute"@, p) == Some(KeyCode::VolumeMute),
        p == Platform::Windows ==> key_for("BrowserBack"@, p) == Some(KeyCode::BrowserBack),
        p == Platform::OtherUnix ==> key_for("BrowserBack"@, p) == Some(KeyCode::Other(0x1008FF26)),
        p == Platform::MacOs ==> key_for("BrowserBack"@, p) is None,
        p == Platform::Windows ==> key_for("BrowserForward"@, p) == Some(KeyCode::BrowserForward),
        p == Platform::OtherUnix ==> key_for("BrowserForward"@, p) == Some(KeyCode::Other(0x1008FF27)),
        p == Platform::MacOs ==> key_for("BrowserForward"@, p) is None,
        p == Platform::Windows ==> key_for("BrowserRefresh"@, p) == Some(KeyCode::BrowserRefresh),
        p == Platform::OtherUnix ==> key_for("BrowserRefresh"@, p) == Some(KeyCode::Other(0x1008FF29)),
        p == Platform::MacOs ==> key_for("BrowserRefresh"@, p) is None,
        p == Platform::Windows ==> key_for("BrowserHome"@, p) == Some(KeyCode::BrowserHome),
        p == Platform::OtherUnix ==> key_for("BrowserHome"@, p) == Some(KeyCode::Other(0x1008FF18)),
        p == Platform::MacOs ==> key_for("BrowserHome"@, p) is None,
{
    reveal_strlit("Space");
    assert("Space"@.len() == 5);
    assert("Space"@[0] == 'S');
    assert("Space"@[1] == 'p');
    assert("Space"@[2] == 'a');
    assert("Space"@[3] == 'c');
    assert("Space"@[4] == 'e');
    reveal_strlit("Return");
    assert("Return"@.len() == 6);
    assert("Return"@[0] == 'R');
    assert("Return"@[1] == 'e');
    assert("Return"@[2] == 't');
    assert("Return"@[3] == 'u');
    assert("Return"@[4] == 'r');
    assert("Return"@[5] == 'n');
    reveal_strlit("Enter");
    assert("Enter"@.len() == 5);
    assert("Enter"@[0] == 'E');
    assert("Enter"@[1] == 'n');
    assert("Enter"@[2] == 't');
    assert("Enter"@[3] == 'e');
    assert("Enter"@[4] == 'r');
    reveal_strlit("Tab");
    assert("Tab"@.len() == 3);
    assert("Tab"@[0] == 'T');
    assert("Tab"@[1] == 'a');
    assert("Tab"@[2] == 'b');
    reveal_strlit("Escape");
    assert("Escape"@.len() == 6);
    assert("Escape"@[0] == 'E');
    assert("Escape"@[1] == 's');
    assert("Escape"@[2] == 'c');
    assert("Escape"@[3] == 'a');
    assert("Escape"@[4] == 'p');
    assert("Escape"@[5] == 'e');
    reveal_strlit("Esc");
    assert("Esc"@.len() == 3);
    assert("Esc"@[0] == 'E');
    assert("Esc"@[1] == 's');
    assert("Esc"@[2] == 'c');
    reveal_strlit("Backspace");
    assert("Backspace"@.len() == 9);
    assert("Backspace"@[0] == 'B');
    assert("Backspace"@[1] == 'a');
    assert("Backspace"@[2] == 'c');
    assert("Backspace"@[3] == 'k');
    assert("Backspace"@[4] == 's');
    assert("Backspace"@[5] == 'p');
    assert("Backspace"@[6] == 'a');
    assert("Backspace"@[7] == 'c');
    assert("Backspace"@[8] == 'e');
    reveal_strlit("Delete");
    assert("Delete"@.len() == 6);
    assert("Delete"@[0] == 'D');
    assert("Delete"@[1] == 'e');
    assert("Delete"@[2] == 'l');
    assert("Delete"@[3] == 'e');
    assert("Delete"@[4] == 't');
    assert("Delete"@[5] == 'e');
    reveal_strlit("Up");
    assert("Up"@.len() == 2);
    assert("Up"@[0] == 'U');
    assert("Up"@[1] == 'p');
    reveal_strlit("Down");
    assert("Down"@.len() == 4);
    assert("Down"@[0] == 'D');
    assert("Down"@[1] == 'o');
    assert("Down"@[2] == 'w');
    assert("Down"@[3] == 'n');
    reveal_strlit("Left");
    assert("Left"@.len() == 4);
    assert("Left"@[0] == 'L');
    assert("Left"@[1] == 'e');
    assert("Left"@[2] == 'f');
    assert("Left"@[3] == 't');
    reveal_strlit("Right");
    assert("Right"@.len() == 5);
    assert("Right"@[0] == 'R');
    assert("Right"@[1] == 'i');
    assert("Right"@[2] == 'g');
    assert("Right"@[3] == 'h');
    assert("Right"@[4] == 't');
    reveal_strlit("Home");
    assert("Home"@.len() == 4);
    assert("Home"@[0] == 'H');
    assert("Home"@[1] == 'o');
    assert("Home"@[2] == 'm');
    assert("Home"@[3] == 'e');
    reveal_strlit("End");
    assert("End"@.len() == 3);
    assert("End"@[0] == 'E');
    assert("End"@[1] == 'n');
    assert("End"@[2] == 'd');
    reveal_strlit("PageUp");
    assert("PageUp"@.len() == 6);
    assert("PageUp"@[0] == 'P');
    assert("PageUp"@[1] == 'a');
    assert("PageUp"@[2] == 'g');
    assert("PageUp"@[3] == 'e');
    assert("PageUp"@[4] == 'U');
    assert("PageUp"@[5] == 'p');
    reveal_strlit("PageDown");
    assert("PageDown"@.len() == 8);
    assert("PageDown"@[0] == 'P');
    assert("PageDown"@[1] == 'a');
    assert("PageDown"@[2] == 'g');
    assert("PageDown"@[3] == 'e');
    assert("PageDown"@[4] == 'D');
    assert("PageDown"@[5] == 'o');
    assert("PageDown"@[6] == 'w');
    assert("PageDown"@[7] == 'n');
    reveal_strlit("F1");
    assert("F1"@.len() == 2);
    assert("F1"@[0] == 'F');
    assert("F1"@[1] == '1');
    reveal_strlit("F2");
    assert("F2"@.len() == 2);
    assert("F2"@[0] == 'F');
    assert("F2"@[1] == '2');
    reveal_strlit("F3");
    assert("F3"@.len() == 2);
    assert("F3"@[0] == 'F');
    assert("F3"@[1] == '3');
    reveal_strlit("F4");
    assert("F4"@.len() == 2);
    assert("F4"@[0] == 'F');
    assert("F4"@[1] == '4');
    reveal_strlit("F5");
    assert("F5"@.len() == 2);
    assert("F5"@[0] == 'F');
    assert("F5"@[1] == '5');
    reveal_strlit("F6");
    assert("F6"@.len() == 2);
    assert("F6"@[0] == 'F');
    assert("F6"@[1] == '6');
    reveal_strlit("F7");
    assert("F7"@.len() == 2);
    assert("F7"@[0] == 'F');
    assert("F7"@[1] == '7');
    reveal_strlit("F8");
    assert("F8"@.len() == 2);
    assert("F8"@[0] == 'F');
    assert("F8"@[1] == '8');
    reveal_strlit("F9");
    assert("F9"@.len() == 2);
    assert("F9"@[0] == 'F');
    assert("F9"@[1] == '9');
    reveal_strlit("F10");
    assert("F10"@.len() == 3);
    assert("F10"@[0] == 'F');
    assert("F10"@[1] == '1');
    assert("F10"@[2] == '0');
    reveal_strlit("F11");
    assert("F11"@.len() == 3);
    assert("F11"@[0] == 'F');
    assert("F11"@[1] == '1');
    assert("F11"@[2] == '1');
    reveal_strlit("F12");
    assert("F12"@.len() == 3);
    assert("F12"@[0] == 'F');
    assert("F12"@[1] == '1');
    assert("F12"@[2] == '2');
    reveal_strlit("MediaPlayPause");
    assert("MediaPlayPause"@.len() == 14);
    assert("MediaPlayPause"@[0] == 'M');
    assert("MediaPlayPause"@[1] == 'e');
    assert("MediaPlayPause"@[2] == 'd');
    assert("MediaPlayPause"@[3] == 'i');
    assert("MediaPlayPause"@[4] == 'a');
    assert("MediaPlayPause"@[5] == 'P');
    assert("MediaPlayPause"@[6] == 'l');
    assert("MediaPlayPause"@[7] == 'a');
    assert("MediaPlayPause"@[8] == 'y');
    assert("MediaPlayPause"@[9] == 'P');
    assert("MediaPlayPause"@[10] == 'a');
    assert("MediaPlayPause"@[11] == 'u');
    assert("MediaPlayPause"@[12] == 's');
    assert("MediaPlayPause"@[13] == 'e');
    reveal_strlit("MediaNextTrack");
    assert("MediaNextTrack"@.len() == 14);
    assert("MediaNextTrack"@[0] == 'M');
    assert("MediaNextTrack"@[1] == 'e');
    assert("MediaNextTrack"@[2] == 'd');
    assert("MediaNextTrack"@[3] == 'i');
    assert("MediaNextTrack"@[4] == 'a');
    assert("MediaNextTrack"@[5] == 'N');
    assert("MediaNextTrack"@[6] == 'e');
    assert("MediaNextTrack"@[7] == 'x');
    assert("MediaNextTrack"@[8] == 't');
    assert("MediaNextTrack"@[9] == 'T');
    assert("MediaNextTrack"@[10] == 'r');
    assert("MediaNextTrack"@[11] == 'a');
    assert("MediaNextTrack"@[12] == 'c');
    assert("MediaNextTrack"@[13] == 'k');
    reveal_strlit("MediaTrackNext");
    assert("MediaTrackNext"@.len() == 14);
    assert("MediaTrackNext"@[0] == 'M');
    assert("MediaTrackNext"@[1] == 'e');
    assert("MediaTrackNext"@[2] == 'd');
    assert("MediaTrackNext"@[3] == 'i');
    assert("MediaTrackNext"@[4] == 'a');
    assert("MediaTrackNext"@[5] == 'T');
    assert("MediaTrackNext"@[6] == 'r');
    assert("MediaTrackNext"@[7] == 'a');
    assert("MediaTrackNext"@[8] == 'c');
    assert("MediaTrackNext"@[9] == 'k');
    assert("MediaTrackNext"@[10] == 'N');
    assert("MediaTrackNext"@[11] == 'e');
    assert("MediaTrackNext"@[12] == 'x');
    assert("MediaTrackNext"@[13] == 't');
    reveal_strlit("MediaPrevTrack");
    assert("MediaPrevTrack"@.len() == 14);
    assert("MediaPrevTrack"@[0] == 'M');
    assert("MediaPrevTrack"@[1] == 'e');
    assert("MediaPrevTrack"@[2] == 'd');
    assert("MediaPrevTrack"@[3] == 'i');
    assert("MediaPrevTrack"@[4] == 'a');
    assert("MediaPrevTrack"@[5] == 'P');
    assert("MediaPrevTrack"@[6] == 'r');
    assert("MediaPrevTrack"@[7] == 'e');
    assert("MediaPrevTrack"@[8] == 'v');
    assert("MediaPrevTrack"@[9] == 'T');
    assert("MediaPrevTrack"@[10] == 'r');
    assert("MediaPrevTrack"@[11] == 'a');
    assert("MediaPrevTrack"@[12] == 'c');
    assert("MediaPrevTrack"@[13] == 'k');
    reveal_strlit("MediaTrackPrevious");
    assert("MediaTrackPrevious"@.len() == 18);
    assert("MediaTrackPrevious"@[0] == 'M');
    assert("MediaTrackPrevious"@[1] == 'e');
    assert("MediaTrackPrevious"@[2] == 'd');
    assert("MediaTrackPrevious"@[3] == 'i');
    assert("MediaTrackPrevious"@[4] == 'a');
    assert("MediaTrackPrevious"@[5] == 'T');
    assert("MediaTrackPrevious"@[6] == 'r');
    assert("MediaTrackPrevious"@[7] == 'a');
    assert("MediaTrackPrevious"@[8] == 'c');
    assert("MediaTrackPrevious"@[9] == 'k');
    assert("MediaTrackPrevious"@[10] == 'P');
    assert("MediaTrackPrevious"@[11] == 'r');
    assert("MediaTrackPrevious"@[12] == 'e');
    assert("MediaTrackPrevious"@[13] == 'v');
    assert("MediaTrackPrevious"@[14] == 'i');
    assert("MediaTrackPrevious"@[15] == 'o');
    assert("MediaTrackPrevious"@[16] == 'u');
    assert("MediaTrackPrevious"@[17] == 's');
    reveal_strlit("AudioVolumeUp");
    assert("AudioVolumeUp"@.len() == 13);
    assert("AudioVolumeUp"@[0] == 'A');
    assert("AudioVolumeUp"@[1] == 'u');
    assert("AudioVolumeUp"@[2] == 'd');
    assert("AudioVolumeUp"@[3] == 'i');
    assert("AudioVolumeUp"@[4] == 'o');
    assert("AudioVolumeUp"@[5] == 'V');
    assert("AudioVolumeUp"@[6] == 'o');
    assert("AudioVolumeUp"@[7] == 'l');
    assert("AudioVolumeUp"@[8] == 'u');
    assert("AudioVolumeUp"@[9] == 'm');
    assert("AudioVolumeUp"@[10] == 'e');
    assert("AudioVolumeUp"@[11] == 'U');
    assert("AudioVolumeUp"@[12] == 'p');
    reveal_strlit("VolumeUp");
    assert("VolumeUp"@.len() == 8);
    assert("VolumeUp"@[0] == 'V');
    assert("VolumeUp"@[1] == 'o');
    assert("VolumeUp"@[2] == 'l');
    assert("VolumeUp"@[3] == 'u');
    assert("VolumeUp"@[4] == 'm');
    assert("VolumeUp"@[5] == 'e');
    assert("VolumeUp"@[6] == 'U');
    assert("VolumeUp"@[7] == 'p');
    reveal_strlit("AudioVolumeDown");
    assert("AudioVolumeDown"@.len() == 15);
    assert("AudioVolumeDown"@[0] == 'A');
    assert("AudioVolumeDown"@[1] == 'u');
    assert("AudioVolumeDown"@[2] == 'd');
    assert("AudioVolumeDown"@[3] == 'i');
    assert("AudioVolumeDown"@[4] == 'o');
    assert("AudioVolumeDown"@[5] == 'V');
    assert("AudioVolumeDown"@[6] == 'o');
    assert("AudioVolumeDown"@[7] == 'l');
    assert("AudioVolumeDown"@[8] == 'u');
    assert("AudioVolumeDown"@[9] == 'm');
    assert("AudioVolumeDown"@[10] == 'e');
    assert("AudioVolumeDown"@[11] == 'D');
    assert("AudioVolumeDown"@[12] == 'o');
    assert("AudioVolumeDown"@[13] == 'w');
    assert("AudioVolumeDown"@[14] == 'n');
    reveal_strlit("VolumeDown");
    assert("VolumeDown"@.len() == 10);
    assert("VolumeDown"@[0] == 'V');
    assert("VolumeDown"@[1] == 'o');
    assert("VolumeDown"@[2] == 'l');
    assert("VolumeDown"@[3] == 'u');
    assert("VolumeDown"@[4] == 'm');
    assert("VolumeDown"@[5] == 'e');
    assert("VolumeDown"@[6] == 'D');
    assert("VolumeDown"@[7] == 'o');
    assert("VolumeDown"@[8] == 'w');
    assert("VolumeDown"@[9] == 'n');
    reveal_strlit("AudioVolumeMute");
    assert("AudioVolumeMute"@.len() == 15);
    assert("AudioVolumeMute"@[0] == 'A');
    assert("AudioVolumeMute"@[1] == 'u');
    assert("AudioVolumeMute"@[2] == 'd');
    assert("AudioVolumeMute"@[3] == 'i');
    assert("AudioVolumeMute"@[4] == 'o');
    assert("AudioVolumeMute"@[5] == 'V');
    assert("AudioVolumeMute"@[6] == 'o');
    assert("AudioVolumeMute"@[7] == 'l');
    assert("AudioVolumeMute"@[8] == 'u');
    assert("AudioVolumeMute"@[9] == 'm');
    assert("AudioVolumeMute"@[10] == 'e');
    assert("AudioVolumeMute"@[11] == 'M');
    assert("AudioVolumeMute"@[12] == 'u');
    assert("AudioVolumeMute"@[13] == 't');
    assert("AudioVolumeMute"@[14] == 'e');
    reveal_strlit("VolumeMute");
    assert("VolumeMute"@.len() == 10);
    assert("VolumeMute"@[0] == 'V');
    assert("VolumeMute"@[1] == 'o');
    assert("VolumeMute"@[2] == 'l');
    assert("VolumeMute"@[3] == 'u');
    assert("VolumeMute"@[4] == 'm');
    assert("VolumeMute"@[5] == 'e');
    assert("VolumeMute"@[6] == 'M');
    assert("VolumeMute"@[7] == 'u');
    assert("VolumeMute"@[8] == 't');
    assert("VolumeMute"@[9] == 'e');
    reveal_strlit("BrowserBack");
    assert("BrowserBack"@.len() == 11);
    assert("BrowserBack"@[0] == 'B');
    assert("BrowserBack"@[1] == 'r');
    assert("BrowserBack"@[2] == 'o');
    assert("BrowserBack"@[3] == 'w');
    assert("BrowserBack"@[4] == 's');
    assert("BrowserBack"@[5] == 'e');
    assert("BrowserBack"@[6] == 'r');
    assert("BrowserBack"@[7] == 'B');
    assert("BrowserBack"@[8] == 'a');
    assert("BrowserBack"@[9] == 'c');
    assert("BrowserBack"@[10] == 'k');
    reveal_strlit("BrowserForward");
    assert("BrowserForward"@.len() == 14);
    assert("BrowserForward"@[0] == 'B');
    assert("BrowserForward"@[1] == 'r');
    assert("BrowserForward"@[2] == 'o');
    assert("BrowserForward"@[3] == 'w');
    assert("BrowserForward"@[4] == 's');
    assert("BrowserForward"@[5] == 'e');
    assert("BrowserForward"@[6] == 'r');
    assert("BrowserForward"@[7] == 'F');
    assert("BrowserForward"@[8] == 'o');
    assert("BrowserForward"@[9] == 'r');
    assert("BrowserForward"@[10] == 'w');
    assert("BrowserForward"@[11] == 'a');
    assert("BrowserForward"@[12] == 'r');
    assert("BrowserForward"@[13] == 'd');
    reveal_strlit("BrowserRefresh");
    assert("BrowserRefresh"@.len() == 14);
    assert("BrowserRefresh"@[0] == 'B');
    assert("BrowserRefresh"@[1] == 'r');
    assert("BrowserRefresh"@[2] == 'o');
    assert("BrowserRefresh"@[3] == 'w');
    assert("BrowserRefresh"@[4] == 's');
    assert("BrowserRefresh"@[5] == 'e');
    assert("BrowserRefresh"@[6] == 'r');
    assert("BrowserRefresh"@[7] == 'R');
    assert("BrowserRefresh"@[8] == 'e');
    assert("BrowserRefresh"@[9] == 'f');
    assert("BrowserRefresh"@[10] == 'r');
    assert("BrowserRefresh"@[11] == 'e');
    assert("BrowserRefresh"@[12] == 's');
    assert("BrowserRefresh"@[13] == 'h');
    reveal_strlit("BrowserHome");
    assert("BrowserHome"@.len() == 11);
    assert("BrowserHome"@[0] == 'B');
    assert("BrowserHome"@[1] == 'r');
    assert("BrowserHome"@[2] == 'o');
    assert("BrowserHome"@[3] == 'w');
    assert("BrowserHome"@[4] == 's');
    assert("BrowserHome"@[5] == 'e');
    assert("BrowserHome"@[6] == 'r');
    assert("BrowserHome"@[7] == 'H');
    assert("BrowserHome"@[8] == 'o');
    assert("BrowserHome"@[9] == 'm');
    assert("BrowserHome"@[10] == 'e');
}

/// ASCII lower case turns each capital letter into its small letter and leaves every
/// other character as it is.
pub proof fn lemma_ascii_lower_letters(c: char)
    ensures
        ascii_lower('A') == 'a',
        ascii_lower('B') == 'b',
        ascii_lower('C') == 'c',
        ascii_lower('D') == 'd',
        ascii_lower('E') == 'e',
        ascii_lower('F') == 'f',
        ascii_lower('G') == 'g',
        ascii_lower('H') == 'h',
        ascii_lower('I') == 'i',
        ascii_lower('J') == 'j',
        ascii_lower('K') == 'k',
        ascii_lower('L') == 'l',
        ascii_lower('M') == 'm',
        ascii_lower('N') == 'n',
        ascii_lower('O') == 'o',
        ascii_lower('P') == 'p',
        ascii_lower('Q') == 'q',
        ascii_lower('R') == 'r',
        ascii_lower('S') == 's',
        ascii_lower('T') == 't',
        ascii_lower('U') == 'u',
        ascii_lower('V') == 'v',
        ascii_lower('W') == 'w',
        ascii_lower('X') == 'x',
        ascii_lower('Y') == 'y',
        ascii_lower('Z') == 'z',
        !('A' <= c <= 'Z') ==> ascii_lower(c) == c,
        'A' <= c <= 'Z' ==> 'a' <= ascii_lower(c) <= 'z',
{
    assert(('A' as u32) + 32 == ('a' as u32));
    assert(('B' as u32) + 32 == ('b' as u32));
    assert(('C' as u32) + 32 == ('c' as u32));
    assert(('D' as u32) + 32 == ('d' as u32));
    assert(('E' as u32) + 32 == ('e' as u32));
    assert(('F' as u32) + 32 == ('f' as u32));
    assert(('G' as u32) + 32 == ('g' as u32));
    assert(('H' as u32) + 32 == ('h' as u32));
    assert(('I' as u32) + 32 == ('i' as u32));
    assert(('J' as u32) + 32 == ('j' as u32));
    assert(('K' as u32) + 32 == ('k' as u32));
    assert(('L' as u32) + 32 == ('l' as u32));
    assert(('M' as u32) + 32 == ('m' as u32));
    assert(('N' as u32) + 32 == ('n' as u32));
    assert(('O' as u32) + 32 == ('o' as u32));
    assert(('P' as u32) + 32 == ('p' as u32));
    assert(('Q' as u32) + 32 == ('q' as u32));
    assert(('R' as u32) + 32 == ('r' as u32));
    assert(('S' as u32) + 32 == ('s' as u32));
    assert(('T' as u32) + 32 == ('t' as u32));
    assert(('U' as u32) + 32 == ('u' as u32));
    assert(('V' as u32) + 32 == ('v' as u32));
    assert(('W' as u32) + 32 == ('w' as u32));
    assert(('X' as u32) + 32 == ('x' as u32));
    assert(('Y' as u32) + 32 == ('y' as u32));
    assert(('Z' as u32) + 32 == ('z' as u32));
}

/// A key name of one ASCII character types that character, in lower case, on every platform.
pub proof fn lemma_character_simulator_keys(c: char, p: Platform)
    requires
        (c as u32) < 0x80,
    ensures
        key_for(seq![c], p) == Some(KeyCode::Unicode(ascii_lower(c))),
        'A' <= c <= 'Z' ==> key_for(seq![c], p) == key_for(seq![ascii_lower(c)], p),
{
    lemma_ascii_lower_letters(c);
    let l = ascii_lower(c);
    assert((l as u32) < 0x80);
}

/// Every named key's macOS virtual key code (Carbon kVK_* codes): Space 0x31, Return 0x24,
/// Tab 0x30, Escape 0x35, Delete (backspace) 0x33, Forward delete 0x75, the arrows Up 0x7E,
/// Down 0x7D, Left 0x7B, Right 0x7C, Home 0x73, End 0x77, Page Up 0x74, Page Down 0x79 and
/// the function keys F1 to F12.
pub proof fn lemma_macos_named_keycodes()
    ensures
        macos_keycode_for("Space"@) == Some(0x31u16),
        macos_keycode_for("Return"@) == Some(0x24u16),
        macos_keycode_for("Enter"@) == Some(0x24u16),
        macos_keycode_for("Tab"@) == Some(0x30u16),
        macos_keycode_for("Escape"@) == Some(0x35u16),
        macos_keycode_for("Esc"@) == Some(0x35u16),
        macos_keycode_for("Backspace"@) == Some(0x33u16),
        macos_keycode_for("Delete"@) == Some(0x75u16),
        macos_keycode_for("Up"@) == Some(0x7Eu16),
        macos_keycode_for("Down"@) == Some(0x7Du16),
        macos_keycode_for("Left"@) == Some(0x7Bu16),
        macos_keycode_for("Right"@) == Some(0x7Cu16),
        macos_keycode_for("Home"@) == Some(0x73u16),
        macos_keycode_for("End"@) == Some(0x77u16),
        macos_keycode_for("PageUp"@) == Some(0x74u16),
        macos_keycode_for("PageDown"@) == Some(0x79u16),
        macos_keycode_for("F1"@) == Some(0x7Au16),
        macos_keycode_for("F2"@) == Some(0x78u16),
        macos_keycode_for("F3"@) == Some(0x63u16),
        macos_keycode_for("F4"@) == Some(0x76u16),
        macos_keycode_for("F5"@) == Some(0x60u16),
        macos_keycode_for("F6"@) == Some(0x61u16),
        macos_keycode_for("F7"@) == Some(0x62u16),
        macos_keycode_for("F8"@) == Some(0x64u16),
        macos_keycode_for("F9"@) == Some(0x65u16),
        macos_keycode_for("F10"@) == Some(0x6Du16),
        macos_keycode_for("F11"@) == Some(0x67u16),
        macos_keycode_for("F12"@) == Some(0x6Fu16),
        macos_keycode_for("MediaPlayPause"@) is None,
        macos_keycode_for("BrowserBack"@) is None,
{
    reveal_strlit("Space");
    assert("Space"@.len() == 5);
    assert("Space"@[0] == 'S');
    assert("Space"@[1] == 'p');
    assert("Space"@[2] == 'a');
    assert("Space"@[3] == 'c');
    assert("Space"@[4] == 'e');
    reveal_strlit("Return");
    assert("Return"@.len() == 6);
    assert("Return"@[0] == 'R');
    assert("Return"@[1] == 'e');
    assert("Return"@[2] == 't');
    assert("Return"@[3] == 'u');
    assert("Return"@[4] == 'r');
    assert("Return"@[5] == 'n');
    reveal_strlit("Enter");
    assert("Enter"@.len() == 5);
    assert("Enter"@[0] == 'E');
    assert("Enter"@[1] == 'n');
    assert("Enter"@[2] == 't');
    assert("Enter"@[3] == 'e');
    assert("Enter"@[4] == 'r');
    reveal_strlit("Tab");
    assert("Tab"@.len() == 3);
    assert("Tab"@[0] == 'T');
    assert("Tab"@[1] == 'a');
    assert("Tab"@[2] == 'b');
    reveal_strlit("Escape");
    assert("Escape"@.len() == 6);
    assert("Escape"@[0] == 'E');
    assert("Escape"@[1] == 's');
    assert("Escape"@[2] == 'c');
    assert("Escape"@[3] == 'a');
    assert("Escape"@[4] == 'p');
    assert("Escape"@[5] == 'e');
    reveal_strlit("Esc");
    assert("Esc"@.len() == 3);
    assert("Esc"@[0] == 'E');
    assert("Esc"@[1] == 's');
    assert("Esc"@[2] == 'c');
    reveal_strlit("Backspace");
    assert("Backspace"@.len() == 9);
    assert("Backspace"@[0] == 'B');
    assert("Backspace"@[1] == 'a');
    assert("Backspace"@[2] == 'c');
    assert("Backspace"@[3] == 'k');
    assert("Backspace"@[4] == 's');
    assert("Backspace"@[5] == 'p');
    assert("Backspace"@[6] == 'a');
    assert("Backspace"@[7] == 'c');
    assert("Backspace"@[8] == 'e');
    reveal_strlit("Delete");
    assert("Delete"@.len() == 6);
    assert("Delete"@[0] == 'D');
    assert("Delete"@[1] == 'e');
    assert("Delete"@[2] == 'l');
    assert("Delete"@[3] == 'e');
    assert("Delete"@[4] == 't');
    assert("Delete"@[5] == 'e');
    reveal_strlit("Up");
    assert("Up"@.len() == 2);
    assert("Up"@[0] == 'U');
    assert("Up"@[1] == 'p');
    reveal_strlit("Down");
    assert("Down"@.len() == 4);
    assert("Down"@[0] == 'D');
    assert("Down"@[1] == 'o');
    assert("Down"@[2] == 'w');
    assert("Down"@[3] == 'n');
    reveal_strlit("Left");
    assert("Left"@.len() == 4);
    assert("Left"@[0] == 'L');
    assert("Left"@[1] == 'e');
    assert("Left"@[2] == 'f');
    assert("Left"@[3] == 't');
    reveal_strlit("Right");
    assert("Right"@.len() == 5);
    assert("Right"@[0] == 'R');
    assert("Right"@[1] == 'i');
    assert("Right"@[2] == 'g');
    assert("Right"@[3] == 'h');
    assert("Right"@[4] == 't');
    reveal_strlit("Home");
    assert("Home"@.len() == 4);
    assert("Home"@[0] == 'H');
    assert("Home"@[1] == 'o');
    assert("Home"@[2] == 'm');
    assert("Home"@[3] == 'e');
    reveal_strlit("End");
    assert("End"@.len() == 3);
    assert("End"@[0] == 'E');
    assert("End"@[1] == 'n');
    assert("End"@[2] == 'd');
    reveal_strlit("PageUp");
    assert("PageUp"@.len() == 6);
    assert("PageUp"@[0] == 'P');
    assert("PageUp"@[1] == 'a');
    assert("PageUp"@[2] == 'g');
    assert("PageUp"@[3] == 'e');
    assert("PageUp"@[4] == 'U');
    assert("PageUp"@[5] == 'p');
    reveal_strlit("PageDown");
    assert("PageDown"@.len() == 8);
    assert("PageDown"@[0] == 'P');
    assert("PageDown"@[1] == 'a');
    assert("PageDown"@[2] == 'g');
    assert("PageDown"@[3] == 'e');
    assert("PageDown"@[4] == 'D');
    assert("PageDown"@[5] == 'o');
    assert("PageDown"@[6] == 'w');
    assert("PageDown"@[7] == 'n');
    reveal_strlit("F1");
    assert("F1"@.len() == 2);
    assert("F1"@[0] == 'F');
    assert("F1"@[1] == '1');
    reveal_strlit("F2");
    assert("F2"@.len() == 2);
    assert("F2"@[0] == 'F');
    assert("F2"@[1] == '2');
    reveal_strlit("F3");
    assert("F3"@.len() == 2);
    assert("F3"@[0] == 'F');
    assert("F3"@[1] == '3');
    reveal_strlit("F4");
    assert("F4"@.len() == 2);
    assert("F4"@[0] == 'F');
    assert("F4"@[1] == '4');
    reveal_strlit("F5");
    assert("F5"@.len() == 2);
    assert("F5"@[0] == 'F');
    assert("F5"@[1] == '5');
    reveal_strlit("F6");
    assert("F6"@.len() == 2);
    assert("F6"@[0] == 'F');
    assert("F6"@[1] == '6');
    reveal_strlit("F7");
    assert("F7"@.len() == 2);
    assert("F7"@[0] == 'F');
    assert("F7"@[1] == '7');
    reveal_strlit("F8");
    assert("F8"@.len() == 2);
    assert("F8"@[0] == 'F');
    assert("F8"@[1] == '8');
    reveal_strlit("F9");
    assert("F9"@.len() == 2);
    assert("F9"@[0] == 'F');
    assert("F9"@[1] == '9');
    reveal_strlit("F10");
    assert("F10"@.len() == 3);
    assert("F10"@[0] == 'F');
    assert("F10"@[1] == '1');
    assert("F10"@[2] == '0');
    reveal_strlit("F11");
    assert("F11"@.len() == 3);
    assert("F11"@[0] == 'F');
    assert("F11"@[1] == '1');
    assert("F11"@[2] == '1');
    reveal_strlit("F12");
    assert("F12"@.len() == 3);
    assert("F12"@[0] == 'F');
    assert("F12"@[1] == '1');
    assert("F12"@[2] == '2');
    reveal_strlit("MediaPlayPause");
    assert("MediaPlayPause"@.len() == 14);
    assert("MediaPlayPause"@[0] == 'M');
    assert("MediaPlayPause"@[1] == 'e');
    assert("MediaPlayPause"@[2] == 'd');
    assert("MediaPlayPause"@[3] == 'i');
    assert("MediaPlayPause"@[4] == 'a');
    assert("MediaPlayPause"@[5] == 'P');
    assert("MediaPlayPause"@[6] == 'l');
    assert("MediaPlayPause"@[7] == 'a');
    assert("MediaPlayPause"@[8] == 'y');
    assert("MediaPlayPause"@[9] == 'P');
    assert("MediaPlayPause"@[10] == 'a');
    assert("MediaPlayPause"@[11] == 'u');
    assert("MediaPlayPause"@[12] == 's');
    assert("MediaPlayPause"@[13] == 'e');
    reveal_strlit("BrowserBack");
    assert("BrowserBack"@.len() == 11);
    assert("BrowserBack"@[0] == 'B');
    assert("BrowserBack"@[1] == 'r');
    assert("BrowserBack"@[2] == 'o');
    assert("BrowserBack"@[3] == 'w');
    assert("BrowserBack"@[4] == 's');
    assert("BrowserBack"@[5] == 'e');
    assert("BrowserBack"@[6] == 'r');
    assert("BrowserBack"@[7] == 'B');
    assert("BrowserBack"@[8] == 'a');
    assert("BrowserBack"@[9] == 'c');
    assert("BrowserBack"@[10] == 'k');
}

/// Every character key's macOS virtual key code (Carbon kVK_ANSI_* codes), the same for a
/// capital letter as for its small letter.
pub proof fn lemma_macos_character_keycodes()
    ensures
        macos_keycode_for("a"@) == Some(0x00u16),
        macos_keycode_for("A"@) == Some(0x00u16),
        macos_keycode_for("s"@) == Some(0x01u16),
        macos_keycode_for("S"@) == Some(0x01u16),
        macos_keycode_for("d"@) == Some(0x02u16),
        macos_keycode_for("D"@) == Some(0x02u16),
        macos_keycode_for("f"@) == Some(0x03u16),
        macos_keycode_for("F"@) == Some(0x03u16),
        macos_keycode_for("h"@) == Some(0x04u16),
        macos_keycode_for("H"@) == Some(0x04u16),
        macos_keycode_for("g"@) == Some(0x05u16),
        macos_keycode_for("G"@) == Some(0x05u16),
        macos_keycode_for("z"@) == Some(0x06u16),
        macos_keycode_for("Z"@) == Some(0x06u16),
        macos_keycode_for("x"@) == Some(0x07u16),
        macos_keycode_for("X"@) == Some(0x07u16),
        macos_keycode_for("c"@) == Some(0x08u16),
        macos_keycode_for("C"@) == Some(0x08u16),
        macos_keycode_for("v"@) == Some(0x09u16),
        macos_keycode_for("V"@) == Some(0x09u16),
        macos_keycode_for("b"@) == Some(0x0Bu16),
        macos_keycode_for("B"@) == Some(0x0Bu16),
        macos_keycode_for("q"@) == Some(0x0Cu16),
        macos_keycode_for("Q"@) == Some(0x0Cu16),
        macos_keycode_for("w"@) == Some(0x0Du16),
        macos_keycode_for("W"@) == Some(0x0Du16),
        macos_keycode_for("e"@) == Some(0x0Eu16),
        macos_keycode_for("E"@) == Some(0x0Eu16),
        macos_keycode_for("r"@) == Some(0x0Fu16),
        macos_keycode_for("R"@) == Some(0x0Fu16),
        macos_keycode_for("y"@) == Some(0x10u16),
        macos_keycode_for("Y"@) == Some(0x10u16),
        macos_keycode_for("t"@) == Some(0x11u16),
        macos_keycode_for("T"@) == Some(0x11u16),
        macos_keycode_for("1"@) == Some(0x12u16),
        macos_keycode_for("2"@) == Some(0x13u16),
        macos_keycode_for("3"@) == Some(0x14u16),
        macos_keycode_for("4"@) == Some(0x15u16),
        macos_keycode_for("6"@) == Some(0x16u16),
        macos_keycode_for("5"@) == Some(0x17u16),
        macos_keycode_for("="@) == Some(0x18u16),
        macos_keycode_for("9"@) == Some(0x19u16),
        macos_keycode_for("7"@) == Some(0x1Au16),
        macos_keycode_for("-"@) == Some(0x1Bu16),
        macos_keycode_for("8"@) == Some(0x1Cu16),
        macos_keycode_for("0"@) == Some(0x1Du16),
        macos_keycode_for("]"@) == Some(0x1Eu16),
        macos_keycode_for("o"@) == Some(0x1Fu16),
        macos_keycode_for("O"@) == Some(0x1Fu16),
        macos_keycode_for("u"@) == Some(0x20u16),
        macos_keycode_for("U"@) == Some(0x20u16),
        macos_keycode_for("["@) == Some(0x21u16),
        macos_keycode_for("i"@) == Some(0x22u16),
        macos_keycode_for("I"@) == Some(0x22u16),
        macos_keycode_for("p"@) == Some(0x23u16),
        macos_keycode_for("P"@) == Some(0x23u16),
        macos_keycode_for("l"@) == Some(0x25u16),
        macos_keycode_for("L"@) == Some(0x25u16),
        macos_keycode_for("j"@) == Some(0x26u16),
        macos_keycode_for("J"@) == Some(0x26u16),
        macos_keycode_for("'"@) == Some(0x27u16),
        macos_keycode_for("k"@) == Some(0x28u16),
        macos_keycode_for("K"@) == Some(0x28u16),
        macos_keycode_for(";"@) == Some(0x29u16),
        macos_keycode_for("\\"@) == Some(0x2Au16),
        macos_keycode_for(","@) == Some(0x2Bu16),
        macos_keycode_for("/"@) == Some(0x2Cu16),
        macos_keycode_for("n"@) == Some(0x2Du16),
        macos_keycode_for("N"@) == Some(0x2Du16),
        macos_keycode_for("m"@) == Some(0x2Eu16),
        macos_keycode_for("M"@) == Some(0x2Eu16),
        macos_keycode_for("."@) == Some(0x2Fu16),
        macos_keycode_for("`"@) == Some(0x32u16),
{
    reveal_strlit("a");
    assert("a"@.len() == 1);
    assert("a"@[0] == 'a');
    reveal_strlit("A");
    assert("A"@.len() == 1);
    assert("A"@[0] == 'A');
    assert(ascii_lower('A') == 'a') by { assert(('A' as u32) + 32 == ('a' as u32)); }
    reveal_strlit("s");
    assert("s"@.len() == 1);
    assert("s"@[0] == 's');
    reveal_strlit("S");
    assert("S"@.len() == 1);
    assert("S"@[0] == 'S');
    assert(ascii_lower('S') == 's') by { assert(('S' as u32) + 32 == ('s' as u32)); }
    reveal_strlit("d");
    assert("d"@.len() == 1);
    assert("d"@[0] == 'd');
    reveal_strlit("D");
    assert("D"@.len() == 1);
    assert("D"@[0] == 'D');
    assert(ascii_lower('D') == 'd') by { assert(('D' as u32) + 32 == ('d' as u32)); }
    reveal_strlit("f");
    assert("f"@.len() == 1);
    assert("f"@[0] == 'f');
    reveal_strlit("F");
    assert("F"@.len() == 1);
    assert("F"@[0] == 'F');
    assert(ascii_lower('F') == 'f') by { assert(('F' as u32) + 32 == ('f' as u32)); }
    reveal_strlit("h");
    assert("h"@.len() == 1);
    assert("h"@[0] == 'h');
    reveal_strlit("H");
    assert("H"@.len() == 1);
    assert("H"@[0] == 'H');
    assert(ascii_lower('H') == 'h') by { assert(('H' as u32) + 32 == ('h' as u32)); }
    reveal_strlit("g");
    assert("g"@.len() == 1);
    assert("g"@[0] == 'g');
    reveal_strlit("G");
    assert("G"@.len() == 1);
    assert("G"@[0] == 'G');
    assert(ascii_lower('G') == 'g') by { assert(('G' as u32) + 32 == ('g' as u32)); }
    reveal_strlit("z");
    assert("z"@.len() == 1);
    assert("z"@[0] == 'z');
    reveal_strlit("Z");
    assert("Z"@.len() == 1);
    assert("Z"@[0] == 'Z');
    assert(ascii_lower('Z') == 'z') by { assert(('Z' as u32) + 32 == ('z' as u32)); }
    reveal_strlit("x");
    assert("x"@.len() == 1);
    assert("x"@[0] == 'x');
    reveal_strlit("X");
    assert("X"@.len() == 1);
    assert("X"@[0] == 'X');
    assert(ascii_lower('X') == 'x') by { assert(('X' as u32) + 32 == ('x' as u32)); }
    reveal_strlit("c");
    assert("c"@.len() == 1);
    assert("c"@[0] == 'c');
    reveal_strlit("C");
    assert("C"@.len() == 1);
    assert("C"@[0] == 'C');
    assert(ascii_lower('C') == 'c') by { assert(('C' as u32) + 32 == ('c' as u32)); }
    reveal_strlit("v");
    assert("v"@.len() == 1);
    assert("v"@[0] == 'v');
    reveal_strlit("V");
    assert("V"@.len() == 1);
    assert("V"@[0] == 'V');
    assert(ascii_lower('V') == 'v') by { assert(('V' as u32) + 32 == ('v' as u32)); }
    reveal_strlit("b");
    assert("b"@.len() == 1);
    assert("b"@[0] == 'b');
    reveal_strlit("B");
    assert("B"@.len() == 1);
    assert("B"@[0] == 'B');
    assert(ascii_lower('B') == 'b') by { assert(('B' as u32) + 32 == ('b' as u32)); }
    reveal_strlit("q");
    assert("q"@.len() == 1);
    assert("q"@[0] == 'q');
    reveal_strlit("Q");
    assert("Q"@.len() == 1);
    assert("Q"@[0] == 'Q');
    assert(ascii_lower('Q') == 'q') by { assert(('Q' as u32) + 32 == ('q' as u32)); }
    reveal_strlit("w");
    assert("w"@.len() == 1);
    assert("w"@[0] == 'w');
    reveal_strlit("W");
    assert("W"@.len() == 1);
    assert("W"@[0] == 'W');
    assert(ascii_lower('W') == 'w') by { assert(('W' as u32) + 32 == ('w' as u32)); }
    reveal_strlit("e");
    assert("e"@.len() == 1);
    assert("e"@[0] == 'e');
    reveal_strlit("E");
    assert("E"@.len() == 1);
    assert("E"@[0] == 'E');
    assert(ascii_lower('E') == 'e') by { assert(('E' as u32) + 32 == ('e' as u32)); }
    reveal_strlit("r");
    assert("r"@.len() == 1);
    assert("r"@[0] == 'r');
    reveal_strlit("R");
    assert("R"@.len() == 1);
    assert("R"@[0] == 'R');
    assert(ascii_lower('R') == 'r') by { assert(('R' as u32) + 32 == ('r' as u32)); }
    reveal_strlit("y");
    assert("y"@.len() == 1);
    assert("y"@[0] == 'y');
    reveal_strlit("Y");
    assert("Y"@.len() == 1);
    assert("Y"@[0] == 'Y');
    assert(ascii_lower('Y') == 'y') by { assert(('Y' as u32) + 32 == ('y' as u32)); }
    reveal_strlit("t");
    assert("t"@.len() == 1);
    assert("t"@[0] == 't');
    reveal_strlit("T");
    assert("T"@.len() == 1);
    assert("T"@[0] == 'T');
    assert(ascii_lower('T') == 't') by { assert(('T' as u32) + 32 == ('t' as u32)); }
    reveal_strlit("1");
    assert("1"@.len() == 1);
    assert("1"@[0] == '1');
    reveal_strlit("2");
    assert("2"@.len() == 1);
    assert("2"@[0] == '2');
    reveal_strlit("3");
    assert("3"@.len() == 1);
    assert("3"@[0] == '3');
    reveal_strlit("4");
    assert("4"@.len() == 1);
    assert("4"@[0] == '4');
    reveal_strlit("6");
    assert("6"@.len() == 1);
    assert("6"@[0] == '6');
    reveal_strlit("5");
    assert("5"@.len() == 1);
    assert("5"@[0] == '5');
    reveal_strlit("=");
    assert("="@.len() == 1);
    assert("="@[0] == '=');
    reveal_strlit("9");
    assert("9"@.len() == 1);
    assert("9"@[0] == '9');
    reveal_strlit("7");
    assert("7"@.len() == 1);
    assert("7"@[0] == '7');
    reveal_strlit("-");
    assert("-"@.len() == 1);
    assert("-"@[0] == '-');
    reveal_strlit("8");
    assert("8"@.len() == 1);
    assert("8"@[0] == '8');
    reveal_strlit("0");
    assert("0"@.len() == 1);
    assert("0"@[0] == '0');
    reveal_strlit("]");
    assert("]"@.len() == 1);
    assert("]"@[0] == ']');
    reveal_strlit("o");
    assert("o"@.len() == 1);
    assert("o"@[0] == 'o');
    reveal_strlit("O");
    assert("O"@.len() == 1);
    assert("O"@[0] == 'O');
    assert(ascii_lower('O') == 'o') by { assert(('O' as u32) + 32 == ('o' as u32)); }
    reveal_strlit("u");
    assert("u"@.len() == 1);
    assert("u"@[0] == 'u');
    reveal_strlit("U");
    assert("U"@.len() == 1);
    assert("U"@[0] == 'U');
    assert(ascii_lower('U') == 'u') by { assert(('U' as u32) + 32 == ('u' as u32)); }
    reveal_strlit("[");
    assert("["@.len() == 1);
    assert("["@[0] == '[');
    reveal_strlit("i");
    assert("i"@.len() == 1);
    assert("i"@[0] == 'i');
    reveal_strlit("I");
    assert("I"@.len() == 1);
    assert("I"@[0] == 'I');
    assert(ascii_lower('I') == 'i') by { assert(('I' as u32) + 32 == ('i' as u32)); }
    reveal_strlit("p");
    assert("p"@.len() == 1);
    assert("p"@[0] == 'p');
    reveal_strlit("P");
    assert("P"@.len() == 1);
    assert("P"@[0] == 'P');
    assert(ascii_lower('P') == 'p') by { assert(('P' as u32) + 32 == ('p' as u32)); }
    reveal_strlit("l");
    assert("l"@.len() == 1);
    assert("l"@[0] == 'l');
    reveal_strlit("L");
    assert("L"@.len() == 1);
    assert("L"@[0] == 'L');
    assert(ascii_lower('L') == 'l') by { assert(('L' as u32) + 32 == ('l' as u32)); }
    reveal_strlit("j");
    assert("j"@.len() == 1);
    assert("j"@[0] == 'j');
    reveal_strlit("J");
    assert("J"@.len() == 1);
    assert("J"@[0] == 'J');
    assert(ascii_lower('J') == 'j') by { assert(('J' as u32) + 32 == ('j' as u32)); }
    reveal_strlit("'");
    assert("'"@.len() == 1);
    assert("'"@[0] == '\'');
    reveal_strlit("k");
    assert("k"@.len() == 1);
    assert("k"@[0] == 'k');
    reveal_strlit("K");
    assert("K"@.len() == 1);
    assert("K"@[0] == 'K');
    assert(ascii_lower('K') == 'k') by { assert(('K' as u32) + 32 == ('k' as u32)); }
    reveal_strlit(";");
    assert(";"@.len() == 1);
    assert(";"@[0] == ';');
    reveal_strlit("\\");
    assert("\\"@.len() == 1);
    assert("\\"@[0] == '\\');
    reveal_strlit(",");
    assert(","@.len() == 1);
    assert(","@[0] == ',');
    reveal_strlit("/");
    assert("/"@.len() == 1);
    assert("/"@[0] == '/');
    reveal_strlit("n");
    assert("n"@.len() == 1);
    assert("n"@[0] == 'n');
    reveal_strlit("N");
    assert("N"@.len() == 1);
    assert("N"@[0] == 'N');
    assert(ascii_lower('N') == 'n') by { assert(('N' as u32) + 32 == ('n' as u32)); }
    reveal_strlit("m");
    assert("m"@.len() == 1);
    assert("m"@[0] == 'm');
    reveal_strlit("M");
    assert("M"@.len() == 1);
    assert("M"@[0] == 'M');
    assert(ascii_lower('M') == 'm') by { assert(('M' as u32) + 32 == ('m' as u32)); }
    reveal_strlit(".");
    assert("."@.len() == 1);
    assert("."@[0] == '.');
    reveal_strlit("`");
    assert("`"@.len() == 1);
    assert("`"@[0] == '`');
}

/// The modifier names: "Ctrl" and "Control" are Control, "Alt" is Alt, "Shift" is Shift, and
/// "Meta", "Super", "Cmd" and "Command" are Meta (the Command key on macOS).
pub proof fn lemma_modifier_names()
    ensures
        modifier_key_for("Ctrl"@) == Some(ModifierKey::Control),
        modifier_key_for("Control"@) == Some(ModifierKey::Control),
        modifier_key_for("Alt"@) == Some(ModifierKey::Alt),
        modifier_key_for("Shift"@) == Some(ModifierKey::Shift),
        modifier_key_for("Meta"@) == Some(ModifierKey::Meta),
        modifier_key_for("Super"@) == Some(ModifierKey::Meta),
        modifier_key_for("Cmd"@) == Some(ModifierKey::Meta),
        modifier_key_for("Command"@) == Some(ModifierKey::Meta),
        modifier_key_for("ctrl"@) is None,
{
    reveal_strlit("Ctrl");
    assert("Ctrl"@.len() == 4);
    assert("Ctrl"@[0] == 'C');
    assert("Ctrl"@[1] == 't');
    assert("Ctrl"@[2] == 'r');
    assert("Ctrl"@[3] == 'l');
    reveal_strlit("Control");
    assert("Control"@.len() == 7);
    assert("Control"@[0] == 'C');
    assert("Control"@[1] == 'o');
    assert("Control"@[2] == 'n');
    assert("Control"@[3] == 't');
    assert("Control"@[4] == 'r');
    assert("Control"@[5] == 'o');
    assert("Control"@[6] == 'l');
    reveal_strlit("Alt");
    assert("Alt"@.len() == 3);
    assert("Alt"@[0] == 'A');
    assert("Alt"@[1] == 'l');
    assert("Alt"@[2] == 't');
    reveal_strlit("Shift");
    assert("Shift"@.len() == 5);
    assert("Shift"@[0] == 'S');
    assert("Shift"@[1] == 'h');
    assert("Shift"@[2] == 'i');
    assert("Shift"@[3] == 'f');
    assert("Shift"@[4] == 't');
    reveal_strlit("Meta");
    assert("Meta"@.len() == 4);
    assert("Meta"@[0] == 'M');
    assert("Meta"@[1] == 'e');
    assert("Meta"@[2] == 't');
    assert("Meta"@[3] == 'a');
    reveal_strlit("Super");
    assert("Super"@.len() == 5);
    assert("Super"@[0] == 'S');
    assert("Super"@[1] == 'u');
    assert("Super"@[2] == 'p');
    assert("Super"@[3] == 'e');
    assert("Super"@[4] == 'r');
    reveal_strlit("Cmd");
    assert("Cmd"@.len() == 3);
    assert("Cmd"@[0] == 'C');
    assert("Cmd"@[1] == 'm');
    assert("Cmd"@[2] == 'd');
    reveal_strlit("Command");
    assert("Command"@.len() == 7);
    assert("Command"@[0] == 'C');
    assert("Command"@[1] == 'o');
    assert("Command"@[2] == 'm');
    assert("Command"@[3] == 'm');
    assert("Command"@[4] == 'a');
    assert("Command"@[5] == 'n');
    assert("Command"@[6] == 'd');
    reveal_strlit("ctrl");
    assert("ctrl"@.len() == 4);
    assert("ctrl"@[0] == 'c');
    assert("ctrl"@[1] == 't');
    assert("ctrl"@[2] == 'r');
    assert("ctrl"@[3] == 'l');
}

/// A modifier key is among the held modifiers exactly when some modifier name stands for it.
pub proof fn lemma_held_modifier_iff_named(names: Seq<Seq<char>>, k: ModifierKey)
    ensures
        held_modifiers(names).contains(k) <==> exists|i: int|
            0 <= i < names.len() && modifier_key_for(#[trigger] names[i]) == Some(k),
    decreases names.len(),
{
    broadcast use vstd::seq_lib::lemma_seq_contains_after_push;

    if names.len() > 0 {
        let earlier = names.drop_last();
        lemma_held_modifier_iff_named(earlier, k);
        if held_modifiers(names).contains(k) {
            if held_modifiers(earlier).contains(k) {
                let i = choose|i: int|
                    0 <= i < earlier.len() && modifier_key_for(#[trigger] earlier[i]) == Some(k);
                assert(names[i] == earlier[i]);
            } else {
                assert(modifier_key_for(names[names.len() - 1]) == Some(k));
            }
        }
        if exists|i: int| 0 <= i < names.len() && modifier_key_for(#[trigger] names[i]) == Some(k) {
            let i = choose|i: int|
                0 <= i < names.len() && modifier_key_for(#[trigger] names[i]) == Some(k);
            if i < names.len() - 1 {
                assert(earlier[i] == names[i]);
            }
        }
    } else {
        assert(held_modifiers(names) == Seq::<ModifierKey>::empty());
    }
}

/// When every modifier name is known, each one is held, in the order given.
pub proof fn lemma_known_modifiers_all_held(names: Seq<Seq<char>>)
    requires
        forall|i: int| 0 <= i < names.len() ==> modifier_key_for(#[trigger] names[i]) is Some,
    ensures
        held_modifiers(names).len() == names.len(),
        forall|i: int|
            0 <= i < names.len() ==> held_modifiers(names)[i] == modifier_key_for(
                #[trigger] names[i],
            )->0,
    decreases names.len(),
{
    if names.len() > 0 {
        let earlier = names.drop_last();
        assert forall|i: int| 0 <= i < earlier.len() implies modifier_key_for(
            #[trigger] earlier[i],
        ) is Some by {
            assert(earlier[i] == names[i]);
        }
        lemma_known_modifiers_all_held(earlier);
        assert forall|i: int| 0 <= i < names.len() implies held_modifiers(names)[i]
            == modifier_key_for(#[trigger] names[i])->0 by {
            if i < names.len() - 1 {
                assert(earlier[i] == names[i]);
            }
        }
    }
}

/// The flags of a flagged key event: each flag is set exactly when some modifier name stands
/// for that modifier key (Command for Meta, Control for Control, Option for Alt, Shift for Shift).
pub proof fn lemma_flags_follow_modifier_names(names: Seq<Seq<char>>)
    ensures
        flags_for(names).command <==> exists|i: int|
            0 <= i < names.len() && modifier_key_for(#[trigger] names[i]) == Some(ModifierKey::Meta),
        flags_for(names).control <==> exists|i: int|
            0 <= i < names.len() && modifier_key_for(#[trigger] names[i]) == Some(
                ModifierKey::Control,
            ),
        flags_for(names).alternate <==> exists|i: int|
            0 <= i < names.len() && modifier_key_for(#[trigger] names[i]) == Some(ModifierKey::Alt),
        flags_for(names).shift <==> exists|i: int|
            0 <= i < names.len() && modifier_key_for(#[trigger] names[i]) == Some(ModifierKey::Shift),
{
    lemma_held_modifier_iff_named(names, ModifierKey::Meta);
    lemma_held_modifier_iff_named(names, ModifierKey::Control);
    lemma_held_modifier_iff_named(names, ModifierKey::Alt);
    lemma_held_modifier_iff_named(names, ModifierKey::Shift);
}

/// Played stroke by stroke on platform `p`, a shortcut clicks exactly the key its name has on
/// that same platform (and nothing when the name is unknown there), pauses exactly when it has
/// modifier names, and its other strokes are modifier presses and releases.
pub proof fn lemma_click_is_the_key_on_that_platform(s: ShortcutView, p: Platform)
    ensures
        forall|k: KeyCode|
            #[trigger] keystrokes_for(s, p).contains(KeyStroke::Click(k)) <==> key_for(s.key, p)
                == Some(k),
        keystrokes_for(s, p).contains(KeyStroke::Pause) <==> s.modifiers.len() > 0,
        forall|i: int|
            0 <= i < keystrokes_for(s, p).len() ==> match #[trigger] keystrokes_for(s, p)[i] {
                KeyStroke::Press(m) => held_modifiers(s.modifiers).contains(m),
                KeyStroke::Release(m) => held_modifiers(s.modifiers).contains(m),
                KeyStroke::Pause => s.modifiers.len() > 0,
                KeyStroke::Click(k) => key_for(s.key, p) == Some(k),
            },
{
    let strokes = keystrokes_for(s, p);
    let held = held_modifiers(s.modifiers);
    let presses = held.map_values(|k: ModifierKey| KeyStroke::Press(k));
    let releases = held.reverse().map_values(|k: ModifierKey| KeyStroke::Release(k));
    let pause: Seq<KeyStroke> = if s.modifiers.len() > 0 {
        seq![KeyStroke::Pause]
    } else {
        seq![]
    };
    let click: Seq<KeyStroke> = match key_for(s.key, p) {
        Some(k) => seq![KeyStroke::Click(k)],
        None => seq![],
    };
    assert(strokes =~= presses + pause + click + releases);
    let a: int = presses.len() as int;
    let b: int = a + pause.len();
    let c: int = b + click.len();
    assert forall|i: int| 0 <= i < strokes.len() implies match #[trigger] strokes[i] {
        KeyStroke::Press(m) => held.contains(m),
        KeyStroke::Release(m) => held.contains(m),
        KeyStroke::Pause => s.modifiers.len() > 0,
        KeyStroke::Click(k) => key_for(s.key, p) == Some(k),
    } by {
        if i < a {
            assert(strokes[i] == KeyStroke::Press(held[i]));
            assert(held.contains(held[i]));
        } else if i < b {
            assert(strokes[i] == pause[i - a]);
        } else if i < c {
            assert(strokes[i] == click[i - b]);
        } else {
            let j = i - c;
            assert(strokes[i] == releases[j]);
            assert(releases[j] == KeyStroke::Release(held[held.len() - 1 - j]));
            assert(held.contains(held[held.len() - 1 - j]));
        }
    }
    assert forall|k: KeyCode|
        #[trigger] strokes.contains(KeyStroke::Click(k)) <==> key_for(s.key, p) == Some(k) by {
        if strokes.contains(KeyStroke::Click(k)) {
            let i = choose|i: int| 0 <= i < strokes.len() && strokes[i] == KeyStroke::Click(k);
            assert(match strokes[i] {
                KeyStroke::Press(m) => held.contains(m),
                KeyStroke::Release(m) => held.contains(m),
                KeyStroke::Pause => s.modifiers.len() > 0,
                KeyStroke::Click(k) => key_for(s.key, p) == Some(k),
            });
        }
        if key_for(s.key, p) == Some(k) {
            assert(strokes[b] == KeyStroke::Click(k));
        }
    }
    if strokes.contains(KeyStroke::Pause) {
        let i = choose|i: int| 0 <= i < strokes.len() && strokes[i] == KeyStroke::Pause;
        assert(match strokes[i] {
            KeyStroke::Press(m) => held.contains(m),
            KeyStroke::Release(m) => held.contains(m),
            KeyStroke::Pause => s.modifiers.len() > 0,
            KeyStroke::Click(k) => key_for(s.key, p) == Some(k),
        });
    }
    if s.modifiers.len() > 0 {
        assert(strokes[a] == KeyStroke::Pause);
    }
}

/// How a shortcut is fired: only on macOS, and only for a shortcut with modifier names whose
/// key has a macOS key code, as one key event with that key code and the flags of its
/// modifier names; every other shortcut is played stroke by stroke, clicking the key its name
/// has on that platform, on the main thread exactly on macOS.
pub proof fn lemma_plan_by_platform(s: ShortcutView, p: Platform)
    ensures
        plan_for(s, p) is FlaggedKey <==> (p == Platform::MacOs && s.modifiers.len() > 0
            && macos_keycode_for(s.key) is Some),
        plan_for(s, p) matches KeyPlanView::FlaggedKey { keycode, flags } ==> {
            &&& Some(keycode) == macos_keycode_for(s.key)
            &&& flags.control <==> exists|i: int|
                0 <= i < s.modifiers.len() && modifier_key_for(#[trigger] s.modifiers[i]) == Some(
                    ModifierKey::Control,
                )
            &&& flags.alternate <==> exists|i: int|
                0 <= i < s.modifiers.len() && modifier_key_for(#[trigger] s.modifiers[i]) == Some(
                    ModifierKey::Alt,
                )
            &&& flags.command <==> exists|i: int|
                0 <= i < s.modifiers.len() && modifier_key_for(#[trigger] s.modifiers[i]) == Some(
                    ModifierKey::Meta,
                )
            &&& flags.shift <==> exists|i: int|
                0 <= i < s.modifiers.len() && modifier_key_for(#[trigger] s.modifiers[i]) == Some(
                    ModifierKey::Shift,
                )
        },
        plan_for(s, p) matches KeyPlanView::Keystrokes { strokes, on_main_thread } ==> {
            &&& on_main_thread == (p == Platform::MacOs)
            &&& forall|k: KeyCode|
                #[trigger] strokes.contains(KeyStroke::Click(k)) <==> key_for(s.key, p) == Some(k)
        },
{
    lemma_flags_follow_modifier_names(s.modifiers);
    lemma_click_is_the_key_on_that_platform(s, p);
}

} // verus!
