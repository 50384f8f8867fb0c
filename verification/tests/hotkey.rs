use clips_app::hotkey::{parse_hotkey, Held, Hotkey, HotkeyTracker, Key, Modifier, Target};

const NONE: Held = Held { alt: false, ctrl: false, shift: false, meta: false };

#[test]
fn default_hotkey() {
    assert_eq!(parse_hotkey("Alt+X"), Hotkey { modifiers: vec![Modifier::Alt], target: Target::X });
}

#[test]
fn hotkey_names() {
    assert_eq!(
        parse_hotkey("ctrl + SHIFT+ Super +v"),
        Hotkey {
            modifiers: vec![Modifier::Ctrl, Modifier::Shift, Modifier::Super],
            target: Target::V,
        }
    );
    assert_eq!(
        parse_hotkey("Control+Meta+Win+S"),
        Hotkey {
            modifiers: vec![Modifier::Ctrl, Modifier::Super, Modifier::Super],
            target: Target::S,
        }
    );
    assert_eq!(parse_hotkey("c"), Hotkey { modifiers: Vec::new(), target: Target::C });
}

#[test]
fn hotkey_passes_over_unknown_parts() {
    assert_eq!(parse_hotkey(""), Hotkey { modifiers: Vec::new(), target: Target::X });
    assert_eq!(parse_hotkey("Hyper+Q"), Hotkey { modifiers: Vec::new(), target: Target::X });
    assert_eq!(
        parse_hotkey("+alt++F1+"),
        Hotkey { modifiers: vec![Modifier::Alt], target: Target::X }
    );
    assert_eq!(parse_hotkey("alt x"), Hotkey { modifiers: Vec::new(), target: Target::X });
}

#[test]
fn hotkey_takes_the_last_target() {
    assert_eq!(
        parse_hotkey("alt+c+shift+s"),
        Hotkey { modifiers: vec![Modifier::Alt, Modifier::Shift], target: Target::S }
    );
}

#[test]
fn hotkey_fires_when_all_modifiers_are_held() {
    let mut tracker = HotkeyTracker::new(parse_hotkey("Ctrl+Alt+X"));
    assert_eq!(tracker.held_keys(), NONE);
    assert!(!tracker.on_key(Key::Target(Target::X), true));
    assert!(!tracker.on_key(Key::Modifier(Modifier::Ctrl), true));
    assert!(!tracker.on_key(Key::Target(Target::X), true));
    assert!(!tracker.on_key(Key::Modifier(Modifier::Alt), true));
    assert_eq!(tracker.held_keys(), Held { alt: true, ctrl: true, shift: false, meta: false });
    assert!(tracker.on_key(Key::Target(Target::X), true));
    assert!(!tracker.on_key(Key::Target(Target::X), false));
    assert!(tracker.on_key(Key::Target(Target::X), true));
    assert!(!tracker.on_key(Key::Target(Target::C), true));
    assert!(!tracker.on_key(Key::Modifier(Modifier::Alt), false));
    assert!(!tracker.on_key(Key::Target(Target::X), true));
}

#[test]
fn hotkey_tracks_its_own_modifiers_only() {
    let mut tracker = HotkeyTracker::new(parse_hotkey("Alt+X"));
    assert!(!tracker.on_key(Key::Modifier(Modifier::Shift), true));
    assert_eq!(tracker.held_keys(), NONE);
    assert!(!tracker.on_key(Key::Modifier(Modifier::Alt), true));
    // Other modifiers held besides do not matter.
    assert!(tracker.on_key(Key::Target(Target::X), true));
}

#[test]
fn hotkey_without_modifiers_fires_on_the_key_alone() {
    let mut tracker = HotkeyTracker::new(parse_hotkey("v"));
    assert!(tracker.on_key(Key::Target(Target::V), true));
    assert!(!tracker.on_key(Key::Target(Target::V), false));
    assert!(!tracker.on_key(Key::Target(Target::X), true));
}
