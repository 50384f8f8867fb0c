use vstd::prelude::*;
use crate::text::{
    pieces, same_text, split, to_lowercase, trim, trimmed, unicode_lowercase,
};

verus! {

/// A key that has to be held for the hotkey.
#[derive(Debug, Clone, Copy, PartialEq, Eq, Structural)]
pub enum Modifier {
    Alt,
    Ctrl,
    Shift,
    Super,
}

/// A key that fires the hotkey.
#[derive(Debug, Clone, Copy, PartialEq, Eq, Structural)]
pub enum Target {
    X,
    C,
    V,
    S,
}

/// A key of the keyboard that the hotkey can be made of.
#[derive(Debug, Clone, Copy, PartialEq, Eq, Structural)]
pub enum Key {
    Modifier(Modifier),
    Target(Target),
}

/// A combination of keys: the modifiers, in the order they were named, and the
/// key that fires.
#[derive(Debug, PartialEq, Eq)]
pub struct Hotkey {
    pub modifiers: Vec<Modifier>,
    pub target: Target,
}

pub struct HotkeyView {
    pub modifiers: Seq<Modifier>,
    pub target: Target,
}

impl View for Hotkey {
    type V = HotkeyView;

    open spec fn view(&self) -> HotkeyView {
        HotkeyView { modifiers: self.modifiers@, target: self.target }
    }
}

/// The key that a word names, the word being trimmed and in lower case.
pub open spec fn key_of_word(word: Seq<char>) -> Option<Key> {
    if word == "alt"@ {
        Some(Key::Modifier(Modifier::Alt))
    } else if word == "ctrl"@ || word == "control"@ {
        Some(Key::Modifier(Modifier::Ctrl))
    } else if word == "shift"@ {
        Some(Key::Modifier(Modifier::Shift))
    } else if word == "super"@ || word == "meta"@ || word == "win"@ {
        Some(Key::Modifier(Modifier::Super))
    } else if word == "x"@ {
        Some(Key::Target(Target::X))
    } else if word == "c"@ {
        Some(Key::Target(Target::C))
    } else if word == "v"@ {
        Some(Key::Target(Target::V))
    } else if word == "s"@ {
        Some(Key::Target(Target::S))
    } else {
        None
    }
}

/// The key that one part of a hotkey's text names, whatever its case and the
/// whitespace around it.
pub open spec fn key_of_part(part: Seq<char>) -> Option<Key> {
    key_of_word(unicode_lowercase(trimmed(part)))
}

/// The hotkey that the parts `parts[..upto]` name: every modifier they name, in
/// order, and the last target they name, `X` where they name none.
pub open spec fn hotkey_of_parts(parts: Seq<Seq<char>>, upto: int) -> HotkeyView
    decreases upto,
{
    if upto <= 0 {
        HotkeyView { modifiers: Seq::empty(), target: Target::X }
    } else {
        let before = hotkey_of_parts(parts, upto - 1);
        match key_of_part(parts[upto - 1]) {
            Some(Key::Modifier(modifier)) => HotkeyView {
                modifiers: before.modifiers.push(modifier),
                ..before
            },
            Some(Key::Target(target)) => HotkeyView { target, ..before },
            None => before,
        }
    }
}

/// The hotkey that a text such as `Alt+X` names: its parts are what the plus
/// signs separate, and a part that names no key is passed over.
pub open spec fn hotkey_of(text: Seq<char>) -> HotkeyView {
    hotkey_of_parts(pieces(text, '+'), pieces(text, '+').len() as int)
}

fn parse_key(part: &str) -> (key: Option<Key>)
    ensures
        key == key_of_part(part@),
{
    let lowered = to_lowercase(trim(part).as_str());
    let word = lowered.as_str();
    if same_text(word, "alt") {
        Some(Key::Modifier(Modifier::Alt))
    } else if same_text(word, "ctrl") || same_text(word, "control") {
        Some(Key::Modifier(Modifier::Ctrl))
    } else if same_text(word, "shift") {
        Some(Key::Modifier(Modifier::Shift))
    } else if same_text(word, "super") || same_text(word, "meta") || same_text(word, "win") {
        Some(Key::Modifier(Modifier::Super))
    } else if same_text(word, "x") {
        Some(Key::Target(Target::X))
    } else if same_text(word, "c") {
        Some(Key::Target(Target::C))
    } else if same_text(word, "v") {
        Some(Key::Target(Target::V))
    } else if same_text(word, "s") {
        Some(Key::Target(Target::S))
    } else {
        None
    }
}

/// Reads a hotkey from its text.
pub fn parse_hotkey(hotkey: &str) -> (parsed: Hotkey)
    ensures
        parsed@ == hotkey_of(hotkey@),
{
    let parts = split(hotkey, '+');
    let mut modifiers: Vec<Modifier> = Vec::new();
    let mut target = Target::X;
    let mut i: usize = 0;
    while i < parts.len()
        invariant
            i <= parts.len(),
            (HotkeyView { modifiers: modifiers@, target }) == hotkey_of_parts(
                parts.deep_view(),
                i as int,
            ),
        decreases parts.len() - i,
    {
        assert(parts.deep_view()[i as int] == parts[i as int]@);
        match parse_key(parts[i].as_str()) {
            Some(Key::Modifier(modifier)) => {
                modifiers.push(modifier);
            },
            Some(Key::Target(key)) => {
                target = key;
            },
            None => {},
        }
        i = i + 1;
    }
    Hotkey { modifiers, target }
}

/// Which modifiers are held down.
#[derive(Debug, Clone, Copy, PartialEq, Eq, Structural)]
pub struct Held {
    pub alt: bool,
    pub ctrl: bool,
    pub shift: bool,
    pub meta: bool,
}

impl Held {
    pub open spec fn holds(self, modifier: Modifier) -> bool {
        match modifier {
            Modifier::Alt => self.alt,
            Modifier::Ctrl => self.ctrl,
            Modifier::Shift => self.shift,
            Modifier::Super => self.meta,
        }
    }

    pub open spec fn with(self, modifier: Modifier, down: bool) -> Held {
        match modifier {
            Modifier::Alt => Held { alt: down, ..self },
            Modifier::Ctrl => Held { ctrl: down, ..self },
            Modifier::Shift => Held { shift: down, ..self },
            Modifier::Super => Held { meta: down, ..self },
        }
    }

    fn is_held(&self, modifier: Modifier) -> (b: bool)
        ensures
            b == self.holds(modifier),
    {
        match modifier {
            Modifier::Alt => self.alt,
            Modifier::Ctrl => self.ctrl,
            Modifier::Shift => self.shift,
            Modifier::Super => self.meta,
        }
    }

    fn set(&mut self, modifier: Modifier, down: bool)
        ensures
            *final(self) == old(self).with(modifier, down),
    {
        match modifier {
            Modifier::Alt => {
                self.alt = down;
            },
            Modifier::Ctrl => {
                self.ctrl = down;
            },
            Modifier::Shift => {
                self.shift = down;
            },
            Modifier::Super => {
                self.meta = down;
            },
        }
    }
}

impl HotkeyView {
    /// Whether the hotkey asks for `modifier`.
    pub open spec fn asks_for(self, modifier: Modifier) -> bool {
        self.modifiers.contains(modifier)
    }

    /// Whether every modifier that the hotkey asks for is held.
    pub open spec fn satisfied_by(self, held: Held) -> bool {
        forall|i: int| 0 <= i < self.modifiers.len() ==> held.holds(#[trigger] self.modifiers[i])
    }

    /// What is held after a key event: only the hotkey's own modifiers are kept
    /// track of.
    pub open spec fn held_after(self, held: Held, key: Key, pressed: bool) -> Held {
        match key {
            Key::Modifier(modifier) if self.asks_for(modifier) => held.with(modifier, pressed),
            _ => held,
        }
    }

    /// Whether a key event fires the hotkey: the target goes down while every
    /// modifier is held.
    pub open spec fn fires(self, held: Held, key: Key, pressed: bool) -> bool {
        pressed && key == Key::Target(self.target) && self.satisfied_by(held)
    }
}

/// Follows the keyboard and says when the hotkey is struck.
#[derive(Debug, PartialEq, Eq)]
pub struct HotkeyTracker {
    hotkey: Hotkey,
    held: Held,
}

impl HotkeyTracker {
    pub closed spec fn hotkey(self) -> HotkeyView {
        self.hotkey@
    }

    pub closed spec fn held(self) -> Held {
        self.held
    }

    /// A tracker for `hotkey`, with no key held.
    pub fn new(hotkey: Hotkey) -> (tracker: Self)
        ensures
            tracker.hotkey() == hotkey@,
            tracker.held() == (Held { alt: false, ctrl: false, shift: false, meta: false }),
    {
        HotkeyTracker { hotkey, held: Held { alt: false, ctrl: false, shift: false, meta: false } }
    }

    pub fn held_keys(&self) -> (held: Held)
        ensures
            held == self.held(),
    {
        self.held
    }

    fn asks_for(&self, modifier: Modifier) -> (b: bool)
        ensures
            b == self.hotkey().asks_for(modifier),
    {
        let mut i: usize = 0;
        while i < self.hotkey.modifiers.len()
            invariant
                i <= self.hotkey.modifiers.len(),
                forall|j: int| 0 <= j < i ==> self.hotkey.modifiers@[j] != modifier,
            decreases self.hotkey.modifiers.len() - i,
        {
            if self.hotkey.modifiers[i] == modifier {
                return true;
            }
            i = i + 1;
        }
        false
    }

    fn satisfied(&self) -> (b: bool)
        ensures
            b == self.hotkey().satisfied_by(self.held()),
    {
        let mut i: usize = 0;
        while i < self.hotkey.modifiers.len()
            invariant
                i <= self.hotkey.modifiers.len(),
                forall|j: int| 0 <= j < i ==> self.held.holds(#[trigger] self.hotkey.modifiers@[j]),
            decreases self.hotkey.modifiers.len() - i,
        {
            if !self.held.is_held(self.hotkey.modifiers[i]) {
                assert(!self.held().holds(self.hotkey().modifiers[i as int]));
                return false;
            }
            i = i + 1;
        }
        true
    }

    /// Takes in one key event; `pressed` says whether the key went down. Returns
    /// whether the event strikes the hotkey.
    pub fn on_key(&mut self, key: Key, pressed: bool) -> (fired: bool)
        ensures
            final(self).hotkey() == old(self).hotkey(),
            final(self).held() == old(self).hotkey().held_after(old(self).held(), key, pressed),
            fired == old(self).hotkey().fires(final(self).held(), key, pressed),
    {
        match key {
            Key::Modifier(modifier) => {
                if self.asks_for(modifier) {
                    self.held.set(modifier, pressed);
                }
                false
            },
            Key::Target(target) => pressed && target == self.hotkey.target && self.satisfied(),
        }
    }
}

} // verus!
