//! Key identifiers and the bindings from keys to action kinds.

use vstd::prelude::*;
use vstd::string::StrSliceExecFns;
use crate::settings::ActionKind;

verus! {

/// A key of the function row. These are the only keys that can be bound.
#[derive(Clone, Copy, Debug, PartialEq, Eq, Structural)]
pub enum FunctionKey {
    F1,
    F2,
    F3,
    F4,
    F5,
    F6,
    F7,
    F8,
    F9,
    F10,
    F11,
    F12,
}

/// The two halves of a key stroke, as the hotkey source reports them.
#[derive(Clone, Copy, Debug, PartialEq, Eq, Structural)]
pub enum KeyState {
    Pressed,
    Released,
}

impl FunctionKey {
    /// The key's place in the function row, from 1 to 12.
    pub open spec fn ordinal(self) -> nat {
        match self {
            FunctionKey::F1 => 1,
            FunctionKey::F2 => 2,
            FunctionKey::F3 => 3,
            FunctionKey::F4 => 4,
            FunctionKey::F5 => 5,
            FunctionKey::F6 => 6,
            FunctionKey::F7 => 7,
            FunctionKey::F8 => 8,
            FunctionKey::F9 => 9,
            FunctionKey::F10 => 10,
            FunctionKey::F11 => 11,
            FunctionKey::F12 => 12,
        }
    }

    /// The identifier that names the key: the letter `F` and the key's
    /// ordinal in decimal, without padding.
    pub open spec fn label(self) -> Seq<char> {
        match self {
            FunctionKey::F1 => seq!['F', '1'],
            FunctionKey::F2 => seq!['F', '2'],
            FunctionKey::F3 => seq!['F', '3'],
            FunctionKey::F4 => seq!['F', '4'],
            FunctionKey::F5 => seq!['F', '5'],
            FunctionKey::F6 => seq!['F', '6'],
            FunctionKey::F7 => seq!['F', '7'],
            FunctionKey::F8 => seq!['F', '8'],
            FunctionKey::F9 => seq!['F', '9'],
            FunctionKey::F10 => seq!['F', '1', '0'],
            FunctionKey::F11 => seq!['F', '1', '1'],
            FunctionKey::F12 => seq!['F', '1', '2'],
        }
    }

    /// The key with the given ordinal, if there is one.
    pub open spec fn with_ordinal(n: nat) -> Option<FunctionKey> {
        if n == 1 {
            Some(FunctionKey::F1)
        } else if n == 2 {
            Some(FunctionKey::F2)
        } else if n == 3 {
            Some(FunctionKey::F3)
        } else if n == 4 {
            Some(FunctionKey::F4)
        } else if n == 5 {
            Some(FunctionKey::F5)
        } else if n == 6 {
            Some(FunctionKey::F6)
        } else if n == 7 {
            Some(FunctionKey::F7)
        } else if n == 8 {
            Some(FunctionKey::F8)
        } else if n == 9 {
            Some(FunctionKey::F9)
        } else if n == 10 {
            Some(FunctionKey::F10)
        } else if n == 11 {
            Some(FunctionKey::F11)
        } else if n == 12 {
            Some(FunctionKey::F12)
        } else {
            None
        }
    }

    /// The key's place in the function row, from 1 to 12.
    pub fn number(&self) -> (n: u8)
        ensures
            n == self.ordinal(),
            1 <= n <= 12,
    {
        match self {
            FunctionKey::F1 => 1,
            FunctionKey::F2 => 2,
            FunctionKey::F3 => 3,
            FunctionKey::F4 => 4,
            FunctionKey::F5 => 5,
            FunctionKey::F6 => 6,
            FunctionKey::F7 => 7,
            FunctionKey::F8 => 8,
            FunctionKey::F9 => 9,
            FunctionKey::F10 => 10,
            FunctionKey::F11 => 11,
            FunctionKey::F12 => 12,
        }
    }

    /// The key with the given ordinal; `None` outside 1 to 12.
    pub fn from_number(n: u8) -> (k: Option<FunctionKey>)
        ensures
            k == FunctionKey::with_ordinal(n as nat),
            k is Some <==> 1 <= n <= 12,
            k matches Some(key) ==> key.ordinal() == n,
    {
        match n {
            1 => Some(FunctionKey::F1),
            2 => Some(FunctionKey::F2),
            3 => Some(FunctionKey::F3),
            4 => Some(FunctionKey::F4),
            5 => Some(FunctionKey::F5),
            6 => Some(FunctionKey::F6),
            7 => Some(FunctionKey::F7),
            8 => Some(FunctionKey::F8),
            9 => Some(FunctionKey::F9),
            10 => Some(FunctionKey::F10),
            11 => Some(FunctionKey::F11),
            12 => Some(FunctionKey::F12),
            _ => None,
        }
    }
}

/// The value of a decimal digit; `None` for any other character.
pub open spec fn digit_value(c: char) -> Option<nat> {
    if '0' <= c && c <= '9' {
        Some((c as nat - '0' as nat) as nat)
    } else {
        None
    }
}

/// The key that an identifier names. An identifier is the letter `F` and
/// then the ordinal of a key, 1 to 12, in decimal without sign or padding.
/// Everything else names no key.
pub open spec fn key_named(id: Seq<char>) -> Option<FunctionKey> {
    if id.len() == 2 && id[0] == 'F' && id[1] != '0' {
        match digit_value(id[1]) {
            Some(d) => FunctionKey::with_ordinal(d),
            None => None,
        }
    } else if id.len() == 3 && id[0] == 'F' && id[1] == '1' {
        match digit_value(id[2]) {
            Some(d) => FunctionKey::with_ordinal(10 + d),
            None => None,
        }
    } else {
        None
    }
}

/// An identifier names a key exactly when it is that key's label.
pub proof fn lemma_key_named_is_label(id: Seq<char>, key: FunctionKey)
    ensures
        key_named(id) == Some(key) <==> id == key.label(),
{
    if id == key.label() {
        assert(key_named(key.label()) == Some(key));
    }
    if key_named(id) == Some(key) {
        assert(id =~= key.label());
    }
}

/// Reads the decimal digit `c`.
fn digit_of(c: char) -> (d: Option<u8>)
    ensures
        d matches Some(v) ==> digit_value(c) == Some(v as nat) && v <= 9,
        d is None ==> digit_value(c) is None,
{
    if '0' <= c && c <= '9' {
        Some(((c as u32) - ('0' as u32)) as u8)
    } else {
        None
    }
}

/// Parses a key identifier. `F1` to `F12` give their key; every other text,
/// among them `F0`, `F13`, `F05`, `f5` and the empty text, gives `None`.
pub fn parse_code(hotkey: &str) -> (key: Option<FunctionKey>)
    ensures
        key == key_named(hotkey@),
{
    let len: usize = hotkey.unicode_len();
    if len == 2 {
        let first: char = hotkey.get_char(0);
        let second: char = hotkey.get_char(1);
        if first != 'F' || second == '0' {
            return None;
        }
        match digit_of(second) {
            Some(d) => FunctionKey::from_number(d),
            None => None,
        }
    } else if len == 3 {
        let first: char = hotkey.get_char(0);
        let second: char = hotkey.get_char(1);
        let third: char = hotkey.get_char(2);
        if first != 'F' || second != '1' {
            return None;
        }
        match digit_of(third) {
            Some(d) => FunctionKey::from_number(10 + d),
            None => None,
        }
    } else {
        None
    }
}

/// The bindings that a pair of identifiers asks for: the key of each
/// identifier that names one, bound to its kind. An identifier that names no
/// key binds nothing. Where both name the same key, the key belongs to the
/// click action, which is bound first.
pub open spec fn bindings_for(click_id: Seq<char>, type_id: Seq<char>) -> Map<
    FunctionKey,
    ActionKind,
> {
    let typing = match key_named(type_id) {
        Some(key) => Map::<FunctionKey, ActionKind>::empty().insert(key, ActionKind::Type),
        None => Map::<FunctionKey, ActionKind>::empty(),
    };
    match key_named(click_id) {
        Some(key) => typing.insert(key, ActionKind::Click),
        None => typing,
    }
}

/// The keys that are bound at present. Seen as a map from key to action
/// kind, it has at most one key for each kind.
#[derive(Clone, Copy, Debug)]
pub struct HotkeyBindings {
    click: Option<FunctionKey>,
    typing: Option<FunctionKey>,
}

impl View for HotkeyBindings {
    type V = Map<FunctionKey, ActionKind>;

    closed spec fn view(&self) -> Map<FunctionKey, ActionKind> {
        let typing = match self.typing {
            Some(key) => Map::<FunctionKey, ActionKind>::empty().insert(key, ActionKind::Type),
            None => Map::<FunctionKey, ActionKind>::empty(),
        };
        match self.click {
            Some(key) => typing.insert(key, ActionKind::Click),
            None => typing,
        }
    }
}

impl HotkeyBindings {
    /// No key is bound.
    pub fn unbound() -> (b: HotkeyBindings)
        ensures
            b@ == Map::<FunctionKey, ActionKind>::empty(),
    {
        HotkeyBindings { click: None, typing: None }
    }

    /// The bindings that the two identifiers ask for. Nothing of an earlier
    /// set of bindings enters the result.
    pub fn rebind(click_key: &str, type_key: &str) -> (b: HotkeyBindings)
        ensures
            b@ == bindings_for(click_key@, type_key@),
    {
        HotkeyBindings { click: parse_code(click_key), typing: parse_code(type_key) }
    }

    /// The action kind that a key press addresses; `None` for a key that is
    /// not bound.
    pub fn action_for(&self, key: FunctionKey) -> (kind: Option<ActionKind>)
        ensures
            kind == (if self@.contains_key(key) {
                Some(self@[key])
            } else {
                None
            }),
    {
        if self.click == Some(key) {
            Some(ActionKind::Click)
        } else if self.typing == Some(key) {
            Some(ActionKind::Type)
        } else {
            None
        }
    }

    /// The key that is bound to `kind`; `None` where the kind has no key.
    pub fn key_for(&self, kind: ActionKind) -> (key: Option<FunctionKey>)
        ensures
            match key {
                Some(k) => self@.contains_pair(k, kind),
                None => forall|k: FunctionKey| !self@.contains_pair(k, kind),
            },
    {
        match kind {
            ActionKind::Click => self.click,
            ActionKind::Type => {
                if self.typing == self.click {
                    None
                } else {
                    self.typing
                }
            },
        }
    }
}

/// Every kind has at most one key, whatever the identifiers were.
pub proof fn lemma_one_key_per_kind(
    click_id: Seq<char>,
    type_id: Seq<char>,
    k1: FunctionKey,
    k2: FunctionKey,
    kind: ActionKind,
)
    requires
        bindings_for(click_id, type_id).contains_pair(k1, kind),
        bindings_for(click_id, type_id).contains_pair(k2, kind),
    ensures
        k1 == k2,
{
}

} // verus!
