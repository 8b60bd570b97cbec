use vstd::prelude::*;

use crate::json::{
    get_member, items_view, lemma_arr_view, lemma_obj_view, member, members_view, text_eq, Json,
    JsonView, Member, MemberView,
};
use crate::keymap::{
    actions_view, blank_button, buttons_view, keymap_wf, ActionView, Key, Keymap, KeymapView, MacroAction,
    MacroKey, MacroKeyView, MacroType,
};
use crate::programmable_keys::{index_of, key_at, lemma_key_at_index, ProgrammableKeys};

verus! {

/// Why a document is not a keymap.
#[derive(Clone, Copy, Debug, PartialEq, Eq, Structural)]
pub enum DecodeError {
    /// The document does not have the keymap's shape.
    Malformed,
    /// The document is shaped like a keymap, but its `button_count` is not
    /// the number of its buttons.
    CountMismatch,
}

/// The directory under the user's local data directory that holds the
/// application's files.
pub const APP_DIR: &'static str = "hotmap";

/// The directory under `APP_DIR` that holds one document per keymap.
pub const KEYMAP_DIR: &'static str = "keymaps";

/// The name of the keymap that is loaded at start, and of the blank keymap
/// that stands in for it when it has never been saved.
pub const DEFAULT_KEYMAP: &'static str = "keymap";

/// The name under which a keymap is stored.
pub open spec fn key_name(k: Key) -> Seq<char> {
    match k {
        Key::Alt => "Alt"@,
        Key::Backspace => "Backspace"@,
        Key::CapsLock => "CapsLock"@,
        Key::ControlLeft => "ControlLeft"@,
        Key::ControlRight => "ControlRight"@,
        Key::Delete => "Delete"@,
        Key::DownArrow => "DownArrow"@,
        Key::End => "End"@,
        Key::Escape => "Escape"@,
        Key::F1 => "F1"@,
        Key::F10 => "F10"@,
        Key::F11 => "F11"@,
        Key::F12 => "F12"@,
        Key::F2 => "F2"@,
        Key::F3 => "F3"@,
        Key::F4 => "F4"@,
        Key::F5 => "F5"@,
        Key::F6 => "F6"@,
        Key::F7 => "F7"@,
        Key::F8 => "F8"@,
        Key::F9 => "F9"@,
        Key::Home => "Home"@,
        Key::LeftArrow => "LeftArrow"@,
        Key::MetaLeft => "MetaLeft"@,
        Key::MetaRight => "MetaRight"@,
        Key::PageDown => "PageDown"@,
        Key::PageUp => "PageUp"@,
        Key::Return => "Return"@,
        Key::RightArrow => "RightArrow"@,
        Key::ShiftLeft => "ShiftLeft"@,
        Key::ShiftRight => "ShiftRight"@,
        Key::Space => "Space"@,
        Key::Tab => "Tab"@,
        Key::UpArrow => "UpArrow"@,
        Key::PrintScreen => "PrintScreen"@,
        Key::ScrollLock => "ScrollLock"@,
        Key::Pause => "Pause"@,
        Key::NumLock => "NumLock"@,
        Key::BackQuote => "BackQuote"@,
        Key::Num1 => "Num1"@,
        Key::Num2 => "Num2"@,
        Key::Num3 => "Num3"@,
        Key::Num4 => "Num4"@,
        Key::Num5 => "Num5"@,
        Key::Num6 => "Num6"@,
        Key::Num7 => "Num7"@,
        Key::Num8 => "Num8"@,
        Key::Num9 => "Num9"@,
        Key::Num0 => "Num0"@,
        Key::Minus => "Minus"@,
        Key::Equal => "Equal"@,
        Key::KeyQ => "KeyQ"@,
        Key::KeyW => "KeyW"@,
        Key::KeyE => "KeyE"@,
        Key::KeyR => "KeyR"@,
        Key::KeyT => "KeyT"@,
        Key::KeyY => "KeyY"@,
        Key::KeyU => "KeyU"@,
        Key::KeyI => "KeyI"@,
        Key::KeyO => "KeyO"@,
        Key::KeyP => "KeyP"@,
        Key::LeftBracket => "LeftBracket"@,
        Key::RightBracket => "RightBracket"@,
        Key::KeyA => "KeyA"@,
        Key::KeyS => "KeyS"@,
        Key::KeyD => "KeyD"@,
        Key::KeyF => "KeyF"@,
        Key::KeyG => "KeyG"@,
        Key::KeyH => "KeyH"@,
        Key::KeyJ => "KeyJ"@,
        Key::KeyK => "KeyK"@,
        Key::KeyL => "KeyL"@,
        Key::SemiColon => "SemiColon"@,
        Key::Quote => "Quote"@,
        Key::BackSlash => "BackSlash"@,
        Key::IntlBackslash => "IntlBackslash"@,
        Key::KeyZ => "KeyZ"@,
        Key::KeyX => "KeyX"@,
        Key::KeyC => "KeyC"@,
        Key::KeyV => "KeyV"@,
        Key::KeyB => "KeyB"@,
        Key::KeyN => "KeyN"@,
        Key::KeyM => "KeyM"@,
        Key::Comma => "Comma"@,
        Key::Dot => "Dot"@,
        Key::Slash => "Slash"@,
        Key::Insert => "Insert"@,
        Key::KpPlus => "KpPlus"@,
        Key::KpMultiply => "KpMultiply"@,
        Key::Unknown(_) => "Unknown"@,
    }
}

/// The named keys in a fixed order.
pub open spec fn key_by_ordinal(i: int) -> Option<Key> {
    if i == 0 {
        Some(Key::Alt)
    } else if i == 1 {
        Some(Key::Backspace)
    } else if i == 2 {
        Some(Key::CapsLock)
    } else if i == 3 {
        Some(Key::ControlLeft)
    } else if i == 4 {
        Some(Key::ControlRight)
    } else if i == 5 {
        Some(Key::Delete)
    } else if i == 6 {
        Some(Key::DownArrow)
    } else if i == 7 {
        Some(Key::End)
    } else if i == 8 {
        Some(Key::Escape)
    } else if i == 9 {
        Some(Key::F1)
    } else if i == 10 {
        Some(Key::F10)
    } else if i == 11 {
        Some(Key::F11)
    } else if i == 12 {
        Some(Key::F12)
    } else if i == 13 {
        Some(Key::F2)
    } else if i == 14 {
        Some(Key::F3)
    } else if i == 15 {
        Some(Key::F4)
    } else if i == 16 {
        Some(Key::F5)
    } else if i == 17 {
        Some(Key::F6)
    } else if i == 18 {
        Some(Key::F7)
    } else if i == 19 {
        Some(Key::F8)
    } else if i == 20 {
        Some(Key::F9)
    } else if i == 21 {
        Some(Key::Home)
    } else if i == 22 {
        Some(Key::LeftArrow)
    } else if i == 23 {
        Some(Key::MetaLeft)
    } else if i == 24 {
        Some(Key::MetaRight)
    } else if i == 25 {
        Some(Key::PageDown)
    } else if i == 26 {
        Some(Key::PageUp)
    } else if i == 27 {
        Some(Key::Return)
    } else if i == 28 {
        Some(Key::RightArrow)
    } else if i == 29 {
        Some(Key::ShiftLeft)
    } else if i == 30 {
        Some(Key::ShiftRight)
    } else if i == 31 {
        Some(Key::Space)
    } else if i == 32 {
        Some(Key::Tab)
    } else if i == 33 {
        Some(Key::UpArrow)
    } else if i == 34 {
        Some(Key::PrintScreen)
    } else if i == 35 {
        Some(Key::ScrollLock)
    } else if i == 36 {
        Some(Key::Pause)
    } else if i == 37 {
        Some(Key::NumLock)
    } else if i == 38 {
        Some(Key::BackQuote)
    } else if i == 39 {
        Some(Key::Num1)
    } else if i == 40 {
        Some(Key::Num2)
    } else if i == 41 {
        Some(Key::Num3)
    } else if i == 42 {
        Some(Key::Num4)
    } else if i == 43 {
        Some(Key::Num5)
    } else if i == 44 {
        Some(Key::Num6)
    } else if i == 45 {
        Some(Key::Num7)
    } else if i == 46 {
        Some(Key::Num8)
    } else if i == 47 {
        Some(Key::Num9)
    } else if i == 48 {
        Some(Key::Num0)
    } else if i == 49 {
        Some(Key::Minus)
    } else if i == 50 {
        Some(Key::Equal)
    } else if i == 51 {
        Some(Key::KeyQ)
    } else if i == 52 {
        Some(Key::KeyW)
    } else if i == 53 {
        Some(Key::KeyE)
    } else if i == 54 {
        Some(Key::KeyR)
    } else if i == 55 {
        Some(Key::KeyT)
    } else if i == 56 {
        Some(Key::KeyY)
    } else if i == 57 {
        Some(Key::KeyU)
    } else if i == 58 {
        Some(Key::KeyI)
    } else if i == 59 {
        Some(Key::KeyO)
    } else if i == 60 {
        Some(Key::KeyP)
    } else if i == 61 {
        Some(Key::LeftBracket)
    } else if i == 62 {
        Some(Key::RightBracket)
    } else if i == 63 {
        Some(Key::KeyA)
    } else if i == 64 {
        Some(Key::KeyS)
    } else if i == 65 {
        Some(Key::KeyD)
    } else if i == 66 {
        Some(Key::KeyF)
    } else if i == 67 {
        Some(Key::KeyG)
    } else if i == 68 {
        Some(Key::KeyH)
    } else if i == 69 {
        Some(Key::KeyJ)
    } else if i == 70 {
        Some(Key::KeyK)
    } else if i == 71 {
        Some(Key::KeyL)
    } else if i == 72 {
        Some(Key::SemiColon)
    } else if i == 73 {
        Some(Key::Quote)
    } else if i == 74 {
        Some(Key::BackSlash)
    } else if i == 75 {
        Some(Key::IntlBackslash)
    } else if i == 76 {
        Some(Key::KeyZ)
    } else if i == 77 {
        Some(Key::KeyX)
    } else if i == 78 {
        Some(Key::KeyC)
    } else if i == 79 {
        Some(Key::KeyV)
    } else if i == 80 {
        Some(Key::KeyB)
    } else if i == 81 {
        Some(Key::KeyN)
    } else if i == 82 {
        Some(Key::KeyM)
    } else if i == 83 {
        Some(Key::Comma)
    } else if i == 84 {
        Some(Key::Dot)
    } else if i == 85 {
        Some(Key::Slash)
    } else if i == 86 {
        Some(Key::Insert)
    } else if i == 87 {
        Some(Key::KpPlus)
    } else if i == 88 {
        Some(Key::KpMultiply)
    } else {
        None
    }
}

/// The place of a named key in that order; -1 for `Unknown`.
pub open spec fn key_ordinal(k: Key) -> int {
    match k {
        Key::Alt => 0,
        Key::Backspace => 1,
        Key::CapsLock => 2,
        Key::ControlLeft => 3,
        Key::ControlRight => 4,
        Key::Delete => 5,
        Key::DownArrow => 6,
        Key::End => 7,
        Key::Escape => 8,
        Key::F1 => 9,
        Key::F10 => 10,
        Key::F11 => 11,
        Key::F12 => 12,
        Key::F2 => 13,
        Key::F3 => 14,
        Key::F4 => 15,
        Key::F5 => 16,
        Key::F6 => 17,
        Key::F7 => 18,
        Key::F8 => 19,
        Key::F9 => 20,
        Key::Home => 21,
        Key::LeftArrow => 22,
        Key::MetaLeft => 23,
        Key::MetaRight => 24,
        Key::PageDown => 25,
        Key::PageUp => 26,
        Key::Return => 27,
        Key::RightArrow => 28,
        Key::ShiftLeft => 29,
        Key::ShiftRight => 30,
        Key::Space => 31,
        Key::Tab => 32,
        Key::UpArrow => 33,
        Key::PrintScreen => 34,
        Key::ScrollLock => 35,
        Key::Pause => 36,
        Key::NumLock => 37,
        Key::BackQuote => 38,
        Key::Num1 => 39,
        Key::Num2 => 40,
        Key::Num3 => 41,
        Key::Num4 => 42,
        Key::Num5 => 43,
        Key::Num6 => 44,
        Key::Num7 => 45,
        Key::Num8 => 46,
        Key::Num9 => 47,
        Key::Num0 => 48,
        Key::Minus => 49,
        Key::Equal => 50,
        Key::KeyQ => 51,
        Key::KeyW => 52,
        Key::KeyE => 53,
        Key::KeyR => 54,
        Key::KeyT => 55,
        Key::KeyY => 56,
        Key::KeyU => 57,
        Key::KeyI => 58,
        Key::KeyO => 59,
        Key::KeyP => 60,
        Key::LeftBracket => 61,
        Key::RightBracket => 62,
        Key::KeyA => 63,
        Key::KeyS => 64,
        Key::KeyD => 65,
        Key::KeyF => 66,
        Key::KeyG => 67,
        Key::KeyH => 68,
        Key::KeyJ => 69,
        Key::KeyK => 70,
        Key::KeyL => 71,
        Key::SemiColon => 72,
        Key::Quote => 73,
        Key::BackSlash => 74,
        Key::IntlBackslash => 75,
        Key::KeyZ => 76,
        Key::KeyX => 77,
        Key::KeyC => 78,
        Key::KeyV => 79,
        Key::KeyB => 80,
        Key::KeyN => 81,
        Key::KeyM => 82,
        Key::Comma => 83,
        Key::Dot => 84,
        Key::Slash => 85,
        Key::Insert => 86,
        Key::KpPlus => 87,
        Key::KpMultiply => 88,
        Key::Unknown(_) => -1,
    }
}

/// The number of named keys.
pub const NAMED_KEYS: usize = 89;

/// Tells the named keys apart by the length and a few characters of a name.
pub open spec fn key_by_shape(s: Seq<char>) -> Option<Key> {
    if s.len() == 2 {
        if s[1] == '1' {
            Some(Key::F1)
        } else if s[1] == '2' {
            Some(Key::F2)
        } else if s[1] == '3' {
            Some(Key::F3)
        } else if s[1] == '4' {
            Some(Key::F4)
        } else if s[1] == '5' {
            Some(Key::F5)
        } else if s[1] == '6' {
            Some(Key::F6)
        } else if s[1] == '7' {
            Some(Key::F7)
        } else if s[1] == '8' {
            Some(Key::F8)
        } else if s[1] == '9' {
            Some(Key::F9)
        } else {
            None
        }
    } else if s.len() == 3 {
        if s[2] == '0' {
            Some(Key::F10)
        } else if s[2] == '1' {
            Some(Key::F11)
        } else if s[2] == '2' {
            Some(Key::F12)
        } else if s[2] == 'b' {
            Some(Key::Tab)
        } else if s[2] == 'd' {
            Some(Key::End)
        } else if s[2] == 't' {
            if s[0] == 'A' {
                Some(Key::Alt)
            } else if s[0] == 'D' {
                Some(Key::Dot)
            } else {
                None
            }
        } else {
            None
        }
    } else if s.len() == 4 {
        if s[3] == '0' {
            Some(Key::Num0)
        } else if s[3] == '1' {
            Some(Key::Num1)
        } else if s[3] == '2' {
            Some(Key::Num2)
        } else if s[3] == '3' {
            Some(Key::Num3)
        } else if s[3] == '4' {
            Some(Key::Num4)
        } else if s[3] == '5' {
            Some(Key::Num5)
        } else if s[3] == '6' {
            Some(Key::Num6)
        } else if s[3] == '7' {
            Some(Key::Num7)
        } else if s[3] == '8' {
            Some(Key::Num8)
        } else if s[3] == '9' {
            Some(Key::Num9)
        } else if s[3] == 'A' {
            Some(Key::KeyA)
        } else if s[3] == 'B' {
            Some(Key::KeyB)
        } else if s[3] == 'C' {
            Some(Key::KeyC)
        } else if s[3] == 'D' {
            Some(Key::KeyD)
        } else if s[3] == 'E' {
            Some(Key::KeyE)
        } else if s[3] == 'F' {
            Some(Key::KeyF)
        } else if s[3] == 'G' {
            Some(Key::KeyG)
        } else if s[3] == 'H' {
            Some(Key::KeyH)
        } else if s[3] == 'I' {
            Some(Key::KeyI)
        } else if s[3] == 'J' {
            Some(Key::KeyJ)
        } else if s[3] == 'K' {
            Some(Key::KeyK)
        } else if s[3] == 'L' {
            Some(Key::KeyL)
        } else if s[3] == 'M' {
            Some(Key::KeyM)
        } else if s[3] == 'N' {
            Some(Key::KeyN)
        } else if s[3] == 'O' {
            Some(Key::KeyO)
        } else if s[3] == 'P' {
            Some(Key::KeyP)
        } else if s[3] == 'Q' {
            Some(Key::KeyQ)
        } else if s[3] == 'R' {
            Some(Key::KeyR)
        } else if s[3] == 'S' {
            Some(Key::KeyS)
        } else if s[3] == 'T' {
            Some(Key::KeyT)
        } else if s[3] == 'U' {
            Some(Key::KeyU)
        } else if s[3] == 'V' {
            Some(Key::KeyV)
        } else if s[3] == 'W' {
            Some(Key::KeyW)
        } else if s[3] == 'X' {
            Some(Key::KeyX)
        } else if s[3] == 'Y' {
            Some(Key::KeyY)
        } else if s[3] == 'Z' {
            Some(Key::KeyZ)
        } else if s[3] == 'e' {
            Some(Key::Home)
        } else {
            None
        }
    } else if s.len() == 5 {
        if s[1] == 'a' {
            Some(Key::Pause)
        } else if s[1] == 'i' {
            Some(Key::Minus)
        } else if s[1] == 'l' {
            Some(Key::Slash)
        } else if s[1] == 'o' {
            Some(Key::Comma)
        } else if s[1] == 'p' {
            Some(Key::Space)
        } else if s[1] == 'q' {
            Some(Key::Equal)
        } else if s[1] == 'u' {
            Some(Key::Quote)
        } else {
            None
        }
    } else if s.len() == 6 {
        if s[0] == 'D' {
            Some(Key::Delete)
        } else if s[0] == 'E' {
            Some(Key::Escape)
        } else if s[0] == 'I' {
            Some(Key::Insert)
        } else if s[0] == 'K' {
            Some(Key::KpPlus)
        } else if s[0] == 'P' {
            Some(Key::PageUp)
        } else if s[0] == 'R' {
            Some(Key::Return)
        } else {
            None
        }
    } else if s.len() == 7 {
        if s[0] == 'N' {
            Some(Key::NumLock)
        } else if s[0] == 'U' {
            Some(Key::UpArrow)
        } else {
            None
        }
    } else if s.len() == 8 {
        if s[0] == 'C' {
            Some(Key::CapsLock)
        } else if s[0] == 'M' {
            Some(Key::MetaLeft)
        } else if s[0] == 'P' {
            Some(Key::PageDown)
        } else {
            None
        }
    } else if s.len() == 9 {
        if s[4] == 'A' {
            if s[0] == 'D' {
                Some(Key::DownArrow)
            } else if s[0] == 'L' {
                Some(Key::LeftArrow)
            } else {
                None
            }
        } else if s[4] == 'C' {
            Some(Key::SemiColon)
        } else if s[4] == 'Q' {
            Some(Key::BackQuote)
        } else if s[4] == 'R' {
            Some(Key::MetaRight)
        } else if s[4] == 'S' {
            Some(Key::BackSlash)
        } else if s[4] == 's' {
            Some(Key::Backspace)
        } else if s[4] == 't' {
            Some(Key::ShiftLeft)
        } else {
            None
        }
    } else if s.len() == 10 {
        if s[1] == 'c' {
            Some(Key::ScrollLock)
        } else if s[1] == 'h' {
            Some(Key::ShiftRight)
        } else if s[1] == 'i' {
            Some(Key::RightArrow)
        } else if s[1] == 'p' {
            Some(Key::KpMultiply)
        } else {
            None
        }
    } else if s.len() == 11 {
        if s[0] == 'C' {
            Some(Key::ControlLeft)
        } else if s[0] == 'L' {
            Some(Key::LeftBracket)
        } else if s[0] == 'P' {
            Some(Key::PrintScreen)
        } else {
            None
        }
    } else if s.len() == 12 {
        if s[0] == 'C' {
            Some(Key::ControlRight)
        } else if s[0] == 'R' {
            Some(Key::RightBracket)
        } else {
            None
        }
    } else if s.len() == 13 {
        Some(Key::IntlBackslash)
    } else {
        None
    }
}

/// The key that a name stands for.
pub open spec fn key_named(s: Seq<char>) -> Option<Key> {
    if exists|k: Key| !(k is Unknown) && key_name(k) == s {
        Some(choose|k: Key| !(k is Unknown) && key_name(k) == s)
    } else {
        None
    }
}

/// Every named key has a place in the order of named keys.
pub proof fn lemma_key_ordinal(k: Key)
    requires
        !(k is Unknown),
    ensures
        0 <= key_ordinal(k) < NAMED_KEYS,
        key_by_ordinal(key_ordinal(k)) == Some(k),
{
}

/// The order holds named keys only.
pub proof fn lemma_key_by_ordinal(i: int)
    ensures
        key_by_ordinal(i) matches Some(k) ==> !(k is Unknown),
        (0 <= i < NAMED_KEYS) == (key_by_ordinal(i) is Some),
{
}

/// No two named keys share a name.
pub proof fn lemma_key_name_injective(a: Key, b: Key)
    requires
        !(a is Unknown),
        !(b is Unknown),
        key_name(a) == key_name(b),
    ensures
        a == b,
{
    reveal_strlit("Alt");
    reveal_strlit("Backspace");
    reveal_strlit("CapsLock");
    reveal_strlit("ControlLeft");
    reveal_strlit("ControlRight");
    reveal_strlit("Delete");
    reveal_strlit("DownArrow");
    reveal_strlit("End");
    reveal_strlit("Escape");
    reveal_strlit("F1");
    reveal_strlit("F10");
    reveal_strlit("F11");
    reveal_strlit("F12");
    reveal_strlit("F2");
    reveal_strlit("F3");
    reveal_strlit("F4");
    reveal_strlit("F5");
    reveal_strlit("F6");
    reveal_strlit("F7");
    reveal_strlit("F8");
    reveal_strlit("F9");
    reveal_strlit("Home");
    reveal_strlit("LeftArrow");
    reveal_strlit("MetaLeft");
    reveal_strlit("MetaRight");
    reveal_strlit("PageDown");
    reveal_strlit("PageUp");
    reveal_strlit("Return");
    reveal_strlit("RightArrow");
    reveal_strlit("ShiftLeft");
    reveal_strlit("ShiftRight");
    reveal_strlit("Space");
    reveal_strlit("Tab");
    reveal_strlit("UpArrow");
    reveal_strlit("PrintScreen");
    reveal_strlit("ScrollLock");
    reveal_strlit("Pause");
    reveal_strlit("NumLock");
    reveal_strlit("BackQuote");
    reveal_strlit("Num1");
    reveal_strlit("Num2");
    reveal_strlit("Num3");
    reveal_strlit("Num4");
    reveal_strlit("Num5");
    reveal_strlit("Num6");
    reveal_strlit("Num7");
    reveal_strlit("Num8");
    reveal_strlit("Num9");
    reveal_strlit("Num0");
    reveal_strlit("Minus");
    reveal_strlit("Equal");
    reveal_strlit("KeyQ");
    reveal_strlit("KeyW");
    reveal_strlit("KeyE");
    reveal_strlit("KeyR");
    reveal_strlit("KeyT");
    reveal_strlit("KeyY");
    reveal_strlit("KeyU");
    reveal_strlit("KeyI");
    reveal_strlit("KeyO");
    reveal_strlit("KeyP");
    reveal_strlit("LeftBracket");
    reveal_strlit("RightBracket");
    reveal_strlit("KeyA");
    reveal_strlit("KeyS");
    reveal_strlit("KeyD");
    reveal_strlit("KeyF");
    reveal_strlit("KeyG");
    reveal_strlit("KeyH");
    reveal_strlit("KeyJ");
    reveal_strlit("KeyK");
    reveal_strlit("KeyL");
    reveal_strlit("SemiColon");
    reveal_strlit("Quote");
    reveal_strlit("BackSlash");
    reveal_strlit("IntlBackslash");
    reveal_strlit("KeyZ");
    reveal_strlit("KeyX");
    reveal_strlit("KeyC");
    reveal_strlit("KeyV");
    reveal_strlit("KeyB");
    reveal_strlit("KeyN");
    reveal_strlit("KeyM");
    reveal_strlit("Comma");
    reveal_strlit("Dot");
    reveal_strlit("Slash");
    reveal_strlit("Insert");
    reveal_strlit("KpPlus");
    reveal_strlit("KpMultiply");
    assert(key_by_shape(key_name(a)) == Some(a));
    assert(key_by_shape(key_name(b)) == Some(b));
}

/// A named key's name gives that key back.
pub proof fn lemma_key_named(k: Key)
    requires
        !(k is Unknown),
    ensures
        key_named(key_name(k)) == Some(k),
{
    let c = choose|c: Key| !(c is Unknown) && key_name(c) == key_name(k);
    lemma_key_name_injective(c, k);
}

/// The name under which a button is stored.
pub open spec fn button_name(p: ProgrammableKeys) -> Seq<char> {
    match p {
        ProgrammableKeys::MACROUNKNOWN => "MACROUNKNOWN"@,
        ProgrammableKeys::MACRO1 => "MACRO1"@,
        ProgrammableKeys::MACRO2 => "MACRO2"@,
        ProgrammableKeys::MACRO3 => "MACRO3"@,
        ProgrammableKeys::MACRO4 => "MACRO4"@,
        ProgrammableKeys::MACRO5 => "MACRO5"@,
        ProgrammableKeys::MACRO6 => "MACRO6"@,
        ProgrammableKeys::MACRO7 => "MACRO7"@,
        ProgrammableKeys::MACRO8 => "MACRO8"@,
        ProgrammableKeys::MACRO9 => "MACRO9"@,
        ProgrammableKeys::MACRO10 => "MACRO10"@,
        ProgrammableKeys::MACRO11 => "MACRO11"@,
        ProgrammableKeys::MACRO12 => "MACRO12"@,
        ProgrammableKeys::MACRO13 => "MACRO13"@,
        ProgrammableKeys::MACRO14 => "MACRO14"@,
        ProgrammableKeys::MACRO15 => "MACRO15"@,
        ProgrammableKeys::MACRO16 => "MACRO16"@,
        ProgrammableKeys::MACRO17 => "MACRO17"@,
        ProgrammableKeys::MACRO18 => "MACRO18"@,
        ProgrammableKeys::MACRO19 => "MACRO19"@,
        ProgrammableKeys::MACRO20 => "MACRO20"@,
        ProgrammableKeys::MACRO21 => "MACRO21"@,
        ProgrammableKeys::MACRO22 => "MACRO22"@,
        ProgrammableKeys::MACRO23 => "MACRO23"@,
        ProgrammableKeys::MACRO24 => "MACRO24"@,
        ProgrammableKeys::MACRO25 => "MACRO25"@,
        ProgrammableKeys::MACRO26 => "MACRO26"@,
        ProgrammableKeys::MACRO27 => "MACRO27"@,
        ProgrammableKeys::MACRO28 => "MACRO28"@,
        ProgrammableKeys::MACRO29 => "MACRO29"@,
        ProgrammableKeys::MACRO30 => "MACRO30"@,
        ProgrammableKeys::MACRO31 => "MACRO31"@,
        ProgrammableKeys::MACRO32 => "MACRO32"@,
    }
}

/// Tells the buttons apart by the length and a few characters of a name.
pub open spec fn button_by_shape(s: Seq<char>) -> Option<ProgrammableKeys> {
    if s.len() == 6 {
        if s[5] == '1' {
            Some(ProgrammableKeys::MACRO1)
        } else if s[5] == '2' {
            Some(ProgrammableKeys::MACRO2)
        } else if s[5] == '3' {
            Some(ProgrammableKeys::MACRO3)
        } else if s[5] == '4' {
            Some(ProgrammableKeys::MACRO4)
        } else if s[5] == '5' {
            Some(ProgrammableKeys::MACRO5)
        } else if s[5] == '6' {
            Some(ProgrammableKeys::MACRO6)
        } else if s[5] == '7' {
            Some(ProgrammableKeys::MACRO7)
        } else if s[5] == '8' {
            Some(ProgrammableKeys::MACRO8)
        } else if s[5] == '9' {
            Some(ProgrammableKeys::MACRO9)
        } else {
            None
        }
    } else if s.len() == 7 {
        if s[6] == '0' {
            if s[5] == '1' {
                Some(ProgrammableKeys::MACRO10)
            } else if s[5] == '2' {
                Some(ProgrammableKeys::MACRO20)
            } else if s[5] == '3' {
                Some(ProgrammableKeys::MACRO30)
            } else {
                None
            }
        } else if s[6] == '1' {
            if s[5] == '1' {
                Some(ProgrammableKeys::MACRO11)
            } else if s[5] == '2' {
                Some(ProgrammableKeys::MACRO21)
            } else if s[5] == '3' {
                Some(ProgrammableKeys::MACRO31)
            } else {
                None
            }
        } else if s[6] == '2' {
            if s[5] == '1' {
                Some(ProgrammableKeys::MACRO12)
            } else if s[5] == '2' {
                Some(ProgrammableKeys::MACRO22)
            } else if s[5] == '3' {
                Some(ProgrammableKeys::MACRO32)
            } else {
                None
            }
        } else if s[6] == '3' {
            if s[5] == '1' {
                Some(ProgrammableKeys::MACRO13)
            } else if s[5] == '2' {
                Some(ProgrammableKeys::MACRO23)
            } else {
                None
            }
        } else if s[6] == '4' {
            if s[5] == '1' {
                Some(ProgrammableKeys::MACRO14)
            } else if s[5] == '2' {
                Some(ProgrammableKeys::MACRO24)
            } else {
                None
            }
        } else if s[6] == '5' {
            if s[5] == '1' {
                Some(ProgrammableKeys::MACRO15)
            } else if s[5] == '2' {
                Some(ProgrammableKeys::MACRO25)
            } else {
                None
            }
        } else if s[6] == '6' {
            if s[5] == '1' {
                Some(ProgrammableKeys::MACRO16)
            } else if s[5] == '2' {
                Some(ProgrammableKeys::MACRO26)
            } else {
                None
            }
        } else if s[6] == '7' {
            if s[5] == '1' {
                Some(ProgrammableKeys::MACRO17)
            } else if s[5] == '2' {
                Some(ProgrammableKeys::MACRO27)
            } else {
                None
            }
        } else if s[6] == '8' {
            if s[5] == '1' {
                Some(ProgrammableKeys::MACRO18)
            } else if s[5] == '2' {
                Some(ProgrammableKeys::MACRO28)
            } else {
                None
            }
        } else if s[6] == '9' {
            if s[5] == '1' {
                Some(ProgrammableKeys::MACRO19)
            } else if s[5] == '2' {
                Some(ProgrammableKeys::MACRO29)
            } else {
                None
            }
        } else {
            None
        }
    } else if s.len() == 12 {
        Some(ProgrammableKeys::MACROUNKNOWN)
    } else {
        None
    }
}

/// The button that a name stands for.
pub open spec fn button_named(s: Seq<char>) -> Option<ProgrammableKeys> {
    if exists|p: ProgrammableKeys| button_name(p) == s {
        Some(choose|p: ProgrammableKeys| button_name(p) == s)
    } else {
        None
    }
}

/// No two buttons share a name.
pub proof fn lemma_button_name_injective(a: ProgrammableKeys, b: ProgrammableKeys)
    requires
        button_name(a) == button_name(b),
    ensures
        a == b,
{
    reveal_strlit("MACROUNKNOWN");
    reveal_strlit("MACRO1");
    reveal_strlit("MACRO2");
    reveal_strlit("MACRO3");
    reveal_strlit("MACRO4");
    reveal_strlit("MACRO5");
    reveal_strlit("MACRO6");
    reveal_strlit("MACRO7");
    reveal_strlit("MACRO8");
    reveal_strlit("MACRO9");
    reveal_strlit("MACRO10");
    reveal_strlit("MACRO11");
    reveal_strlit("MACRO12");
    reveal_strlit("MACRO13");
    reveal_strlit("MACRO14");
    reveal_strlit("MACRO15");
    reveal_strlit("MACRO16");
    reveal_strlit("MACRO17");
    reveal_strlit("MACRO18");
    reveal_strlit("MACRO19");
    reveal_strlit("MACRO20");
    reveal_strlit("MACRO21");
    reveal_strlit("MACRO22");
    reveal_strlit("MACRO23");
    reveal_strlit("MACRO24");
    reveal_strlit("MACRO25");
    reveal_strlit("MACRO26");
    reveal_strlit("MACRO27");
    reveal_strlit("MACRO28");
    reveal_strlit("MACRO29");
    reveal_strlit("MACRO30");
    reveal_strlit("MACRO31");
    reveal_strlit("MACRO32");
    assert(button_by_shape(button_name(a)) == Some(a));
    assert(button_by_shape(button_name(b)) == Some(b));
}

/// A button's name gives that button back.
pub proof fn lemma_button_named(p: ProgrammableKeys)
    ensures
        button_named(button_name(p)) == Some(p),
{
    let c = choose|c: ProgrammableKeys| button_name(c) == button_name(p);
    lemma_button_name_injective(c, p);
}

impl Key {
    /// The name under which this key is stored; `Unknown` for an unnamed key.
    pub fn name(&self) -> (r: &'static str)
        ensures
            r@ == key_name(*self),
    {
        match self {
            Key::Alt => "Alt",
            Key::Backspace => "Backspace",
            Key::CapsLock => "CapsLock",
            Key::ControlLeft => "ControlLeft",
            Key::ControlRight => "ControlRight",
            Key::Delete => "Delete",
            Key::DownArrow => "DownArrow",
            Key::End => "End",
            Key::Escape => "Escape",
            Key::F1 => "F1",
            Key::F10 => "F10",
            Key::F11 => "F11",
            Key::F12 => "F12",
            Key::F2 => "F2",
            Key::F3 => "F3",
            Key::F4 => "F4",
            Key::F5 => "F5",
            Key::F6 => "F6",
            Key::F7 => "F7",
            Key::F8 => "F8",
            Key::F9 => "F9",
            Key::Home => "Home",
            Key::LeftArrow => "LeftArrow",
            Key::MetaLeft => "MetaLeft",
            Key::MetaRight => "MetaRight",
            Key::PageDown => "PageDown",
            Key::PageUp => "PageUp",
            Key::Return => "Return",
            Key::RightArrow => "RightArrow",
            Key::ShiftLeft => "ShiftLeft",
            Key::ShiftRight => "ShiftRight",
            Key::Space => "Space",
            Key::Tab => "Tab",
            Key::UpArrow => "UpArrow",
            Key::PrintScreen => "PrintScreen",
            Key::ScrollLock => "ScrollLock",
            Key::Pause => "Pause",
            Key::NumLock => "NumLock",
            Key::BackQuote => "BackQuote",
            Key::Num1 => "Num1",
            Key::Num2 => "Num2",
            Key::Num3 => "Num3",
            Key::Num4 => "Num4",
            Key::Num5 => "Num5",
            Key::Num6 => "Num6",
            Key::Num7 => "Num7",
            Key::Num8 => "Num8",
            Key::Num9 => "Num9",
            Key::Num0 => "Num0",
            Key::Minus => "Minus",
            Key::Equal => "Equal",
            Key::KeyQ => "KeyQ",
            Key::KeyW => "KeyW",
            Key::KeyE => "KeyE",
            Key::KeyR => "KeyR",
            Key::KeyT => "KeyT",
            Key::KeyY => "KeyY",
            Key::KeyU => "KeyU",
            Key::KeyI => "KeyI",
            Key::KeyO => "KeyO",
            Key::KeyP => "KeyP",
            Key::LeftBracket => "LeftBracket",
            Key::RightBracket => "RightBracket",
            Key::KeyA => "KeyA",
            Key::KeyS => "KeyS",
            Key::KeyD => "KeyD",
            Key::KeyF => "KeyF",
            Key::KeyG => "KeyG",
            Key::KeyH => "KeyH",
            Key::KeyJ => "KeyJ",
            Key::KeyK => "KeyK",
            Key::KeyL => "KeyL",
            Key::SemiColon => "SemiColon",
            Key::Quote => "Quote",
            Key::BackSlash => "BackSlash",
            Key::IntlBackslash => "IntlBackslash",
            Key::KeyZ => "KeyZ",
            Key::KeyX => "KeyX",
            Key::KeyC => "KeyC",
            Key::KeyV => "KeyV",
            Key::KeyB => "KeyB",
            Key::KeyN => "KeyN",
            Key::KeyM => "KeyM",
            Key::Comma => "Comma",
            Key::Dot => "Dot",
            Key::Slash => "Slash",
            Key::Insert => "Insert",
            Key::KpPlus => "KpPlus",
            Key::KpMultiply => "KpMultiply",
            Key::Unknown(_) => "Unknown",
        }
    }

    /// The named key at a place in the order of named keys.
    pub fn by_ordinal(i: usize) -> (r: Option<Key>)
        ensures
            r == key_by_ordinal(i as int),
    {
        match i {
            0 => Some(Key::Alt),
            1 => Some(Key::Backspace),
            2 => Some(Key::CapsLock),
            3 => Some(Key::ControlLeft),
            4 => Some(Key::ControlRight),
            5 => Some(Key::Delete),
            6 => Some(Key::DownArrow),
            7 => Some(Key::End),
            8 => Some(Key::Escape),
            9 => Some(Key::F1),
            10 => Some(Key::F10),
            11 => Some(Key::F11),
            12 => Some(Key::F12),
            13 => Some(Key::F2),
            14 => Some(Key::F3),
            15 => Some(Key::F4),
            16 => Some(Key::F5),
            17 => Some(Key::F6),
            18 => Some(Key::F7),
            19 => Some(Key::F8),
            20 => Some(Key::F9),
            21 => Some(Key::Home),
            22 => Some(Key::LeftArrow),
            23 => Some(Key::MetaLeft),
            24 => Some(Key::MetaRight),
            25 => Some(Key::PageDown),
            26 => Some(Key::PageUp),
            27 => Some(Key::Return),
            28 => Some(Key::RightArrow),
            29 => Some(Key::ShiftLeft),
            30 => Some(Key::ShiftRight),
            31 => Some(Key::Space),
            32 => Some(Key::Tab),
            33 => Some(Key::UpArrow),
            34 => Some(Key::PrintScreen),
            35 => Some(Key::ScrollLock),
            36 => Some(Key::Pause),
            37 => Some(Key::NumLock),
            38 => Some(Key::BackQuote),
            39 => Some(Key::Num1),
            40 => Some(Key::Num2),
            41 => Some(Key::Num3),
            42 => Some(Key::Num4),
            43 => Some(Key::Num5),
            44 => Some(Key::Num6),
            45 => Some(Key::Num7),
            46 => Some(Key::Num8),
            47 => Some(Key::Num9),
            48 => Some(Key::Num0),
            49 => Some(Key::Minus),
            50 => Some(Key::Equal),
            51 => Some(Key::KeyQ),
            52 => Some(Key::KeyW),
            53 => Some(Key::KeyE),
            54 => Some(Key::KeyR),
            55 => Some(Key::KeyT),
            56 => Some(Key::KeyY),
            57 => Some(Key::KeyU),
            58 => Some(Key::KeyI),
            59 => Some(Key::KeyO),
            60 => Some(Key::KeyP),
            61 => Some(Key::LeftBracket),
            62 => Some(Key::RightBracket),
            63 => Some(Key::KeyA),
            64 => Some(Key::KeyS),
            65 => Some(Key::KeyD),
            66 => Some(Key::KeyF),
            67 => Some(Key::KeyG),
            68 => Some(Key::KeyH),
            69 => Some(Key::KeyJ),
            70 => Some(Key::KeyK),
            71 => Some(Key::KeyL),
            72 => Some(Key::SemiColon),
            73 => Some(Key::Quote),
            74 => Some(Key::BackSlash),
            75 => Some(Key::IntlBackslash),
            76 => Some(Key::KeyZ),
            77 => Some(Key::KeyX),
            78 => Some(Key::KeyC),
            79 => Some(Key::KeyV),
            80 => Some(Key::KeyB),
            81 => Some(Key::KeyN),
            82 => Some(Key::KeyM),
            83 => Some(Key::Comma),
            84 => Some(Key::Dot),
            85 => Some(Key::Slash),
            86 => Some(Key::Insert),
            87 => Some(Key::KpPlus),
            88 => Some(Key::KpMultiply),
            _ => None,
        }
    }

    /// The named key that a name stands for.
    pub fn from_name(s: &str) -> (r: Option<Key>)
        ensures
            r == key_named(s@),
    {
        let mut i: usize = 0;
        while i < NAMED_KEYS
            invariant
                i <= NAMED_KEYS,
                forall|j: int|
                    0 <= j < i ==> (#[trigger] key_by_ordinal(j) matches Some(k) && key_name(k)
                        != s@),
            decreases NAMED_KEYS - i,
        {
            proof {
                lemma_key_by_ordinal(i as int);
            }
            let k = Key::by_ordinal(i).unwrap();
            if text_eq(k.name(), s) {
                proof {
                    lemma_key_named(k);
                }
                return Some(k);
            }
            i = i + 1;
        }
        assert forall|k: Key| !(k is Unknown) implies key_name(k) != s@ by {
            lemma_key_ordinal(k);
            lemma_key_by_ordinal(key_ordinal(k));
        }
        None
    }
}

impl ProgrammableKeys {
    /// The name under which this button is stored.
    pub fn name(&self) -> (r: &'static str)
        ensures
            r@ == button_name(*self),
    {
        match self {
            ProgrammableKeys::MACROUNKNOWN => "MACROUNKNOWN",
            ProgrammableKeys::MACRO1 => "MACRO1",
            ProgrammableKeys::MACRO2 => "MACRO2",
            ProgrammableKeys::MACRO3 => "MACRO3",
            ProgrammableKeys::MACRO4 => "MACRO4",
            ProgrammableKeys::MACRO5 => "MACRO5",
            ProgrammableKeys::MACRO6 => "MACRO6",
            ProgrammableKeys::MACRO7 => "MACRO7",
            ProgrammableKeys::MACRO8 => "MACRO8",
            ProgrammableKeys::MACRO9 => "MACRO9",
            ProgrammableKeys::MACRO10 => "MACRO10",
            ProgrammableKeys::MACRO11 => "MACRO11",
            ProgrammableKeys::MACRO12 => "MACRO12",
            ProgrammableKeys::MACRO13 => "MACRO13",
            ProgrammableKeys::MACRO14 => "MACRO14",
            ProgrammableKeys::MACRO15 => "MACRO15",
            ProgrammableKeys::MACRO16 => "MACRO16",
            ProgrammableKeys::MACRO17 => "MACRO17",
            ProgrammableKeys::MACRO18 => "MACRO18",
            ProgrammableKeys::MACRO19 => "MACRO19",
            ProgrammableKeys::MACRO20 => "MACRO20",
            ProgrammableKeys::MACRO21 => "MACRO21",
            ProgrammableKeys::MACRO22 => "MACRO22",
            ProgrammableKeys::MACRO23 => "MACRO23",
            ProgrammableKeys::MACRO24 => "MACRO24",
            ProgrammableKeys::MACRO25 => "MACRO25",
            ProgrammableKeys::MACRO26 => "MACRO26",
            ProgrammableKeys::MACRO27 => "MACRO27",
            ProgrammableKeys::MACRO28 => "MACRO28",
            ProgrammableKeys::MACRO29 => "MACRO29",
            ProgrammableKeys::MACRO30 => "MACRO30",
            ProgrammableKeys::MACRO31 => "MACRO31",
            ProgrammableKeys::MACRO32 => "MACRO32",
        }
    }

    /// The button that a name stands for.
    pub fn from_name(s: &str) -> (r: Option<ProgrammableKeys>)
        ensures
            r == button_named(s@),
    {
        let mut i: i32 = 0;
        while i <= 32
            invariant
                0 <= i <= 33,
                forall|j: int| 0 <= j < i ==> button_name(#[trigger] key_at(j)) != s@,
            decreases 33 - i,
        {
            let p = ProgrammableKeys::get_from_index(i);
            if text_eq(p.name(), s) {
                proof {
                    lemma_button_named(p);
                }
                return Some(p);
            }
            i = i + 1;
        }
        assert forall|p: ProgrammableKeys| button_name(p) != s@ by {
            lemma_key_at_index(p);
            assert(key_at(index_of(p)) == p);
        }
        None
    }
}

/// An object with one member: how a variant with a payload is stored.
pub open spec fn tagged(tag: Seq<char>, value: JsonView) -> JsonView {
    JsonView::Obj(seq![MemberView { name: tag, value }])
}

/// How a key is stored: by name, or an unnamed key by its code.
pub open spec fn key_json(k: Key) -> JsonView {
    match k {
        Key::Unknown(code) => tagged("Unknown"@, JsonView::Num(code as int)),
        _ => JsonView::Str(key_name(k)),
    }
}

/// How an action is stored.
pub open spec fn action_json(a: ActionView) -> JsonView {
    match a {
        ActionView::Print(text) => tagged("Print"@, JsonView::Str(text)),
        ActionView::Tap(k) => tagged("Tap"@, key_json(k)),
        ActionView::Press(k) => tagged("Press"@, key_json(k)),
        ActionView::Release(k) => tagged("Release"@, key_json(k)),
        ActionView::Delay(ms) => tagged("Delay"@, JsonView::Num(ms as int)),
        ActionView::NoOp => JsonView::Str("None"@),
    }
}

/// How a macro type is stored.
pub open spec fn macro_type_json(t: MacroType) -> JsonView {
    match t {
        MacroType::Once => JsonView::Str("Once"@),
        MacroType::Toggle => JsonView::Str("Toggle"@),
        MacroType::Repeat(n) => tagged("Repeat"@, JsonView::Num(n as int)),
    }
}

/// How a binding is stored.
pub open spec fn macro_key_json(m: MacroKeyView) -> JsonView {
    JsonView::Obj(
        seq![
            MemberView {
                name: "programmable_key"@,
                value: JsonView::Str(button_name(m.programmable_key)),
            },
            MemberView { name: "macro_type"@, value: macro_type_json(m.macro_type) },
            MemberView {
                name: "actions"@,
                value: JsonView::Arr(m.actions.map_values(|a: ActionView| action_json(a))),
            },
        ],
    )
}

/// How a keymap is stored.
pub open spec fn keymap_json(k: KeymapView) -> JsonView {
    JsonView::Obj(
        seq![
            MemberView { name: "map_name"@, value: JsonView::Str(k.map_name) },
            MemberView { name: "button_count"@, value: JsonView::Num(k.button_count) },
            MemberView {
                name: "buttons"@,
                value: JsonView::Arr(k.buttons.map_values(|m: MacroKeyView| macro_key_json(m))),
            },
        ],
    )
}

/// The number that a tree holds, if it lies in `lo..=hi`.
pub open spec fn num_in(j: JsonView, lo: int, hi: int) -> Option<int> {
    match j {
        JsonView::Num(n) => if lo <= n <= hi {
            Some(n)
        } else {
            None
        },
        _ => None,
    }
}

/// The key that a tree stores.
pub open spec fn key_of_json(j: JsonView) -> Option<Key> {
    match j {
        JsonView::Str(s) => key_named(s),
        JsonView::Obj(ms) => if ms.len() == 1 && ms[0].name == "Unknown"@ {
            match num_in(ms[0].value, 0, u32::MAX as int) {
                Some(n) => Some(Key::Unknown(n as u32)),
                None => None,
            }
        } else {
            None
        },
        _ => None,
    }
}

/// The action that a variant name and its payload store.
pub open spec fn tagged_action(tag: Seq<char>, v: JsonView) -> Option<ActionView> {
    if tag == "Print"@ {
        match v {
            JsonView::Str(text) => Some(ActionView::Print(text)),
            _ => None,
        }
    } else if tag == "Tap"@ {
        match key_of_json(v) {
            Some(k) => Some(ActionView::Tap(k)),
            None => None,
        }
    } else if tag == "Press"@ {
        match key_of_json(v) {
            Some(k) => Some(ActionView::Press(k)),
            None => None,
        }
    } else if tag == "Release"@ {
        match key_of_json(v) {
            Some(k) => Some(ActionView::Release(k)),
            None => None,
        }
    } else if tag == "Delay"@ {
        match num_in(v, 0, u64::MAX as int) {
            Some(n) => Some(ActionView::Delay(n as u64)),
            None => None,
        }
    } else {
        None
    }
}

/// The action that a tree stores.
pub open spec fn action_of_json(j: JsonView) -> Option<ActionView> {
    match j {
        JsonView::Str(s) => if s == "None"@ {
            Some(ActionView::NoOp)
        } else {
            None
        },
        JsonView::Obj(ms) => if ms.len() == 1 {
            tagged_action(ms[0].name, ms[0].value)
        } else {
            None
        },
        _ => None,
    }
}

/// The macro type that a tree stores.
pub open spec fn macro_type_of_json(j: JsonView) -> Option<MacroType> {
    match j {
        JsonView::Str(s) => if s == "Once"@ {
            Some(MacroType::Once)
        } else if s == "Toggle"@ {
            Some(MacroType::Toggle)
        } else {
            None
        },
        JsonView::Obj(ms) => if ms.len() == 1 && ms[0].name == "Repeat"@ {
            match num_in(ms[0].value, i32::MIN as int, i32::MAX as int) {
                Some(n) => Some(MacroType::Repeat(n as i32)),
                None => None,
            }
        } else {
            None
        },
        _ => None,
    }
}

/// The actions that a list of trees stores, if each stores one.
pub open spec fn actions_of_json(items: Seq<JsonView>) -> Option<Seq<ActionView>> {
    if forall|i: int| 0 <= i < items.len() ==> (#[trigger] action_of_json(items[i])) is Some {
        Some(items.map_values(|j: JsonView| action_of_json(j).unwrap()))
    } else {
        None
    }
}

/// The binding that a tree stores.
pub open spec fn macro_key_of_json(j: JsonView) -> Option<MacroKeyView> {
    match j {
        JsonView::Obj(ms) => match member(ms, "programmable_key"@) {
            Some(JsonView::Str(name)) => match member(ms, "macro_type"@) {
                Some(t) => match member(ms, "actions"@) {
                    Some(JsonView::Arr(items)) => match button_named(name) {
                        Some(p) => match macro_type_of_json(t) {
                            Some(t) => match actions_of_json(items) {
                                Some(actions) => Some(
                                    MacroKeyView { programmable_key: p, macro_type: t, actions },
                                ),
                                None => None,
                            },
                            None => None,
                        },
                        None => None,
                    },
                    _ => None,
                },
                None => None,
            },
            _ => None,
        },
        _ => None,
    }
}

/// The bindings that a list of trees stores, if each stores one.
pub open spec fn buttons_of_json(items: Seq<JsonView>) -> Option<Seq<MacroKeyView>> {
    if forall|i: int| 0 <= i < items.len() ==> (#[trigger] macro_key_of_json(items[i])) is Some {
        Some(items.map_values(|j: JsonView| macro_key_of_json(j).unwrap()))
    } else {
        None
    }
}

/// The keymap that a tree stores, whether or not its count is consistent.
pub open spec fn keymap_of_json(j: JsonView) -> Option<KeymapView> {
    match j {
        JsonView::Obj(ms) => match member(ms, "map_name"@) {
            Some(JsonView::Str(name)) => match member(ms, "button_count"@) {
                Some(count) => match num_in(count, i32::MIN as int, i32::MAX as int) {
                    Some(n) => match member(ms, "buttons"@) {
                        Some(JsonView::Arr(items)) => match buttons_of_json(items) {
                            Some(buttons) => Some(
                                KeymapView { map_name: name, button_count: n, buttons },
                            ),
                            None => None,
                        },
                        _ => None,
                    },
                    None => None,
                },
                None => None,
            },
            _ => None,
        },
        _ => None,
    }
}

/// The number that a tree holds, if it lies in `lo..=hi`.
fn number_in(j: &Json, lo: i128, hi: i128) -> (r: Option<i128>)
    ensures
        r matches Some(n) ==> num_in(j@, lo as int, hi as int) == Some(n as int),
        r is None <==> num_in(j@, lo as int, hi as int) is None,
{
    match j {
        Json::Num(n) => if lo <= *n && *n <= hi {
            Some(*n)
        } else {
            None
        },
        _ => None,
    }
}

/// The one member of an object that has exactly one.
fn only_member(j: &Json) -> (r: Option<&Member>)
    ensures
        r matches Some(m) ==> j@ matches JsonView::Obj(ms) && ms.len() == 1 && ms[0] == (
        MemberView { name: m.name@, value: m.value@ }),
        r is None ==> !(j@ matches JsonView::Obj(ms) && ms.len() == 1),
{
    match j {
        Json::Obj(ms) => {
            proof {
                lemma_obj_view(*ms);
            }
            if ms.len() == 1 {
                Some(&ms[0])
            } else {
                None
            }
        },
        _ => None,
    }
}

/// An object with one member.
fn tagged_json(tag: &str, value: Json) -> (r: Json)
    ensures
        r@ == tagged(tag@, value@),
{
    let mut members: Vec<Member> = Vec::new();
    members.push(Member { name: tag.to_owned(), value });
    proof {
        lemma_obj_view(members);
        assert(members_view(members@) =~= seq![MemberView { name: tag@, value: value@ }]);
    }
    Json::Obj(members)
}

impl Key {
    /// The tree that stores this key.
    pub fn to_json(&self) -> (r: Json)
        ensures
            r@ == key_json(*self),
    {
        match self {
            Key::Unknown(code) => tagged_json("Unknown", Json::Num(*code as i128)),
            _ => Json::Str(self.name().to_owned()),
        }
    }

    /// The key that a tree stores.
    pub fn from_json(j: &Json) -> (r: Option<Key>)
        ensures
            r == key_of_json(j@),
    {
        match j {
            Json::Str(s) => Key::from_name(s.as_str()),
            _ => match only_member(j) {
                Some(m) => if text_eq(m.name.as_str(), "Unknown") {
                    match number_in(&m.value, 0, u32::MAX as i128) {
                        Some(n) => Some(Key::Unknown(n as u32)),
                        None => None,
                    }
                } else {
                    None
                },
                None => None,
            },
        }
    }
}

impl MacroAction {
    /// The tree that stores this action.
    pub fn to_json(&self) -> (r: Json)
        ensures
            r@ == action_json(self@),
    {
        match self {
            MacroAction::Print(text) => tagged_json("Print", Json::Str(text.clone())),
            MacroAction::Tap(k) => tagged_json("Tap", k.to_json()),
            MacroAction::Press(k) => tagged_json("Press", k.to_json()),
            MacroAction::Release(k) => tagged_json("Release", k.to_json()),
            MacroAction::Delay(ms) => tagged_json("Delay", Json::Num(*ms as i128)),
            MacroAction::NoOp => Json::Str("None".to_owned()),
        }
    }

    /// The action that a tree stores.
    pub fn from_json(j: &Json) -> (r: Option<MacroAction>)
        ensures
            r matches Some(a) ==> action_of_json(j@) == Some(a@),
            r is None <==> action_of_json(j@) is None,
    {
        match j {
            Json::Str(s) => if text_eq(s.as_str(), "None") {
                Some(MacroAction::NoOp)
            } else {
                None
            },
            _ => match only_member(j) {
                Some(m) => {
                    let tag = m.name.as_str();
                    let v = &m.value;
                    if text_eq(tag, "Print") {
                        match v {
                            Json::Str(text) => Some(MacroAction::Print(text.clone())),
                            _ => None,
                        }
                    } else if text_eq(tag, "Tap") {
                        match Key::from_json(v) {
                            Some(k) => Some(MacroAction::Tap(k)),
                            None => None,
                        }
                    } else if text_eq(tag, "Press") {
                        match Key::from_json(v) {
                            Some(k) => Some(MacroAction::Press(k)),
                            None => None,
                        }
                    } else if text_eq(tag, "Release") {
                        match Key::from_json(v) {
                            Some(k) => Some(MacroAction::Release(k)),
                            None => None,
                        }
                    } else if text_eq(tag, "Delay") {
                        match number_in(v, 0, u64::MAX as i128) {
                            Some(n) => Some(MacroAction::Delay(n as u64)),
                            None => None,
                        }
                    } else {
                        None
                    }
                },
                None => None,
            },
        }
    }
}

impl MacroType {
    /// The tree that stores this macro type.
    pub fn to_json(&self) -> (r: Json)
        ensures
            r@ == macro_type_json(*self),
    {
        match self {
            MacroType::Once => Json::Str("Once".to_owned()),
            MacroType::Toggle => Json::Str("Toggle".to_owned()),
            MacroType::Repeat(n) => tagged_json("Repeat", Json::Num(*n as i128)),
        }
    }

    /// The macro type that a tree stores.
    pub fn from_json(j: &Json) -> (r: Option<MacroType>)
        ensures
            r == macro_type_of_json(j@),
    {
        match j {
            Json::Str(s) => if text_eq(s.as_str(), "Once") {
                Some(MacroType::Once)
            } else if text_eq(s.as_str(), "Toggle") {
                Some(MacroType::Toggle)
            } else {
                None
            },
            _ => match only_member(j) {
                Some(m) => if text_eq(m.name.as_str(), "Repeat") {
                    match number_in(&m.value, i32::MIN as i128, i32::MAX as i128) {
                        Some(n) => Some(MacroType::Repeat(n as i32)),
                        None => None,
                    }
                } else {
                    None
                },
                None => None,
            },
        }
    }
}

/// The actions that a list of trees stores, if each stores one.
fn actions_from_json(items: &Vec<Json>) -> (r: Option<Vec<MacroAction>>)
    ensures
        r matches Some(v) ==> actions_of_json(items_view(items@)) == Some(actions_view(v@)),
        r is None <==> actions_of_json(items_view(items@)) is None,
{
    let ghost views = items_view(items@);
    let mut out: Vec<MacroAction> = Vec::new();
    let mut i: usize = 0;
    while i < items.len()
        invariant
            i <= items.len(),
            views == items_view(items@),
            out@.len() == i,
            forall|j: int| 0 <= j < i ==> action_of_json(views[j]) == Some(#[trigger] out@[j]@),
        decreases items.len() - i,
    {
        match MacroAction::from_json(&items[i]) {
            Some(a) => out.push(a),
            None => {
                assert(action_of_json(views[i as int]) is None);
                return None;
            },
        }
        i = i + 1;
    }
    assert forall|j: int| 0 <= j < views.len() implies (#[trigger] action_of_json(views[j])) is Some by {
        assert(action_of_json(views[j]) == Some(out@[j]@));
    }
    assert(views.map_values(|j: JsonView| action_of_json(j).unwrap()) =~= actions_view(out@));
    Some(out)
}

/// The bindings that a list of trees stores, if each stores one.
fn buttons_from_json(items: &Vec<Json>) -> (r: Option<Vec<MacroKey>>)
    ensures
        r matches Some(v) ==> buttons_of_json(items_view(items@)) == Some(buttons_view(v@)),
        r is None <==> buttons_of_json(items_view(items@)) is None,
{
    let ghost views = items_view(items@);
    let mut out: Vec<MacroKey> = Vec::new();
    let mut i: usize = 0;
    while i < items.len()
        invariant
            i <= items.len(),
            views == items_view(items@),
            out@.len() == i,
            forall|j: int| 0 <= j < i ==> macro_key_of_json(views[j]) == Some(#[trigger] out@[j]@),
        decreases items.len() - i,
    {
        match MacroKey::from_json(&items[i]) {
            Some(m) => out.push(m),
            None => {
                assert(macro_key_of_json(views[i as int]) is None);
                return None;
            },
        }
        i = i + 1;
    }
    assert forall|j: int| 0 <= j < views.len() implies (#[trigger] macro_key_of_json(
        views[j],
    )) is Some by {
        assert(macro_key_of_json(views[j]) == Some(out@[j]@));
    }
    assert(views.map_values(|j: JsonView| macro_key_of_json(j).unwrap()) =~= buttons_view(out@));
    Some(out)
}

impl MacroKey {
    /// The tree that stores this binding.
    pub fn to_json(&self) -> (r: Json)
        ensures
            r@ == macro_key_json(self@),
    {
        let mut actions: Vec<Json> = Vec::new();
        let mut i: usize = 0;
        while i < self.actions.len()
            invariant
                i <= self.actions.len(),
                actions@.len() == i,
                forall|j: int|
                    0 <= j < i ==> (#[trigger] actions@[j])@ == action_json(self.actions@[j]@),
            decreases self.actions.len() - i,
        {
            actions.push(self.actions[i].to_json());
            i = i + 1;
        }
        let ghost action_trees = actions;
        let mut members: Vec<Member> = Vec::new();
        members.push(
            Member {
                name: "programmable_key".to_owned(),
                value: Json::Str(self.programmable_key.name().to_owned()),
            },
        );
        members.push(Member { name: "macro_type".to_owned(), value: self.macro_type.to_json() });
        members.push(Member { name: "actions".to_owned(), value: Json::Arr(actions) });
        proof {
            lemma_arr_view(action_trees);
            assert(items_view(action_trees@) =~= self@.actions.map_values(
                |a: ActionView| action_json(a),
            ));
            lemma_obj_view(members);
            assert(members_view(members@) =~= macro_key_json(self@)->Obj_0);
        }
        Json::Obj(members)
    }

    /// The binding that a tree stores.
    pub fn from_json(j: &Json) -> (r: Option<MacroKey>)
        ensures
            r matches Some(m) ==> macro_key_of_json(j@) == Some(m@),
            r is None <==> macro_key_of_json(j@) is None,
    {
        let ms = match j {
            Json::Obj(ms) => ms,
            _ => return None,
        };
        proof {
            lemma_obj_view(*ms);
        }
        let name = match get_member(ms, "programmable_key") {
            Some(Json::Str(name)) => name,
            _ => return None,
        };
        let t = match get_member(ms, "macro_type") {
            Some(t) => t,
            None => return None,
        };
        let items = match get_member(ms, "actions") {
            Some(Json::Arr(items)) => items,
            _ => return None,
        };
        proof {
            lemma_arr_view(*items);
        }
        let programmable_key = match ProgrammableKeys::from_name(name.as_str()) {
            Some(p) => p,
            None => return None,
        };
        let macro_type = match MacroType::from_json(t) {
            Some(t) => t,
            None => return None,
        };
        let actions = match actions_from_json(items) {
            Some(actions) => actions,
            None => return None,
        };
        Some(MacroKey { programmable_key, macro_type, actions })
    }
}

impl Keymap {
    /// The tree that stores this keymap.
    pub fn to_json(&self) -> (r: Json)
        ensures
            r@ == keymap_json(self@),
    {
        let buttons = self.buttons();
        let mut trees: Vec<Json> = Vec::new();
        let mut i: usize = 0;
        while i < buttons.len()
            invariant
                i <= buttons.len(),
                buttons_view(buttons@) == self@.buttons,
                trees@.len() == i,
                forall|j: int|
                    0 <= j < i ==> (#[trigger] trees@[j])@ == macro_key_json(buttons@[j]@),
            decreases buttons.len() - i,
        {
            trees.push(buttons[i].to_json());
            i = i + 1;
        }
        let ghost button_trees = trees;
        let mut members: Vec<Member> = Vec::new();
        members.push(
            Member { name: "map_name".to_owned(), value: Json::Str(self.map_name().clone()) },
        );
        members.push(
            Member {
                name: "button_count".to_owned(),
                value: Json::Num(self.button_count() as i128),
            },
        );
        members.push(Member { name: "buttons".to_owned(), value: Json::Arr(trees) });
        proof {
            lemma_arr_view(button_trees);
            assert(items_view(button_trees@) =~= self@.buttons.map_values(
                |m: MacroKeyView| macro_key_json(m),
            ));
            lemma_obj_view(members);
            assert(members_view(members@) =~= keymap_json(self@)->Obj_0);
        }
        Json::Obj(members)
    }

    /// The keymap that a tree stores. A tree not shaped like a keymap is
    /// `Malformed`; one whose count is not its number of buttons is a
    /// `CountMismatch`.
    pub fn from_json(j: &Json) -> (r: Result<Keymap, DecodeError>)
        ensures
            match keymap_of_json(j@) {
                None => r matches Err(DecodeError::Malformed),
                Some(k) => if keymap_wf(k) {
                    r matches Ok(m) && m@ == k && m.wf()
                } else {
                    r matches Err(DecodeError::CountMismatch)
                },
            },
    {
        let ms = match j {
            Json::Obj(ms) => ms,
            _ => return Err(DecodeError::Malformed),
        };
        proof {
            lemma_obj_view(*ms);
        }
        let name = match get_member(ms, "map_name") {
            Some(Json::Str(name)) => name,
            _ => return Err(DecodeError::Malformed),
        };
        let count = match get_member(ms, "button_count") {
            Some(c) => match number_in(c, i32::MIN as i128, i32::MAX as i128) {
                Some(n) => n,
                None => return Err(DecodeError::Malformed),
            },
            None => return Err(DecodeError::Malformed),
        };
        let items = match get_member(ms, "buttons") {
            Some(Json::Arr(items)) => items,
            _ => return Err(DecodeError::Malformed),
        };
        proof {
            lemma_arr_view(*items);
        }
        let buttons = match buttons_from_json(items) {
            Some(buttons) => buttons,
            None => return Err(DecodeError::Malformed),
        };
        if count != buttons.len() as i128 {
            return Err(DecodeError::CountMismatch);
        }
        let m = Keymap::from_buttons(name.clone(), buttons);
        assert(m@ =~~= keymap_of_json(j@).unwrap());
        Ok(m)
    }
}

/// A stored key reads back as that key.
pub proof fn lemma_key_round_trip(k: Key)
    ensures
        key_of_json(key_json(k)) == Some(k),
{
    if !(k is Unknown) {
        lemma_key_named(k);
    }
}

/// A stored action reads back as that action.
pub proof fn lemma_action_round_trip(a: ActionView)
    ensures
        action_of_json(action_json(a)) == Some(a),
{
    reveal_strlit("Print");
    reveal_strlit("Tap");
    reveal_strlit("Press");
    reveal_strlit("Release");
    reveal_strlit("Delay");
    assert("Print"@.len() == 5);
    assert("Tap"@.len() == 3);
    assert("Press"@.len() == 5);
    assert("Release"@.len() == 7);
    assert("Delay"@.len() == 5);
    match a {
        ActionView::Tap(k) => lemma_key_round_trip(k),
        ActionView::Press(k) => {
            assert("Press"@[2] != "Print"@[2]);
            lemma_key_round_trip(k);
        },
        ActionView::Release(k) => lemma_key_round_trip(k),
        ActionView::Delay(ms) => {
            assert("Delay"@[0] != "Print"@[0]);
            assert("Delay"@[0] != "Press"@[0]);
        },
        _ => {},
    }
}

/// A stored macro type reads back as that type.
pub proof fn lemma_macro_type_round_trip(t: MacroType)
    ensures
        macro_type_of_json(macro_type_json(t)) == Some(t),
{
    reveal_strlit("Once");
    reveal_strlit("Toggle");
    assert("Once"@.len() == 4);
    assert("Toggle"@.len() == 6);
    assert("Once"@ != "Toggle"@);
}

/// A stored binding reads back as that binding.
pub proof fn lemma_macro_key_round_trip(m: MacroKeyView)
    ensures
        macro_key_of_json(macro_key_json(m)) == Some(m),
{
    reveal_strlit("programmable_key");
    reveal_strlit("macro_type");
    reveal_strlit("actions");
    assert("programmable_key"@.len() == 16);
    assert("macro_type"@.len() == 10);
    assert("actions"@.len() == 7);
    let ms = macro_key_json(m)->Obj_0;
    assert(ms.drop_first() =~= seq![ms[1], ms[2]]);
    assert(ms.drop_first().drop_first() =~= seq![ms[2]]);
    assert(member(ms, "programmable_key"@) == Some(ms[0].value));
    assert(member(ms.drop_first(), "macro_type"@) == Some(ms[1].value));
    assert(member(ms, "macro_type"@) == Some(ms[1].value));
    assert(member(ms.drop_first().drop_first(), "actions"@) == Some(ms[2].value));
    assert(member(ms.drop_first(), "actions"@) == Some(ms[2].value));
    assert(member(ms, "actions"@) == Some(ms[2].value));
    lemma_button_named(m.programmable_key);
    lemma_macro_type_round_trip(m.macro_type);
    let items = m.actions.map_values(|a: ActionView| action_json(a));
    assert forall|i: int| 0 <= i < items.len() implies (#[trigger] action_of_json(items[i]))
        == Some(m.actions[i]) by {
        lemma_action_round_trip(m.actions[i]);
    }
    assert(items.map_values(|j: JsonView| action_of_json(j).unwrap()) =~= m.actions);
}

/// Decoding the tree that a consistent keymap is stored as gives that keymap
/// back, field for field and in order.
pub proof fn lemma_round_trip(k: KeymapView)
    requires
        keymap_wf(k),
        k.button_count <= i32::MAX,
    ensures
        keymap_of_json(keymap_json(k)) == Some(k),
{
    reveal_strlit("map_name");
    reveal_strlit("button_count");
    reveal_strlit("buttons");
    assert("map_name"@.len() == 8);
    assert("button_count"@.len() == 12);
    assert("buttons"@.len() == 7);
    let ms = keymap_json(k)->Obj_0;
    assert(ms.drop_first() =~= seq![ms[1], ms[2]]);
    assert(ms.drop_first().drop_first() =~= seq![ms[2]]);
    assert(member(ms, "map_name"@) == Some(ms[0].value));
    assert(member(ms.drop_first(), "button_count"@) == Some(ms[1].value));
    assert(member(ms, "button_count"@) == Some(ms[1].value));
    assert(member(ms.drop_first().drop_first(), "buttons"@) == Some(ms[2].value));
    assert(member(ms.drop_first(), "buttons"@) == Some(ms[2].value));
    assert(member(ms, "buttons"@) == Some(ms[2].value));
    let items = k.buttons.map_values(|m: MacroKeyView| macro_key_json(m));
    assert forall|i: int| 0 <= i < items.len() implies (#[trigger] macro_key_of_json(items[i]))
        == Some(k.buttons[i]) by {
        lemma_macro_key_round_trip(k.buttons[i]);
    }
    assert(items.map_values(|j: JsonView| macro_key_of_json(j).unwrap()) =~= k.buttons);
}

/// The file name under which a keymap named `name` is stored.
pub fn keymap_file_name(name: &str) -> (r: String)
    ensures
        r@ == name@ + ".json"@,
{
    name.to_owned().concat(".json")
}

/// The keymap that loading gives: the one that `document` stores, or, where
/// no document exists yet, a blank keymap named `keymap` with one button.
pub fn keymap_from_document(document: Option<&Json>) -> (r: Result<Keymap, DecodeError>)
    ensures
        document is None ==> (r matches Ok(m) && m.wf() && m@.map_name == DEFAULT_KEYMAP@
            && m@.buttons == seq![blank_button(1)]),
        document matches Some(j) ==> match keymap_of_json(j@) {
            None => r matches Err(DecodeError::Malformed),
            Some(k) => if keymap_wf(k) {
                r matches Ok(m) && m@ == k && m.wf()
            } else {
                r matches Err(DecodeError::CountMismatch)
            },
        },
{
    match document {
        Some(j) => Keymap::from_json(j),
        None => {
            let m = Keymap::new(DEFAULT_KEYMAP.to_owned(), 1);
            assert(m@.buttons =~= seq![blank_button(1)]);
            Ok(m)
        },
    }
}

} // verus!
