//! Names of the keys a global shortcut can be made of, and how a shortcut is
//! shown. Keys are named by their physical code (`KeyK`, `Digit4`,
//! `Backquote`, …).
use vstd::prelude::*;
use crate::main_window::settings::{HotkeySpec, HotkeySpecView};
use crate::text::text_order;

verus! {

/// The codes of keys that only modify others, and cannot end a shortcut.
pub open spec fn is_modifier(code: Seq<char>) -> bool {
    ||| code == "ShiftLeft"@
    ||| code == "ShiftRight"@
    ||| code == "ControlLeft"@
    ||| code == "ControlRight"@
    ||| code == "AltLeft"@
    ||| code == "AltRight"@
    ||| code == "SuperLeft"@
    ||| code == "SuperRight"@
    ||| code == "Meta"@
    ||| code == "Fn"@
    ||| code == "CapsLock"@
}

pub open spec fn is_upper_letter(c: char) -> bool {
    'A' <= c && c <= 'Z'
}

pub open spec fn is_digit(c: char) -> bool {
    '0' <= c && c <= '9'
}

/// `F1` to `F12`.
pub open spec fn is_function_key(code: Seq<char>) -> bool {
    ||| code.len() == 2 && code[0] == 'F' && '1' <= code[1] && code[1] <= '9'
    ||| code.len() == 3 && code[0] == 'F' && code[1] == '1' && '0' <= code[2] && code[2] <= '2'
}

/// How the key with code `code` is shown, or `None` when it cannot be bound:
/// letters (`KeyA`…`KeyZ`) and digits (`Digit0`…`Digit9`) by the character,
/// the function keys by their code, `Space` as is and `Backquote` as its
/// character.
pub open spec fn code_label(code: Seq<char>) -> Option<Seq<char>> {
    if code.len() == 4 && code[0] == 'K' && code[1] == 'e' && code[2] == 'y' && is_upper_letter(
        code[3],
    ) {
        Some(seq![code[3]])
    } else if code.len() == 6 && code[0] == 'D' && code[1] == 'i' && code[2] == 'g' && code[3]
        == 'i' && code[4] == 't' && is_digit(code[5]) {
        Some(seq![code[5]])
    } else if is_function_key(code) {
        Some(code)
    } else if code == "Space"@ {
        Some("Space"@)
    } else if code == "Backquote"@ {
        Some("`"@)
    } else {
        None
    }
}

/// How a shortcut is shown: the symbols of its modifiers in the order
/// ⌃ ⌥ ⇧ ⌘, then its key (by its code when the key has no label).
pub open spec fn shortcut_label(h: HotkeySpecView) -> Seq<char> {
    (if h.ctrl {
        "⌃"@
    } else {
        Seq::empty()
    }) + (if h.alt {
        "⌥"@
    } else {
        Seq::empty()
    }) + (if h.shift {
        "⇧"@
    } else {
        Seq::empty()
    }) + (if h.meta {
        "⌘"@
    } else {
        Seq::empty()
    }) + match code_label(h.code) {
        Some(l) => l,
        None => h.code,
    }
}

/// Whether the key with code `code` only modifies others.
pub fn is_modifier_code(code: &str) -> (b: bool)
    ensures
        b == is_modifier(code@),
{
    text_order(code, "ShiftLeft") == 0 || text_order(code, "ShiftRight") == 0 || text_order(
        code,
        "ControlLeft",
    ) == 0 || text_order(code, "ControlRight") == 0 || text_order(code, "AltLeft") == 0
        || text_order(code, "AltRight") == 0 || text_order(code, "SuperLeft") == 0 || text_order(
        code,
        "SuperRight",
    ) == 0 || text_order(code, "Meta") == 0 || text_order(code, "Fn") == 0 || text_order(
        code,
        "CapsLock",
    ) == 0
}

/// How the key with code `code` is shown, if it can be bound.
pub fn key_code_label(code: &str) -> (r: Option<String>)
    ensures
        match r {
            Some(l) => code_label(code@) == Some(l@),
            None => code_label(code@) is None,
        },
{
    let n = code.unicode_len();
    if n == 4 && code.get_char(0) == 'K' && code.get_char(1) == 'e' && code.get_char(2) == 'y' {
        let c = code.get_char(3);
        if 'A' <= c && c <= 'Z' {
            let l = code.substring_char(3, 4).to_owned();
            assert(l@ =~= seq![code@[3]]);
            return Some(l);
        }
    }
    if n == 6 && code.get_char(0) == 'D' && code.get_char(1) == 'i' && code.get_char(2) == 'g'
        && code.get_char(3) == 'i' && code.get_char(4) == 't' {
        let c = code.get_char(5);
        if '0' <= c && c <= '9' {
            let l = code.substring_char(5, 6).to_owned();
            assert(l@ =~= seq![code@[5]]);
            return Some(l);
        }
    }
    if n == 2 && code.get_char(0) == 'F' {
        let c = code.get_char(1);
        if '1' <= c && c <= '9' {
            return Some(code.to_owned());
        }
    }
    if n == 3 && code.get_char(0) == 'F' && code.get_char(1) == '1' {
        let c = code.get_char(2);
        if '0' <= c && c <= '2' {
            return Some(code.to_owned());
        }
    }
    proof {
        reveal_strlit("Space");
        reveal_strlit("Backquote");
    }
    if text_order(code, "Space") == 0 {
        Some(String::from_str("Space"))
    } else if text_order(code, "Backquote") == 0 {
        Some(String::from_str("`"))
    } else {
        None
    }
}

/// The built-in shortcut for the compact window: Ctrl and the key left of 1
/// (Ctrl is the command modifier on the platforms this library serves).
pub open spec fn default_hotkey() -> HotkeySpecView {
    HotkeySpecView { alt: false, ctrl: true, shift: false, meta: false, code: "Backquote"@ }
}

impl HotkeySpec {
    /// The built-in shortcut for the compact window.
    pub fn default_mini_toggle() -> (h: HotkeySpec)
        ensures
            h@ == default_hotkey(),
    {
        HotkeySpec {
            alt: false,
            ctrl: true,
            shift: false,
            meta: false,
            code: String::from_str("Backquote"),
        }
    }

    /// How the shortcut is shown, such as ⌃` or ⌥⇧K.
    pub fn label(&self) -> (s: String)
        ensures
            s@ == shortcut_label(self@),
    {
        let mut s = String::new();
        if self.ctrl {
            s = s.concat("⌃");
        }
        if self.alt {
            s = s.concat("⌥");
        }
        if self.shift {
            s = s.concat("⇧");
        }
        if self.meta {
            s = s.concat("⌘");
        }
        let key = match key_code_label(self.code.as_str()) {
            Some(l) => l,
            None => self.code.clone(),
        };
        proof {
            assert(Seq::<char>::empty() + Seq::<char>::empty() =~= Seq::<char>::empty());
        }
        s.concat(key.as_str())
    }
}

} // verus!
