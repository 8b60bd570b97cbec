use vstd::prelude::*;

use crate::programmable_keys::{key_at, ProgrammableKeys};

verus! {

/// A standard keyboard key used inside a macro.
#[derive(Clone, Copy, Debug, PartialEq, Eq, Structural, Hash)]
pub enum Key {
    Alt,
    Backspace,
    CapsLock,
    ControlLeft,
    ControlRight,
    Delete,
    DownArrow,
    End,
    Escape,
    F1,
    F10,
    F11,
    F12,
    F2,
    F3,
    F4,
    F5,
    F6,
    F7,
    F8,
    F9,
    Home,
    LeftArrow,
    /// Also known as "windows", "super" and "command".
    MetaLeft,
    /// Also known as "windows", "super" and "command".
    MetaRight,
    PageDown,
    PageUp,
    Return,
    RightArrow,
    ShiftLeft,
    ShiftRight,
    Space,
    Tab,
    UpArrow,
    PrintScreen,
    ScrollLock,
    Pause,
    NumLock,
    BackQuote,
    Num1,
    Num2,
    Num3,
    Num4,
    Num5,
    Num6,
    Num7,
    Num8,
    Num9,
    Num0,
    Minus,
    Equal,
    KeyQ,
    KeyW,
    KeyE,
    KeyR,
    KeyT,
    KeyY,
    KeyU,
    KeyI,
    KeyO,
    KeyP,
    LeftBracket,
    RightBracket,
    KeyA,
    KeyS,
    KeyD,
    KeyF,
    KeyG,
    KeyH,
    KeyJ,
    KeyK,
    KeyL,
    SemiColon,
    Quote,
    BackSlash,
    IntlBackslash,
    KeyZ,
    KeyX,
    KeyC,
    KeyV,
    KeyB,
    KeyN,
    KeyM,
    Comma,
    Dot,
    Slash,
    Insert,
    KpPlus,
    KpMultiply,
    /// A key with no name of its own, by its raw code.
    Unknown(u32),
}

/// One step of a macro.
#[derive(Clone, Debug, PartialEq, Eq)]
pub enum MacroAction {
    /// Types a string.
    Print(String),
    /// Presses and releases a key.
    Tap(Key),
    /// Presses a key and holds it.
    Press(Key),
    /// Releases a held key.
    Release(Key),
    /// Waits this many milliseconds.
    Delay(u64),
    /// Does nothing.
    NoOp,
}

/// How a macro is meant to be activated.
///
/// Stored with every binding; playback replays the actions once whatever
/// the type.
#[derive(Clone, Copy, Debug, PartialEq, Eq, Structural, Hash)]
pub enum MacroType {
    Once,
    Toggle,
    Repeat(i32),
}

/// The binding of one button to a macro.
#[derive(Clone, Debug, PartialEq, Eq)]
pub struct MacroKey {
    pub programmable_key: ProgrammableKeys,
    pub macro_type: MacroType,
    pub actions: Vec<MacroAction>,
}

/// A named profile of button bindings.
///
/// `button_count` always equals the number of bindings (see `wf`).
#[derive(Clone, Debug, PartialEq, Eq)]
pub struct Keymap {
    map_name: String,
    button_count: i32,
    buttons: Vec<MacroKey>,
}

/// The mathematical value of a `MacroAction`.
pub enum ActionView {
    Print(Seq<char>),
    Tap(Key),
    Press(Key),
    Release(Key),
    Delay(u64),
    NoOp,
}

/// The mathematical value of a `MacroKey`.
pub struct MacroKeyView {
    pub programmable_key: ProgrammableKeys,
    pub macro_type: MacroType,
    pub actions: Seq<ActionView>,
}

/// The mathematical value of a `Keymap`.
pub struct KeymapView {
    pub map_name: Seq<char>,
    pub button_count: int,
    pub buttons: Seq<MacroKeyView>,
}

impl View for MacroAction {
    type V = ActionView;

    open spec fn view(&self) -> ActionView {
        match self {
            MacroAction::Print(s) => ActionView::Print(s@),
            MacroAction::Tap(k) => ActionView::Tap(*k),
            MacroAction::Press(k) => ActionView::Press(*k),
            MacroAction::Release(k) => ActionView::Release(*k),
            MacroAction::Delay(ms) => ActionView::Delay(*ms),
            MacroAction::NoOp => ActionView::NoOp,
        }
    }
}

/// The values of a list of actions.
pub open spec fn actions_view(actions: Seq<MacroAction>) -> Seq<ActionView> {
    actions.map_values(|a: MacroAction| a@)
}

impl View for MacroKey {
    type V = MacroKeyView;

    open spec fn view(&self) -> MacroKeyView {
        MacroKeyView {
            programmable_key: self.programmable_key,
            macro_type: self.macro_type,
            actions: actions_view(self.actions@),
        }
    }
}

/// The values of a list of bindings.
pub open spec fn buttons_view(buttons: Seq<MacroKey>) -> Seq<MacroKeyView> {
    buttons.map_values(|b: MacroKey| b@)
}

impl View for Keymap {
    type V = KeymapView;

    closed spec fn view(&self) -> KeymapView {
        KeymapView {
            map_name: self.map_name@,
            button_count: self.button_count as int,
            buttons: buttons_view(self.buttons@),
        }
    }
}

/// A keymap value is consistent when its count is the number of its bindings.
pub open spec fn keymap_wf(k: KeymapView) -> bool {
    k.button_count == k.buttons.len()
}

/// The binding that a blank keymap gives the button at a 1-based position.
pub open spec fn blank_button(position: int) -> MacroKeyView {
    MacroKeyView {
        programmable_key: key_at(position),
        macro_type: MacroType::Once,
        actions: seq![ActionView::NoOp],
    }
}

/// The position in `buttons` of the first binding of `key`, if any.
pub open spec fn first_binding(buttons: Seq<MacroKeyView>, key: ProgrammableKeys) -> Option<int>
    decreases buttons.len(),
{
    if buttons.len() == 0 {
        None
    } else if buttons[0].programmable_key == key {
        Some(0)
    } else {
        match first_binding(buttons.drop_first(), key) {
            Some(i) => Some(i + 1),
            None => None,
        }
    }
}

/// The first binding of `key` is the earliest position that binds it.
pub proof fn lemma_first_binding(buttons: Seq<MacroKeyView>, key: ProgrammableKeys)
    ensures
        match first_binding(buttons, key) {
            Some(i) => 0 <= i < buttons.len() && buttons[i].programmable_key == key && forall|j: int|
                0 <= j < i ==> buttons[j].programmable_key != key,
            None => forall|j: int|
                0 <= j < buttons.len() ==> buttons[j].programmable_key != key,
        },
    decreases buttons.len(),
{
    if buttons.len() > 0 && buttons[0].programmable_key != key {
        lemma_first_binding(buttons.drop_first(), key);
        assert forall|j: int| 0 < j < buttons.len() implies buttons[j] == buttons.drop_first()[j
            - 1] by {}
    }
}

/// Where two bindings name the same button, the earlier one is the one that
/// resolution picks, or a binding earlier still.
pub proof fn lemma_earlier_binding_wins(
    buttons: Seq<MacroKeyView>,
    key: ProgrammableKeys,
    i: int,
    j: int,
)
    requires
        0 <= i < j < buttons.len(),
        buttons[i].programmable_key == key,
        buttons[j].programmable_key == key,
    ensures
        first_binding(buttons, key) is Some,
        first_binding(buttons, key).unwrap() <= i,
        first_binding(buttons, key).unwrap() != j,
{
    lemma_first_binding(buttons, key);
}

impl MacroAction {
    /// An equal copy of this action.
    pub fn copy(&self) -> (r: MacroAction)
        ensures
            r@ == self@,
    {
        match self {
            MacroAction::Print(s) => MacroAction::Print(s.clone()),
            MacroAction::Tap(k) => MacroAction::Tap(*k),
            MacroAction::Press(k) => MacroAction::Press(*k),
            MacroAction::Release(k) => MacroAction::Release(*k),
            MacroAction::Delay(ms) => MacroAction::Delay(*ms),
            MacroAction::NoOp => MacroAction::NoOp,
        }
    }
}

impl MacroKey {
    /// An equal copy of this binding.
    pub fn copy(&self) -> (r: MacroKey)
        ensures
            r@ == self@,
    {
        let mut actions: Vec<MacroAction> = Vec::new();
        let mut i: usize = 0;
        while i < self.actions.len()
            invariant
                i <= self.actions.len(),
                actions@.len() == i,
                forall|j: int| 0 <= j < i ==> actions@[j]@ == self.actions@[j]@,
            decreases self.actions.len() - i,
        {
            actions.push(self.actions[i].copy());
            i = i + 1;
        }
        assert(actions_view(actions@) =~= actions_view(self.actions@));
        MacroKey {
            programmable_key: self.programmable_key,
            macro_type: self.macro_type,
            actions,
        }
    }
}

impl Keymap {
    /// Whether the count matches the bindings.
    pub open spec fn wf(&self) -> bool {
        keymap_wf(self@)
    }

    /// A blank keymap of `count` buttons, each bound to `NoOp` once, in
    /// position order; a negative count gives no buttons.
    pub fn new(name: String, count: i32) -> (r: Keymap)
        ensures
            r.wf(),
            r@.map_name == name@,
            r@.button_count == if count < 0 { 0 } else { count as int },
            forall|i: int| 0 <= i < r@.buttons.len() ==> r@.buttons[i] == blank_button(i + 1),
    {
        let mut blank_buttons: Vec<MacroKey> = Vec::new();
        let mut i: i32 = 0;
        while i < count
            invariant
                0 <= i,
                count >= 0 ==> i <= count,
                count < 0 ==> i == 0,
                blank_buttons@.len() == i,
                forall|j: int| 0 <= j < i ==> blank_buttons@[j]@ == blank_button(j + 1),
            decreases count - i,
        {
            let mut actions: Vec<MacroAction> = Vec::new();
            actions.push(MacroAction::NoOp);
            let b = MacroKey {
                programmable_key: ProgrammableKeys::get_from_index(i + 1),
                macro_type: MacroType::Once,
                actions,
            };
            assert(b@.actions =~= seq![ActionView::NoOp]);
            blank_buttons.push(b);
            i = i + 1;
        }
        Keymap { map_name: name, button_count: i, buttons: blank_buttons }
    }

    /// Builds a keymap from its parts; the count is that of `buttons`.
    pub fn from_buttons(name: String, buttons: Vec<MacroKey>) -> (r: Keymap)
        requires
            buttons@.len() <= i32::MAX,
        ensures
            r.wf(),
            r@.map_name == name@,
            r@.buttons == buttons_view(buttons@),
    {
        let count = buttons.len() as i32;
        Keymap { map_name: name, button_count: count, buttons }
    }

    /// The profile's name.
    pub fn map_name(&self) -> (r: &String)
        ensures
            r@ == self@.map_name,
    {
        &self.map_name
    }

    /// The number of bindings.
    pub fn button_count(&self) -> (r: i32)
        ensures
            r == self@.button_count,
    {
        self.button_count
    }

    /// The bindings, in order.
    pub fn buttons(&self) -> (r: &Vec<MacroKey>)
        ensures
            buttons_view(r@) == self@.buttons,
    {
        &self.buttons
    }

    /// Appends a binding; the count follows the list.
    pub fn add_button(&mut self, button: MacroKey)
        requires
            old(self).wf(),
            old(self)@.buttons.len() < i32::MAX,
        ensures
            final(self).wf(),
            final(self)@.map_name == old(self)@.map_name,
            final(self)@.buttons == old(self)@.buttons.push(button@),
    {
        self.buttons.push(button);
        self.button_count = self.buttons.len() as i32;
        assert(buttons_view(self.buttons@) =~= buttons_view(old(self).buttons@).push(button@));
    }

    /// Replaces the whole keymap.
    pub fn replace(&mut self, keymap: Keymap)
        ensures
            final(self)@ == keymap@,
    {
        *self = keymap;
    }

    /// An equal copy, for reading without holding on to the shared keymap.
    pub fn snapshot(&self) -> (r: Keymap)
        ensures
            r@ == self@,
    {
        let mut buttons: Vec<MacroKey> = Vec::new();
        let mut i: usize = 0;
        while i < self.buttons.len()
            invariant
                i <= self.buttons.len(),
                buttons@.len() == i,
                forall|j: int| 0 <= j < i ==> buttons@[j]@ == self.buttons@[j]@,
            decreases self.buttons.len() - i,
        {
            buttons.push(self.buttons[i].copy());
            i = i + 1;
        }
        assert(buttons_view(buttons@) =~= buttons_view(self.buttons@));
        Keymap { map_name: self.map_name.clone(), button_count: self.button_count, buttons }
    }

    /// The position of the first binding of `key`.
    pub fn find_button(&self, key: ProgrammableKeys) -> (r: Option<usize>)
        ensures
            r matches Some(i) ==> first_binding(self@.buttons, key) == Some(i as int),
            r is None ==> first_binding(self@.buttons, key) is None,
    {
        proof {
            lemma_first_binding(self@.buttons, key);
        }
        let mut i: usize = 0;
        while i < self.buttons.len()
            invariant
                i <= self.buttons.len(),
                self@.buttons.len() == self.buttons@.len(),
                forall|j: int| 0 <= j < i ==> self@.buttons[j].programmable_key != key,
                first_binding(self@.buttons, key) matches Some(f) ==> i <= f,
            decreases self.buttons.len() - i,
        {
            proof {
                lemma_first_binding(self@.buttons, key);
            }
            assert(self@.buttons[i as int] == self.buttons@[i as int]@);
            if self.buttons[i].programmable_key == key {
                return Some(i);
            }
            i = i + 1;
        }
        None
    }

    /// A copy of the binding that `key` resolves to: the first in list order.
    pub fn resolve(&self, key: ProgrammableKeys) -> (r: Option<MacroKey>)
        ensures
            r matches Some(m) ==> first_binding(self@.buttons, key) matches Some(i) && m@
                == self@.buttons[i],
            r is None <==> first_binding(self@.buttons, key) is None,
    {
        proof {
            lemma_first_binding(self@.buttons, key);
        }
        match self.find_button(key) {
            Some(i) => Some(self.buttons[i].copy()),
            None => None,
        }
    }
}

} // verus!
