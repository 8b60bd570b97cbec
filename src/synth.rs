use vstd::prelude::*;

use crate::keymap::{actions_view, ActionView, Key, MacroAction, MacroKey};

verus! {

/// A key as the operating system's key-synthesis facility names it.
#[derive(Clone, Copy, Debug, PartialEq, Eq, Structural, Hash)]
pub enum SynthKey {
    Alt,
    Backspace,
    CapsLock,
    LControl,
    RControl,
    Delete,
    DownArrow,
    End,
    Escape,
    F1,
    F10,
    F11,
    F12,
    F2,
    F3,
    F4,
    F5,
    F6,
    F7,
    F8,
    F9,
    Home,
    LeftArrow,
    Meta,
    PageDown,
    PageUp,
    Return,
    RightArrow,
    LShift,
    RShift,
    Space,
    Tab,
    UpArrow,
    Print,
    ScrollLock,
    Pause,
    Numlock,
    Insert,
    /// A key that types this character.
    Unicode(char),
    /// A key by its platform key code.
    Other(u32),
}

/// Which half of a keystroke to synthesize.
#[derive(Clone, Copy, Debug, PartialEq, Eq, Structural, Hash)]
pub enum Direction {
    Press,
    Release,
    /// Press, then release.
    Click,
}

/// One call into the key-synthesis facility, or a pause between calls.
#[derive(Clone, Debug, PartialEq, Eq)]
pub enum SynthStep {
    /// Types a string, character by character.
    Text(String),
    Key(SynthKey, Direction),
    /// Suspends playback for this many milliseconds.
    Sleep(u64),
}

/// The mathematical value of a `SynthStep`.
pub enum StepView {
    Text(Seq<char>),
    Key(SynthKey, Direction),
    Sleep(u64),
}

impl View for SynthStep {
    type V = StepView;

    open spec fn view(&self) -> StepView {
        match self {
            SynthStep::Text(s) => StepView::Text(s@),
            SynthStep::Key(k, d) => StepView::Key(*k, *d),
            SynthStep::Sleep(ms) => StepView::Sleep(*ms),
        }
    }
}

/// The values of a list of steps.
pub open spec fn steps_view(steps: Seq<SynthStep>) -> Seq<StepView> {
    steps.map_values(|s: SynthStep| s@)
}

/// The synthesis key that stands for a keyboard key. Letters stand for their
/// lower-case character; `Unknown` keys pass their code through.
pub open spec fn synth_key(k: Key) -> SynthKey {
    match k {
        Key::Alt => SynthKey::Alt,
        Key::Backspace => SynthKey::Backspace,
        Key::CapsLock => SynthKey::CapsLock,
        Key::ControlLeft => SynthKey::LControl,
        Key::ControlRight => SynthKey::RControl,
        Key::Delete => SynthKey::Delete,
        Key::DownArrow => SynthKey::DownArrow,
        Key::End => SynthKey::End,
        Key::Escape => SynthKey::Escape,
        Key::F1 => SynthKey::F1,
        Key::F10 => SynthKey::F10,
        Key::F11 => SynthKey::F11,
        Key::F12 => SynthKey::F12,
        Key::F2 => SynthKey::F2,
        Key::F3 => SynthKey::F3,
        Key::F4 => SynthKey::F4,
        Key::F5 => SynthKey::F5,
        Key::F6 => SynthKey::F6,
        Key::F7 => SynthKey::F7,
        Key::F8 => SynthKey::F8,
        Key::F9 => SynthKey::F9,
        Key::Home => SynthKey::Home,
        Key::LeftArrow => SynthKey::LeftArrow,
        Key::MetaLeft => SynthKey::Meta,
        Key::MetaRight => SynthKey::Meta,
        Key::PageDown => SynthKey::PageDown,
        Key::PageUp => SynthKey::PageUp,
        Key::Return => SynthKey::Return,
        Key::RightArrow => SynthKey::RightArrow,
        Key::ShiftLeft => SynthKey::LShift,
        Key::ShiftRight => SynthKey::RShift,
        Key::Space => SynthKey::Space,
        Key::Tab => SynthKey::Tab,
        Key::UpArrow => SynthKey::UpArrow,
        Key::PrintScreen => SynthKey::Print,
        Key::ScrollLock => SynthKey::ScrollLock,
        Key::Pause => SynthKey::Pause,
        Key::NumLock => SynthKey::Numlock,
        Key::BackQuote => SynthKey::Unicode('\''),
        Key::Num1 => SynthKey::Unicode('1'),
        Key::Num2 => SynthKey::Unicode('2'),
        Key::Num3 => SynthKey::Unicode('3'),
        Key::Num4 => SynthKey::Unicode('4'),
        Key::Num5 => SynthKey::Unicode('5'),
        Key::Num6 => SynthKey::Unicode('6'),
        Key::Num7 => SynthKey::Unicode('7'),
        Key::Num8 => SynthKey::Unicode('8'),
        Key::Num9 => SynthKey::Unicode('9'),
        Key::Num0 => SynthKey::Unicode('0'),
        Key::Minus => SynthKey::Unicode('-'),
        Key::Equal => SynthKey::Unicode('='),
        Key::KeyQ => SynthKey::Unicode('q'),
        Key::KeyW => SynthKey::Unicode('w'),
        Key::KeyE => SynthKey::Unicode('e'),
        Key::KeyR => SynthKey::Unicode('r'),
        Key::KeyT => SynthKey::Unicode('t'),
        Key::KeyY => SynthKey::Unicode('y'),
        Key::KeyU => SynthKey::Unicode('u'),
        Key::KeyI => SynthKey::Unicode('i'),
        Key::KeyO => SynthKey::Unicode('o'),
        Key::KeyP => SynthKey::Unicode('p'),
        Key::LeftBracket => SynthKey::Unicode('['),
        Key::RightBracket => SynthKey::Unicode(']'),
        Key::KeyA => SynthKey::Unicode('a'),
        Key::KeyS => SynthKey::Unicode('s'),
        Key::KeyD => SynthKey::Unicode('d'),
        Key::KeyF => SynthKey::Unicode('f'),
        Key::KeyG => SynthKey::Unicode('g'),
        Key::KeyH => SynthKey::Unicode('h'),
        Key::KeyJ => SynthKey::Unicode('j'),
        Key::KeyK => SynthKey::Unicode('k'),
        Key::KeyL => SynthKey::Unicode('l'),
        Key::SemiColon => SynthKey::Unicode(';'),
        Key::Quote => SynthKey::Unicode('\''),
        Key::BackSlash => SynthKey::Unicode('\\'),
        Key::IntlBackslash => SynthKey::Unicode('\\'),
        Key::KeyZ => SynthKey::Unicode('z'),
        Key::KeyX => SynthKey::Unicode('x'),
        Key::KeyC => SynthKey::Unicode('c'),
        Key::KeyV => SynthKey::Unicode('v'),
        Key::KeyB => SynthKey::Unicode('b'),
        Key::KeyN => SynthKey::Unicode('n'),
        Key::KeyM => SynthKey::Unicode('m'),
        Key::Comma => SynthKey::Unicode(','),
        Key::Dot => SynthKey::Unicode('.'),
        Key::Slash => SynthKey::Unicode('/'),
        Key::Insert => SynthKey::Insert,
        Key::KpPlus => SynthKey::Unicode('+'),
        Key::KpMultiply => SynthKey::Unicode('*'),
        Key::Unknown(code) => SynthKey::Other(code),
    }
}

/// What the synthesis facility is asked to do for one action.
pub open spec fn action_steps(a: ActionView) -> Seq<StepView> {
    match a {
        ActionView::Print(text) => seq![StepView::Text(text)],
        ActionView::Tap(k) => seq![StepView::Key(synth_key(k), Direction::Click)],
        ActionView::Press(k) => seq![StepView::Key(synth_key(k), Direction::Press)],
        ActionView::Release(k) => seq![StepView::Key(synth_key(k), Direction::Release)],
        ActionView::Delay(ms) => seq![StepView::Sleep(ms)],
        ActionView::NoOp => seq![],
    }
}

/// The steps of a list of actions: those of each action, in list order.
pub open spec fn playback_of(actions: Seq<ActionView>) -> Seq<StepView>
    decreases actions.len(),
{
    if actions.len() == 0 {
        seq![]
    } else {
        playback_of(actions.drop_last()) + action_steps(actions.last())
    }
}

impl Key {
    /// The synthesis key that stands for this key.
    pub fn to_synth(&self) -> (r: SynthKey)
        ensures
            r == synth_key(*self),
    {
        match self {
            Key::Alt => SynthKey::Alt,
            Key::Backspace => SynthKey::Backspace,
            Key::CapsLock => SynthKey::CapsLock,
            Key::ControlLeft => SynthKey::LControl,
            Key::ControlRight => SynthKey::RControl,
            Key::Delete => SynthKey::Delete,
            Key::DownArrow => SynthKey::DownArrow,
            Key::End => SynthKey::End,
            Key::Escape => SynthKey::Escape,
            Key::F1 => SynthKey::F1,
            Key::F10 => SynthKey::F10,
            Key::F11 => SynthKey::F11,
            Key::F12 => SynthKey::F12,
            Key::F2 => SynthKey::F2,
            Key::F3 => SynthKey::F3,
            Key::F4 => SynthKey::F4,
            Key::F5 => SynthKey::F5,
            Key::F6 => SynthKey::F6,
            Key::F7 => SynthKey::F7,
            Key::F8 => SynthKey::F8,
            Key::F9 => SynthKey::F9,
            Key::Home => SynthKey::Home,
            Key::LeftArrow => SynthKey::LeftArrow,
            Key::MetaLeft => SynthKey::Meta,
            Key::MetaRight => SynthKey::Meta,
            Key::PageDown => SynthKey::PageDown,
            Key::PageUp => SynthKey::PageUp,
            Key::Return => SynthKey::Return,
            Key::RightArrow => SynthKey::RightArrow,
            Key::ShiftLeft => SynthKey::LShift,
            Key::ShiftRight => SynthKey::RShift,
            Key::Space => SynthKey::Space,
            Key::Tab => SynthKey::Tab,
            Key::UpArrow => SynthKey::UpArrow,
            Key::PrintScreen => SynthKey::Print,
            Key::ScrollLock => SynthKey::ScrollLock,
            Key::Pause => SynthKey::Pause,
            Key::NumLock => SynthKey::Numlock,
            Key::BackQuote => SynthKey::Unicode('\''),
            Key::Num1 => SynthKey::Unicode('1'),
            Key::Num2 => SynthKey::Unicode('2'),
            Key::Num3 => SynthKey::Unicode('3'),
            Key::Num4 => SynthKey::Unicode('4'),
            Key::Num5 => SynthKey::Unicode('5'),
            Key::Num6 => SynthKey::Unicode('6'),
            Key::Num7 => SynthKey::Unicode('7'),
            Key::Num8 => SynthKey::Unicode('8'),
            Key::Num9 => SynthKey::Unicode('9'),
            Key::Num0 => SynthKey::Unicode('0'),
            Key::Minus => SynthKey::Unicode('-'),
            Key::Equal => SynthKey::Unicode('='),
            Key::KeyQ => SynthKey::Unicode('q'),
            Key::KeyW => SynthKey::Unicode('w'),
            Key::KeyE => SynthKey::Unicode('e'),
            Key::KeyR => SynthKey::Unicode('r'),
            Key::KeyT => SynthKey::Unicode('t'),
            Key::KeyY => SynthKey::Unicode('y'),
            Key::KeyU => SynthKey::Unicode('u'),
            Key::KeyI => SynthKey::Unicode('i'),
            Key::KeyO => SynthKey::Unicode('o'),
            Key::KeyP => SynthKey::Unicode('p'),
            Key::LeftBracket => SynthKey::Unicode('['),
            Key::RightBracket => SynthKey::Unicode(']'),
            Key::KeyA => SynthKey::Unicode('a'),
            Key::KeyS => SynthKey::Unicode('s'),
            Key::KeyD => SynthKey::Unicode('d'),
            Key::KeyF => SynthKey::Unicode('f'),
            Key::KeyG => SynthKey::Unicode('g'),
            Key::KeyH => SynthKey::Unicode('h'),
            Key::KeyJ => SynthKey::Unicode('j'),
            Key::KeyK => SynthKey::Unicode('k'),
            Key::KeyL => SynthKey::Unicode('l'),
            Key::SemiColon => SynthKey::Unicode(';'),
            Key::Quote => SynthKey::Unicode('\''),
            Key::BackSlash => SynthKey::Unicode('\\'),
            Key::IntlBackslash => SynthKey::Unicode('\\'),
            Key::KeyZ => SynthKey::Unicode('z'),
            Key::KeyX => SynthKey::Unicode('x'),
            Key::KeyC => SynthKey::Unicode('c'),
            Key::KeyV => SynthKey::Unicode('v'),
            Key::KeyB => SynthKey::Unicode('b'),
            Key::KeyN => SynthKey::Unicode('n'),
            Key::KeyM => SynthKey::Unicode('m'),
            Key::Comma => SynthKey::Unicode(','),
            Key::Dot => SynthKey::Unicode('.'),
            Key::Slash => SynthKey::Unicode('/'),
            Key::Insert => SynthKey::Insert,
            Key::KpPlus => SynthKey::Unicode('+'),
            Key::KpMultiply => SynthKey::Unicode('*'),
            Key::Unknown(code) => SynthKey::Other(*code),
        }
    }
}

/// The steps that play one action.
fn steps_for_action(action: &MacroAction, steps: &mut Vec<SynthStep>)
    ensures
        steps_view(final(steps)@) == steps_view(old(steps)@) + action_steps(action@),
{
    let ghost before = steps@;
    match action {
        MacroAction::Print(text) => steps.push(SynthStep::Text(text.clone())),
        MacroAction::Tap(k) => steps.push(SynthStep::Key(k.to_synth(), Direction::Click)),
        MacroAction::Press(k) => steps.push(SynthStep::Key(k.to_synth(), Direction::Press)),
        MacroAction::Release(k) => steps.push(SynthStep::Key(k.to_synth(), Direction::Release)),
        MacroAction::Delay(ms) => steps.push(SynthStep::Sleep(*ms)),
        MacroAction::NoOp => {},
    }
    assert(steps_view(steps@) =~= steps_view(before) + action_steps(action@));
}

/// The synthesis steps that play a binding's macro: the actions in list
/// order, each exactly once, whatever the macro's type.
pub fn playback_steps(macro_key: &MacroKey) -> (r: Vec<SynthStep>)
    ensures
        steps_view(r@) == playback_of(macro_key@.actions),
{
    let actions = &macro_key.actions;
    let mut steps: Vec<SynthStep> = Vec::new();
    let mut i: usize = 0;
    while i < actions.len()
        invariant
            i <= actions.len(),
            steps_view(steps@) == playback_of(actions_view(actions@.subrange(0, i as int))),
        decreases actions.len() - i,
    {
        steps_for_action(&actions[i], &mut steps);
        proof {
            let prefix = actions_view(actions@.subrange(0, i + 1));
            assert(prefix.drop_last() =~= actions_view(actions@.subrange(0, i as int)));
            assert(prefix.last() == actions@[i as int]@);
        }
        i = i + 1;
    }
    assert(actions@.subrange(0, actions.len() as int) =~= actions@);
    steps
}

} // verus!
