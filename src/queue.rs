use vstd::prelude::*;

use crate::keymap::{first_binding, Keymap};
use crate::programmable_keys::{key_of_linux_code, ProgrammableKeys};
use crate::synth::{playback_of, playback_steps, steps_view, SynthStep};

verus! {

/// The presses waiting to be dispatched, oldest first.
///
/// Presses leave in the order they arrived, so that a burst of presses is
/// served fairly.
#[derive(Clone, Debug, PartialEq, Eq)]
pub struct EventQueue {
    items: Vec<ProgrammableKeys>,
}

impl View for EventQueue {
    type V = Seq<ProgrammableKeys>;

    closed spec fn view(&self) -> Seq<ProgrammableKeys> {
        self.items@
    }
}

/// The button that a key event from the device queues, if any: presses of
/// codes in the programmable range. Releases and other codes queue nothing.
pub open spec fn queued_key(code: u32, pressed: bool) -> Option<ProgrammableKeys> {
    if pressed && key_of_linux_code(code as int) != ProgrammableKeys::MACROUNKNOWN {
        Some(key_of_linux_code(code as int))
    } else {
        None
    }
}

/// What one dispatch tick did.
#[derive(Clone, Debug, PartialEq, Eq)]
pub enum TickOutcome {
    /// Nothing was waiting.
    Idle,
    /// A press was taken, but no binding names its button.
    Unbound(ProgrammableKeys),
    /// A press was taken; these steps play its macro.
    Play(Vec<SynthStep>),
}

/// Translates one key event from the device into the button it queues.
pub fn key_for_event(code: u32, pressed: bool) -> (r: Option<ProgrammableKeys>)
    ensures
        r == queued_key(code, pressed),
{
    if !pressed {
        return None;
    }
    let key = ProgrammableKeys::from_u32(code);
    match key {
        ProgrammableKeys::MACROUNKNOWN => None,
        _ => Some(key),
    }
}

impl EventQueue {
    /// An empty queue.
    pub fn new() -> (r: EventQueue)
        ensures
            r@ == Seq::<ProgrammableKeys>::empty(),
    {
        EventQueue { items: Vec::new() }
    }

    /// The number of waiting presses.
    pub fn len(&self) -> (r: usize)
        ensures
            r == self@.len(),
    {
        self.items.len()
    }

    /// Whether nothing is waiting.
    pub fn is_empty(&self) -> (r: bool)
        ensures
            r == (self@.len() == 0),
    {
        self.items.len() == 0
    }

    /// Adds a press at the back.
    pub fn push(&mut self, key: ProgrammableKeys)
        ensures
            final(self)@ == old(self)@.push(key),
    {
        self.items.push(key);
    }

    /// Takes the oldest press, if any.
    pub fn pop_next(&mut self) -> (r: Option<ProgrammableKeys>)
        ensures
            old(self)@.len() == 0 ==> r is None && final(self)@ == old(self)@,
            old(self)@.len() > 0 ==> r == Some(old(self)@[0]) && final(self)@ == old(
                self,
            )@.drop_first(),
    {
        if self.items.len() == 0 {
            None
        } else {
            let key = self.items.remove(0);
            assert(self.items@ =~= old(self).items@.drop_first());
            Some(key)
        }
    }

    /// Queues the button of one key event from the device, if it has one.
    pub fn record_event(&mut self, code: u32, pressed: bool)
        ensures
            final(self)@ == match queued_key(code, pressed) {
                Some(k) => old(self)@.push(k),
                None => old(self)@,
            },
    {
        match key_for_event(code, pressed) {
            Some(k) => self.push(k),
            None => {},
        }
    }
}

/// The steps that a press of `key` plays under `keymap`: those of the first
/// binding of the button, or none if no binding names it.
pub fn plan_for_key(keymap: &Keymap, key: ProgrammableKeys) -> (r: Option<Vec<SynthStep>>)
    ensures
        r is None <==> first_binding(keymap@.buttons, key) is None,
        r matches Some(steps) ==> first_binding(keymap@.buttons, key) matches Some(i) && steps_view(
            steps@,
        ) == playback_of(keymap@.buttons[i].actions),
{
    match keymap.resolve(key) {
        Some(macro_key) => Some(playback_steps(&macro_key)),
        None => None,
    }
}

/// One tick of the dispatcher: takes the oldest press, if any, and resolves
/// it against `keymap`.
pub fn dispatch_tick(queue: &mut EventQueue, keymap: &Keymap) -> (r: TickOutcome)
    ensures
        old(queue)@.len() == 0 ==> r is Idle && final(queue)@ == old(queue)@,
        old(queue)@.len() > 0 ==> final(queue)@ == old(queue)@.drop_first() && match first_binding(
            keymap@.buttons,
            old(queue)@[0],
        ) {
            None => r == TickOutcome::Unbound(old(queue)@[0]),
            Some(i) => r matches TickOutcome::Play(steps) && steps_view(steps@) == playback_of(
                keymap@.buttons[i].actions,
            ),
        },
{
    match queue.pop_next() {
        None => TickOutcome::Idle,
        Some(key) => match plan_for_key(keymap, key) {
            Some(steps) => TickOutcome::Play(steps),
            None => TickOutcome::Unbound(key),
        },
    }
}

/// Codes that name no button never enter the queue: whatever event comes,
/// the queue either stays as it was or gains one numbered button.
pub proof fn lemma_unknown_never_queued(code: u32, pressed: bool)
    ensures
        queued_key(code, pressed) matches Some(k) ==> k != ProgrammableKeys::MACROUNKNOWN,
        key_of_linux_code(code as int) == ProgrammableKeys::MACROUNKNOWN ==> queued_key(
            code,
            pressed,
        ) is None,
        !pressed ==> queued_key(code, pressed) is None,
{
}

/// Presses leave the queue in the order they were pushed: after `a` and then
/// `b` are pushed, the next take gives `a` if nothing else was waiting (and
/// leaves `b`), and otherwise the oldest waiting press, with `a` and `b` kept
/// behind the rest in push order.
pub proof fn lemma_fifo_order(waiting: Seq<ProgrammableKeys>, a: ProgrammableKeys, b: ProgrammableKeys)
    ensures
        waiting.len() == 0 ==> waiting.push(a).push(b)[0] == a && waiting.push(a).push(
            b,
        ).drop_first() == seq![b],
        waiting.len() > 0 ==> waiting.push(a).push(b)[0] == waiting[0] && waiting.push(a).push(
            b,
        ).drop_first() == waiting.drop_first().push(a).push(b),
{
    assert(waiting.len() == 0 ==> waiting.push(a).push(b).drop_first() =~= seq![b]);
    assert(waiting.len() > 0 ==> waiting.push(a).push(b).drop_first() =~= waiting.drop_first().push(
        a,
    ).push(b));
}

} // verus!
