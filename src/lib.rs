//! The core of a macro-pad driver: the tables that translate the pad's raw
//! key codes into buttons, the keymap that binds each button to a macro, the
//! queue of presses, the dispatcher that resolves a press to a macro, the
//! player that turns a macro into key-synthesis steps, and the JSON form in
//! which keymaps are stored.
pub mod codec;
pub mod json;
pub mod keymap;
pub mod programmable_keys;
pub mod queue;
pub mod synth;

pub use codec::{keymap_file_name, keymap_from_document, DecodeError};
pub use json::{Json, Member};
pub use keymap::{Key, Keymap, MacroAction, MacroKey, MacroType};
pub use programmable_keys::ProgrammableKeys;
pub use queue::{dispatch_tick, key_for_event, plan_for_key, EventQueue, TickOutcome};
pub use synth::{playback_steps, Direction, SynthKey, SynthStep};
