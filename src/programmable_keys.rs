use vstd::prelude::*;

verus! {

/// One physical button of the macro pad.
///
/// The numbered buttons carry a stable 1-based position, independent of the
/// platform; `MACROUNKNOWN` stands for any code that maps to no button.
#[allow(non_camel_case_types)]
#[derive(Clone, Copy, Debug, PartialEq, Eq, Structural, Hash)]
pub enum ProgrammableKeys {
    MACROUNKNOWN,
    MACRO1,
    MACRO2,
    MACRO3,
    MACRO4,
    MACRO5,
    MACRO6,
    MACRO7,
    MACRO8,
    MACRO9,
    MACRO10,
    MACRO11,
    MACRO12,
    MACRO13,
    MACRO14,
    MACRO15,
    MACRO16,
    MACRO17,
    MACRO18,
    MACRO19,
    MACRO20,
    MACRO21,
    MACRO22,
    MACRO23,
    MACRO24,
    MACRO25,
    MACRO26,
    MACRO27,
    MACRO28,
    MACRO29,
    MACRO30,
    MACRO31,
    MACRO32,
}

/// The 1-based position of a button; 0 for `MACROUNKNOWN`.
pub open spec fn index_of(k: ProgrammableKeys) -> int {
    match k {
        ProgrammableKeys::MACROUNKNOWN => 0,
        ProgrammableKeys::MACRO1 => 1,
        ProgrammableKeys::MACRO2 => 2,
        ProgrammableKeys::MACRO3 => 3,
        ProgrammableKeys::MACRO4 => 4,
        ProgrammableKeys::MACRO5 => 5,
        ProgrammableKeys::MACRO6 => 6,
        ProgrammableKeys::MACRO7 => 7,
        ProgrammableKeys::MACRO8 => 8,
        ProgrammableKeys::MACRO9 => 9,
        ProgrammableKeys::MACRO10 => 10,
        ProgrammableKeys::MACRO11 => 11,
        ProgrammableKeys::MACRO12 => 12,
        ProgrammableKeys::MACRO13 => 13,
        ProgrammableKeys::MACRO14 => 14,
        ProgrammableKeys::MACRO15 => 15,
        ProgrammableKeys::MACRO16 => 16,
        ProgrammableKeys::MACRO17 => 17,
        ProgrammableKeys::MACRO18 => 18,
        ProgrammableKeys::MACRO19 => 19,
        ProgrammableKeys::MACRO20 => 20,
        ProgrammableKeys::MACRO21 => 21,
        ProgrammableKeys::MACRO22 => 22,
        ProgrammableKeys::MACRO23 => 23,
        ProgrammableKeys::MACRO24 => 24,
        ProgrammableKeys::MACRO25 => 25,
        ProgrammableKeys::MACRO26 => 26,
        ProgrammableKeys::MACRO27 => 27,
        ProgrammableKeys::MACRO28 => 28,
        ProgrammableKeys::MACRO29 => 29,
        ProgrammableKeys::MACRO30 => 30,
        ProgrammableKeys::MACRO31 => 31,
        ProgrammableKeys::MACRO32 => 32,
    }
}

/// The button at a 1-based position; `MACROUNKNOWN` outside `1..=32`.
pub open spec fn key_at(position: int) -> ProgrammableKeys {
    if position == 1 {
        ProgrammableKeys::MACRO1
    } else if position == 2 {
        ProgrammableKeys::MACRO2
    } else if position == 3 {
        ProgrammableKeys::MACRO3
    } else if position == 4 {
        ProgrammableKeys::MACRO4
    } else if position == 5 {
        ProgrammableKeys::MACRO5
    } else if position == 6 {
        ProgrammableKeys::MACRO6
    } else if position == 7 {
        ProgrammableKeys::MACRO7
    } else if position == 8 {
        ProgrammableKeys::MACRO8
    } else if position == 9 {
        ProgrammableKeys::MACRO9
    } else if position == 10 {
        ProgrammableKeys::MACRO10
    } else if position == 11 {
        ProgrammableKeys::MACRO11
    } else if position == 12 {
        ProgrammableKeys::MACRO12
    } else if position == 13 {
        ProgrammableKeys::MACRO13
    } else if position == 14 {
        ProgrammableKeys::MACRO14
    } else if position == 15 {
        ProgrammableKeys::MACRO15
    } else if position == 16 {
        ProgrammableKeys::MACRO16
    } else if position == 17 {
        ProgrammableKeys::MACRO17
    } else if position == 18 {
        ProgrammableKeys::MACRO18
    } else if position == 19 {
        ProgrammableKeys::MACRO19
    } else if position == 20 {
        ProgrammableKeys::MACRO20
    } else if position == 21 {
        ProgrammableKeys::MACRO21
    } else if position == 22 {
        ProgrammableKeys::MACRO22
    } else if position == 23 {
        ProgrammableKeys::MACRO23
    } else if position == 24 {
        ProgrammableKeys::MACRO24
    } else if position == 25 {
        ProgrammableKeys::MACRO25
    } else if position == 26 {
        ProgrammableKeys::MACRO26
    } else if position == 27 {
        ProgrammableKeys::MACRO27
    } else if position == 28 {
        ProgrammableKeys::MACRO28
    } else if position == 29 {
        ProgrammableKeys::MACRO29
    } else if position == 30 {
        ProgrammableKeys::MACRO30
    } else if position == 31 {
        ProgrammableKeys::MACRO31
    } else if position == 32 {
        ProgrammableKeys::MACRO32
    } else {
        ProgrammableKeys::MACROUNKNOWN
    }
}

/// The first evdev code of the programmable-button range (`KEY_MACRO1`).
pub const LINUX_FIRST_CODE: u32 = 656;

/// The number of numbered buttons.
pub const BUTTON_LIMIT: i32 = 32;

/// The evdev code that Linux reports for a numbered button.
pub open spec fn linux_code(k: ProgrammableKeys) -> int {
    LINUX_FIRST_CODE + index_of(k) - 1
}

/// The button that a Linux evdev code stands for.
pub open spec fn key_of_linux_code(code: int) -> ProgrammableKeys {
    if LINUX_FIRST_CODE <= code < LINUX_FIRST_CODE + BUTTON_LIMIT {
        key_at(code - LINUX_FIRST_CODE + 1)
    } else {
        ProgrammableKeys::MACROUNKNOWN
    }
}

/// The code that Windows reports for a numbered button.
pub open spec fn windows_code(k: ProgrammableKeys) -> u32 {
    match k {
        ProgrammableKeys::MACROUNKNOWN => 0,
        ProgrammableKeys::MACRO1 => 261,
        ProgrammableKeys::MACRO2 => 517,
        ProgrammableKeys::MACRO3 => 1029,
        ProgrammableKeys::MACRO4 => 2053,
        ProgrammableKeys::MACRO5 => 4101,
        ProgrammableKeys::MACRO6 => 8197,
        ProgrammableKeys::MACRO7 => 16389,
        ProgrammableKeys::MACRO8 => 32773,
        ProgrammableKeys::MACRO9 => 65541,
        ProgrammableKeys::MACRO10 => 131077,
        ProgrammableKeys::MACRO11 => 262149,
        ProgrammableKeys::MACRO12 => 524293,
        ProgrammableKeys::MACRO13 => 1048581,
        ProgrammableKeys::MACRO14 => 2097157,
        ProgrammableKeys::MACRO15 => 4194309,
        ProgrammableKeys::MACRO16 => 8388613,
        ProgrammableKeys::MACRO17 => 16777221,
        ProgrammableKeys::MACRO18 => 33554437,
        ProgrammableKeys::MACRO19 => 207,
        ProgrammableKeys::MACRO20 => 134217733,
        ProgrammableKeys::MACRO21 => 208,
        ProgrammableKeys::MACRO22 => 209,
        ProgrammableKeys::MACRO23 => 210,
        ProgrammableKeys::MACRO24 => 211,
        ProgrammableKeys::MACRO25 => 212,
        ProgrammableKeys::MACRO26 => 213,
        ProgrammableKeys::MACRO27 => 214,
        ProgrammableKeys::MACRO28 => 215,
        ProgrammableKeys::MACRO29 => 216,
        ProgrammableKeys::MACRO30 => 217,
        ProgrammableKeys::MACRO31 => 218,
        ProgrammableKeys::MACRO32 => 219,
    }
}

impl ProgrammableKeys {
    /// The button at a 1-based position; `MACROUNKNOWN` outside `1..=32`.
    pub fn get_from_index(index: i32) -> (r: ProgrammableKeys)
        ensures
            r == key_at(index as int),
            1 <= index <= BUTTON_LIMIT ==> index_of(r) == index,
            !(1 <= index <= BUTTON_LIMIT) ==> r == ProgrammableKeys::MACROUNKNOWN,
    {
        match index {
            1 => ProgrammableKeys::MACRO1,
            2 => ProgrammableKeys::MACRO2,
            3 => ProgrammableKeys::MACRO3,
            4 => ProgrammableKeys::MACRO4,
            5 => ProgrammableKeys::MACRO5,
            6 => ProgrammableKeys::MACRO6,
            7 => ProgrammableKeys::MACRO7,
            8 => ProgrammableKeys::MACRO8,
            9 => ProgrammableKeys::MACRO9,
            10 => ProgrammableKeys::MACRO10,
            11 => ProgrammableKeys::MACRO11,
            12 => ProgrammableKeys::MACRO12,
            13 => ProgrammableKeys::MACRO13,
            14 => ProgrammableKeys::MACRO14,
            15 => ProgrammableKeys::MACRO15,
            16 => ProgrammableKeys::MACRO16,
            17 => ProgrammableKeys::MACRO17,
            18 => ProgrammableKeys::MACRO18,
            19 => ProgrammableKeys::MACRO19,
            20 => ProgrammableKeys::MACRO20,
            21 => ProgrammableKeys::MACRO21,
            22 => ProgrammableKeys::MACRO22,
            23 => ProgrammableKeys::MACRO23,
            24 => ProgrammableKeys::MACRO24,
            25 => ProgrammableKeys::MACRO25,
            26 => ProgrammableKeys::MACRO26,
            27 => ProgrammableKeys::MACRO27,
            28 => ProgrammableKeys::MACRO28,
            29 => ProgrammableKeys::MACRO29,
            30 => ProgrammableKeys::MACRO30,
            31 => ProgrammableKeys::MACRO31,
            32 => ProgrammableKeys::MACRO32,
            _ => ProgrammableKeys::MACROUNKNOWN,
        }
    }

    /// The 1-based position of this button; 0 for `MACROUNKNOWN`.
    pub fn index(&self) -> (r: i32)
        ensures
            r == index_of(*self),
    {
        match self {
            ProgrammableKeys::MACROUNKNOWN => 0,
            ProgrammableKeys::MACRO1 => 1,
            ProgrammableKeys::MACRO2 => 2,
            ProgrammableKeys::MACRO3 => 3,
            ProgrammableKeys::MACRO4 => 4,
            ProgrammableKeys::MACRO5 => 5,
            ProgrammableKeys::MACRO6 => 6,
            ProgrammableKeys::MACRO7 => 7,
            ProgrammableKeys::MACRO8 => 8,
            ProgrammableKeys::MACRO9 => 9,
            ProgrammableKeys::MACRO10 => 10,
            ProgrammableKeys::MACRO11 => 11,
            ProgrammableKeys::MACRO12 => 12,
            ProgrammableKeys::MACRO13 => 13,
            ProgrammableKeys::MACRO14 => 14,
            ProgrammableKeys::MACRO15 => 15,
            ProgrammableKeys::MACRO16 => 16,
            ProgrammableKeys::MACRO17 => 17,
            ProgrammableKeys::MACRO18 => 18,
            ProgrammableKeys::MACRO19 => 19,
            ProgrammableKeys::MACRO20 => 20,
            ProgrammableKeys::MACRO21 => 21,
            ProgrammableKeys::MACRO22 => 22,
            ProgrammableKeys::MACRO23 => 23,
            ProgrammableKeys::MACRO24 => 24,
            ProgrammableKeys::MACRO25 => 25,
            ProgrammableKeys::MACRO26 => 26,
            ProgrammableKeys::MACRO27 => 27,
            ProgrammableKeys::MACRO28 => 28,
            ProgrammableKeys::MACRO29 => 29,
            ProgrammableKeys::MACRO30 => 30,
            ProgrammableKeys::MACRO31 => 31,
            ProgrammableKeys::MACRO32 => 32,
        }
    }

    /// Translates a Linux evdev key code; codes outside the programmable
    /// range give `MACROUNKNOWN`.
    pub fn from_u32(value: u32) -> (r: ProgrammableKeys)
        ensures
            r == key_of_linux_code(value as int),
            LINUX_FIRST_CODE <= value < LINUX_FIRST_CODE + BUTTON_LIMIT ==> linux_code(r) == value
                && r != ProgrammableKeys::MACROUNKNOWN,
            !(LINUX_FIRST_CODE <= value < LINUX_FIRST_CODE + BUTTON_LIMIT) ==> r
                == ProgrammableKeys::MACROUNKNOWN,
    {
        if LINUX_FIRST_CODE <= value && value < LINUX_FIRST_CODE + BUTTON_LIMIT as u32 {
            ProgrammableKeys::get_from_index((value - LINUX_FIRST_CODE + 1) as i32)
        } else {
            ProgrammableKeys::MACROUNKNOWN
        }
    }

    /// Translates a Windows key code; codes of no button give `MACROUNKNOWN`.
    pub fn from_windows_u32(value: u32) -> (r: ProgrammableKeys)
        ensures
            r != ProgrammableKeys::MACROUNKNOWN ==> windows_code(r) == value,
            r == ProgrammableKeys::MACROUNKNOWN ==> forall|k: ProgrammableKeys|
                k != ProgrammableKeys::MACROUNKNOWN ==> #[trigger] windows_code(k) != value,
    {
        match value {
            261 => ProgrammableKeys::MACRO1,
            517 => ProgrammableKeys::MACRO2,
            1029 => ProgrammableKeys::MACRO3,
            2053 => ProgrammableKeys::MACRO4,
            4101 => ProgrammableKeys::MACRO5,
            8197 => ProgrammableKeys::MACRO6,
            16389 => ProgrammableKeys::MACRO7,
            32773 => ProgrammableKeys::MACRO8,
            65541 => ProgrammableKeys::MACRO9,
            131077 => ProgrammableKeys::MACRO10,
            262149 => ProgrammableKeys::MACRO11,
            524293 => ProgrammableKeys::MACRO12,
            1048581 => ProgrammableKeys::MACRO13,
            2097157 => ProgrammableKeys::MACRO14,
            4194309 => ProgrammableKeys::MACRO15,
            8388613 => ProgrammableKeys::MACRO16,
            16777221 => ProgrammableKeys::MACRO17,
            33554437 => ProgrammableKeys::MACRO18,
            207 => ProgrammableKeys::MACRO19,
            134217733 => ProgrammableKeys::MACRO20,
            208 => ProgrammableKeys::MACRO21,
            209 => ProgrammableKeys::MACRO22,
            210 => ProgrammableKeys::MACRO23,
            211 => ProgrammableKeys::MACRO24,
            212 => ProgrammableKeys::MACRO25,
            213 => ProgrammableKeys::MACRO26,
            214 => ProgrammableKeys::MACRO27,
            215 => ProgrammableKeys::MACRO28,
            216 => ProgrammableKeys::MACRO29,
            217 => ProgrammableKeys::MACRO30,
            218 => ProgrammableKeys::MACRO31,
            219 => ProgrammableKeys::MACRO32,
            _ => ProgrammableKeys::MACROUNKNOWN,
        }
    }
}

/// Each button lies at its own position.
pub proof fn lemma_key_at_index(k: ProgrammableKeys)
    ensures
        key_at(index_of(k)) == k,
        0 <= index_of(k) <= BUTTON_LIMIT,
{
}

/// Each numbered button's Linux code lies in the programmable range, and no
/// two buttons share one: so `from_u32` on a button's code gives that button.
pub proof fn lemma_linux_code_round_trip(k: ProgrammableKeys, r: ProgrammableKeys)
    requires
        k != ProgrammableKeys::MACROUNKNOWN,
        r != ProgrammableKeys::MACROUNKNOWN,
        linux_code(r) == linux_code(k),
    ensures
        LINUX_FIRST_CODE <= linux_code(k) < LINUX_FIRST_CODE + BUTTON_LIMIT,
        r == k,
{
}

/// No two buttons share a Windows code.
pub proof fn lemma_windows_code_injective(a: ProgrammableKeys, b: ProgrammableKeys)
    requires
        a != ProgrammableKeys::MACROUNKNOWN,
        b != ProgrammableKeys::MACROUNKNOWN,
        windows_code(a) == windows_code(b),
    ensures
        a == b,
{
}

} // verus!
