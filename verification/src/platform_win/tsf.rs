use vstd::prelude::*;

use crate::platform_win::ime::{spec_is_english_conversion, InputMode};

verus! {

/// Language id of Simplified Chinese (PRC).
pub const LANG_ZH_CN: u16 = 0x0804;

/// TSF conversion-mode value of alphanumeric (English) input.
pub const TF_CONVERSIONMODE_ALPHANUMERIC: u32 = 0x0000;

/// TSF conversion-mode bit of native (Chinese) input.
pub const TF_CONVERSIONMODE_NATIVE: u32 = 0x0001;

/// Value written to the keyboard open/close compartment to open the keyboard.
pub const KEYBOARD_OPEN: i32 = 1;

/// Switches the input mode through the Text Services Framework compartments.
#[derive(Debug, Clone, Copy)]
pub struct TsfController;

/// A conversion compartment value is English exactly when its native bit is clear.
pub open spec fn spec_tsf_is_english(value: i32) -> bool {
    (value as u32) & TF_CONVERSIONMODE_NATIVE == 0
}

/// The conversion compartment value that selects `mode`.
pub open spec fn spec_tsf_value(mode: InputMode) -> i32 {
    match mode {
        InputMode::English => TF_CONVERSIONMODE_ALPHANUMERIC as i32,
        InputMode::Chinese => TF_CONVERSIONMODE_NATIVE as i32,
    }
}

/// The next move of a TSF mode switch, after an event of the switch.
#[derive(Debug, Clone, Copy, PartialEq, Eq)]
pub enum TsfEvent {
    /// The first compartment write: `None` when the compartments could not be reached.
    FirstWrite(Option<bool>),
    /// Whether activating the Chinese keyboard profile worked.
    ProfileActivated(bool),
    /// The compartment write after activating the profile.
    SecondWrite(Option<bool>),
}

/// What a TSF mode switch does next.
#[derive(Debug, Clone, Copy, PartialEq, Eq)]
pub enum TsfNext {
    /// The switch is over with this result.
    Finish(bool),
    /// Try to activate the default Chinese keyboard profile.
    ActivateProfile,
    /// Write the compartments once more.
    WriteAgain,
}

pub open spec fn spec_tsf_next(ev: TsfEvent) -> TsfNext {
    match ev {
        TsfEvent::FirstWrite(r) => if r == Some(true) { TsfNext::Finish(true) } else { TsfNext::ActivateProfile },
        TsfEvent::ProfileActivated(ok) => if ok { TsfNext::WriteAgain } else { TsfNext::Finish(false) },
        TsfEvent::SecondWrite(r) => TsfNext::Finish(r == Some(true)),
    }
}

/// Whether the profile of `langid` may be activated, given the current language
/// (when it could not be read, it counts as `langid`).
pub open spec fn spec_language_matches(current: Option<u16>, langid: u16) -> bool {
    match current {
        Some(c) => c == langid,
        None => true,
    }
}

impl TsfController {
    /// A controller; it holds no state.
    pub fn new() -> (c: TsfController)
        ensures
            c == TsfController,
    {
        TsfController
    }

    /// Whether COM is usable after initializing it on this thread, and whether it
    /// must be uninitialized again (`Some(true)`): it is when initialization
    /// succeeded, or failed only because the thread already runs another
    /// apartment model (`Some(false)`); otherwise it is not (`None`).
    pub fn com_initialization(&self, succeeded: bool, changed_mode: bool) -> (r: Option<bool>)
        ensures
            r == (if succeeded { Some(true) } else if changed_mode { Some(false) } else { None::<bool> }),
    {
        if succeeded {
            Some(true)
        } else if changed_mode {
            Some(false)
        } else {
            None
        }
    }

    /// Whether a conversion compartment value means English input.
    pub fn value_is_english(&self, value: i32) -> (r: bool)
        ensures
            r == spec_tsf_is_english(value),
    {
        (value as u32) & TF_CONVERSIONMODE_NATIVE == 0
    }

    /// The conversion compartment value to write for `mode`.
    pub fn value_for_mode(&self, mode: InputMode) -> (v: i32)
        ensures
            v == spec_tsf_value(mode),
    {
        match mode {
            InputMode::English => TF_CONVERSIONMODE_ALPHANUMERIC as i32,
            InputMode::Chinese => TF_CONVERSIONMODE_NATIVE as i32,
        }
    }

    /// The next move of a mode switch: done after a successful first write;
    /// otherwise activate the Chinese profile and, if that works, write again.
    pub fn next_step(&self, ev: TsfEvent) -> (next: TsfNext)
        ensures
            next == spec_tsf_next(ev),
    {
        match ev {
            TsfEvent::FirstWrite(r) => match r {
                Some(true) => TsfNext::Finish(true),
                _ => TsfNext::ActivateProfile,
            },
            TsfEvent::ProfileActivated(ok) => if ok { TsfNext::WriteAgain } else { TsfNext::Finish(false) },
            TsfEvent::SecondWrite(r) => match r {
                Some(true) => TsfNext::Finish(true),
                _ => TsfNext::Finish(false),
            },
        }
    }

    /// Whether the profile of `langid` may be activated under the current language.
    pub fn language_matches(&self, current: Option<u16>, langid: u16) -> (r: bool)
        ensures
            r == spec_language_matches(current, langid),
    {
        match current {
            Some(c) => c == langid,
            None => true,
        }
    }
}

/// The value written for a mode reads back as that mode.
pub proof fn lemma_tsf_value_roundtrip(mode: InputMode)
    ensures
        spec_tsf_is_english(spec_tsf_value(mode)) == (mode == InputMode::English),
{
    assert(0u32 & 1u32 == 0u32) by (bit_vector);
    assert(1u32 & 1u32 == 1u32) by (bit_vector);
}

/// A TSF switch reports success only right after a compartment write that worked.
pub proof fn lemma_tsf_success_needs_write(ev: TsfEvent)
    ensures
        spec_tsf_next(ev) == TsfNext::Finish(true) ==> (ev == TsfEvent::FirstWrite(Some(true))
            || ev == TsfEvent::SecondWrite(Some(true))),
{
}

/// Only the native bit of a conversion value decides English: a value reads as
/// that bit alone reads, the value 0 is English and 1 is not, and TSF agrees with
/// the IMM32 reading of the same bits.
pub proof fn lemma_tsf_native_bit_decides(value: i32)
    ensures
        spec_tsf_is_english(value) == spec_tsf_is_english(value & 1i32),
        spec_tsf_is_english(0i32),
        !spec_tsf_is_english(1i32),
        spec_tsf_is_english(value) == spec_is_english_conversion(value as u32),
{
    assert(((value & 1i32) as u32) & 1u32 == (value as u32) & 1u32) by (bit_vector);
    assert((0i32 as u32) & 1u32 == 0u32) by (bit_vector);
    assert((1i32 as u32) & 1u32 == 1u32) by (bit_vector);
}

} // verus!
