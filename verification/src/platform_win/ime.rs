use vstd::prelude::*;

use crate::logic::mode_manager::InputMode as DecidedMode;

verus! {

/// `wParam` of a `WM_IME_CONTROL` message that reads the conversion mode.
pub const IMC_GETCONVERSIONMODE: usize = 0x0001;

/// `wParam` of a `WM_IME_CONTROL` message that writes the conversion mode.
pub const IMC_SETCONVERSIONMODE: usize = 0x0002;

/// Conversion-mode bit of native (Chinese) input.
pub const IME_CMODE_NATIVE: u32 = 0x0001;

/// Conversion-mode value of alphanumeric (English) input.
pub const IME_CMODE_ALPHANUMERIC: u32 = 0x0000;

/// How many times `set_mode` tries before it gives up.
pub const MAX_RETRY: usize = 50;

/// Pause after a try that found no foreground window or did not reach the mode.
pub const RETRY_WAIT_MS: u64 = 50;

/// Pause between writing a mode and reading it back.
pub const VERIFY_DELAY_MS: u64 = 30;

/// Pause after the mode was reached, to let it settle.
pub const SETTLE_MS: u64 = 100;

/// The input mode of the input method editor.
#[derive(Debug, Clone, Copy, PartialEq, Eq, Structural)]
pub enum InputMode {
    English,
    Chinese,
}

/// Switches the input method of the foreground window (IMM32 first, the
/// default IME window as fallback).
#[derive(Debug, Clone, Copy)]
pub struct ImeController;

/// A conversion mode is English exactly when its native bit is clear.
pub open spec fn spec_is_english_conversion(conversion: u32) -> bool {
    conversion & IME_CMODE_NATIVE == 0
}

/// The conversion mode that selects `mode` and keeps every other bit of `conversion`.
pub open spec fn spec_conversion_for_mode(conversion: u32, mode: InputMode) -> u32 {
    match mode {
        InputMode::English => conversion & !IME_CMODE_NATIVE,
        InputMode::Chinese => conversion | IME_CMODE_NATIVE,
    }
}

/// The value sent to the default IME window to select `mode`.
pub open spec fn spec_control_bits(mode: InputMode) -> u32 {
    match mode {
        InputMode::English => IME_CMODE_ALPHANUMERIC,
        InputMode::Chinese => IME_CMODE_NATIVE,
    }
}

/// Whether the observed state (English or not) is the mode asked for.
pub open spec fn spec_mode_reached(mode: InputMode, is_english: bool) -> bool {
    match mode {
        InputMode::English => is_english,
        InputMode::Chinese => !is_english,
    }
}

/// Whether a conversion mode read from the input method means English input.
pub fn is_english_conversion(conversion: u32) -> (r: bool)
    ensures
        r == spec_is_english_conversion(conversion),
{
    conversion & IME_CMODE_NATIVE == 0
}

/// The conversion mode to write so that the input method is in `mode`.
pub fn conversion_for_mode(conversion: u32, mode: InputMode) -> (r: u32)
    ensures
        r == spec_conversion_for_mode(conversion, mode),
{
    match mode {
        InputMode::English => conversion & !IME_CMODE_NATIVE,
        InputMode::Chinese => conversion | IME_CMODE_NATIVE,
    }
}

/// The value to send with `IMC_SETCONVERSIONMODE` for `mode`.
pub fn control_bits_for_mode(mode: InputMode) -> (r: u32)
    ensures
        r == spec_control_bits(mode),
{
    match mode {
        InputMode::English => IME_CMODE_ALPHANUMERIC,
        InputMode::Chinese => IME_CMODE_NATIVE,
    }
}

/// Whether the observed state is the mode asked for.
pub fn mode_reached(mode: InputMode, is_english: bool) -> (r: bool)
    ensures
        r == spec_mode_reached(mode, is_english),
{
    match mode {
        InputMode::English => is_english,
        InputMode::Chinese => !is_english,
    }
}

/// The input method mode for a decided mode switch.
pub fn from_decision(mode: DecidedMode) -> (r: InputMode)
    ensures
        mode == DecidedMode::English ==> r == InputMode::English,
        mode == DecidedMode::Chinese ==> r == InputMode::Chinese,
{
    match mode {
        DecidedMode::English => InputMode::English,
        DecidedMode::Chinese => InputMode::Chinese,
    }
}

/// Writing the mode's conversion value makes the input method read back as that
/// mode, and leaves all other conversion bits alone.
pub proof fn lemma_conversion_for_mode(conversion: u32, mode: InputMode)
    ensures
        spec_mode_reached(mode, spec_is_english_conversion(spec_conversion_for_mode(conversion, mode))),
        spec_conversion_for_mode(conversion, mode) & !IME_CMODE_NATIVE == conversion & !IME_CMODE_NATIVE,
        spec_mode_reached(mode, spec_is_english_conversion(spec_control_bits(mode))),
{
    assert((conversion & !1u32) & 1u32 == 0u32) by (bit_vector);
    assert((conversion | 1u32) & 1u32 != 0u32) by (bit_vector);
    assert((conversion & !1u32) & !1u32 == conversion & !1u32) by (bit_vector);
    assert((conversion | 1u32) & !1u32 == conversion & !1u32) by (bit_vector);
    assert(0u32 & 1u32 == 0u32) by (bit_vector);
    assert(1u32 & 1u32 != 0u32) by (bit_vector);
}

impl ImeController {
    /// A controller; it holds no state.
    pub fn new() -> (c: ImeController)
        ensures
            c == ImeController,
    {
        ImeController
    }

    /// The current input mode from the IMM32 reading, falling back to the
    /// reading through the default IME window when IMM32 gave none.
    pub fn combine_readings(&self, imm32: Option<bool>, fallback: Option<bool>) -> (r: Option<bool>)
        ensures
            r == (if imm32 is Some { imm32 } else { fallback }),
    {
        match imm32 {
            Some(v) => Some(v),
            None => fallback,
        }
    }
}

/// What one try of switching the mode came to.
#[derive(Debug, Clone, Copy, PartialEq, Eq)]
pub enum AttemptOutcome {
    /// There was no foreground window.
    NoWindow,
    /// Neither way of writing the mode took.
    NotApplied,
    /// A write took; this is what reading the mode back gave after the verify delay.
    Applied(Option<bool>),
}

/// The outcome of one try: no window; otherwise applied when the IMM32 write
/// took, or, only when it did not, when the fallback write took; else not applied.
pub open spec fn spec_attempt_outcome(
    window: bool,
    imm32_applied: bool,
    fallback_applied: Option<bool>,
    read_back: Option<bool>,
) -> AttemptOutcome {
    if !window {
        AttemptOutcome::NoWindow
    } else if imm32_applied || (fallback_applied == Some(true)) {
        AttemptOutcome::Applied(read_back)
    } else {
        AttemptOutcome::NotApplied
    }
}

/// Whether the fallback write (through the default IME window) is tried: only
/// when the IMM32 write did not take.
pub fn fallback_needed(imm32_applied: bool) -> (r: bool)
    ensures
        r == !imm32_applied,
{
    !imm32_applied
}

/// Whether a write took, so that the mode is read back: the IMM32 write, or
/// the fallback write when it was tried.
pub fn write_took(imm32_applied: bool, fallback_applied: Option<bool>) -> (r: bool)
    ensures
        r == (imm32_applied || fallback_applied == Some(true)),
{
    imm32_applied || match fallback_applied {
        Some(b) => b,
        None => false,
    }
}

/// Sums up one try. `window` says whether there was a foreground window;
/// `imm32_applied` whether the IMM32 write took; `fallback_applied` is the
/// result of the fallback write, `None` when it was not tried; `read_back` is
/// what reading the mode back gave after a write that took.
pub fn attempt_outcome(
    window: bool,
    imm32_applied: bool,
    fallback_applied: Option<bool>,
    read_back: Option<bool>,
) -> (o: AttemptOutcome)
    ensures
        o == spec_attempt_outcome(window, imm32_applied, fallback_applied, read_back),
{
    if !window {
        AttemptOutcome::NoWindow
    } else if write_took(imm32_applied, fallback_applied) {
        AttemptOutcome::Applied(read_back)
    } else {
        AttemptOutcome::NotApplied
    }
}

/// IMM32 comes first: when its write takes, the fallback has no say in the
/// outcome; when it does not, the outcome follows the fallback write, and a
/// fallback that was not tried counts as not applied.
pub proof fn lemma_imm32_first(fallback_applied: Option<bool>, read_back: Option<bool>)
    ensures
        spec_attempt_outcome(true, true, fallback_applied, read_back) == AttemptOutcome::Applied(read_back),
        spec_attempt_outcome(true, false, Some(true), read_back) == AttemptOutcome::Applied(read_back),
        spec_attempt_outcome(true, false, Some(false), read_back) == AttemptOutcome::NotApplied,
        spec_attempt_outcome(true, false, None, read_back) == AttemptOutcome::NotApplied,
        spec_attempt_outcome(false, true, fallback_applied, read_back) == AttemptOutcome::NoWindow,
{
}

/// What to do after a try.
#[derive(Debug, Clone, Copy, PartialEq, Eq)]
pub enum SwitchAction {
    /// The mode is reached: pause this many milliseconds, then report success.
    Succeed(u64),
    /// Pause this many milliseconds, then try again.
    Retry(u64),
    /// Pause this many milliseconds, then report failure.
    GiveUp(u64),
}

/// The retry loop of one mode switch.
#[derive(Debug, Clone, Copy, PartialEq, Eq)]
pub struct ModeSwitch {
    pub mode: InputMode,
    pub attempts: usize,
}

/// Whether a try reached the mode.
pub open spec fn attempt_succeeded(mode: InputMode, outcome: AttemptOutcome) -> bool {
    match outcome {
        AttemptOutcome::Applied(Some(is_english)) => spec_mode_reached(mode, is_english),
        _ => false,
    }
}

/// The action after a try when `attempts` tries were made before it.
pub open spec fn spec_after_attempt(mode: InputMode, attempts: usize, outcome: AttemptOutcome) -> SwitchAction {
    if attempt_succeeded(mode, outcome) {
        SwitchAction::Succeed(SETTLE_MS)
    } else if attempts + 1 < MAX_RETRY {
        SwitchAction::Retry(RETRY_WAIT_MS)
    } else {
        SwitchAction::GiveUp(RETRY_WAIT_MS)
    }
}

impl ModeSwitch {
    /// A switch to `mode` with no try made yet.
    pub fn new(mode: InputMode) -> (s: ModeSwitch)
        ensures
            s == (ModeSwitch { mode, attempts: 0 }),
    {
        ModeSwitch { mode, attempts: 0 }
    }

    /// Records one try and says what to do next.
    pub fn record(&mut self, outcome: AttemptOutcome) -> (action: SwitchAction)
        requires
            old(self).attempts < MAX_RETRY,
        ensures
            final(self).mode == old(self).mode,
            final(self).attempts == old(self).attempts + 1,
            action == spec_after_attempt(old(self).mode, old(self).attempts, outcome),
    {
        let succeeded = match outcome {
            AttemptOutcome::Applied(Some(is_english)) => mode_reached(self.mode, is_english),
            _ => false,
        };
        self.attempts = self.attempts + 1;
        if succeeded {
            SwitchAction::Succeed(SETTLE_MS)
        } else if self.attempts < MAX_RETRY {
            SwitchAction::Retry(RETRY_WAIT_MS)
        } else {
            SwitchAction::GiveUp(RETRY_WAIT_MS)
        }
    }
}

/// A switch asks for another try only while fewer than `MAX_RETRY` tries were
/// made, so it ends after at most `MAX_RETRY` tries; it reports success exactly
/// when the mode read back is the mode asked for.
pub proof fn lemma_switch_bounded(mode: InputMode, attempts: usize, outcome: AttemptOutcome)
    requires
        attempts < MAX_RETRY,
    ensures
        spec_after_attempt(mode, attempts, outcome) is Retry ==> attempts + 1 < MAX_RETRY,
        attempts + 1 == MAX_RETRY ==> !(spec_after_attempt(mode, attempts, outcome) is Retry),
        (spec_after_attempt(mode, attempts, outcome) is Succeed) == attempt_succeeded(mode, outcome),
{
}

/// A try succeeds exactly when the mode read back is the mode asked for: for
/// English when the read-back says English, for Chinese when it says not
/// English; a try without a read-back never succeeds.
pub proof fn lemma_success_means_mode_read_back(attempts: usize, is_english: bool)
    requires
        attempts < MAX_RETRY,
    ensures
        (spec_after_attempt(InputMode::English, attempts, AttemptOutcome::Applied(Some(is_english))) is Succeed) == is_english,
        (spec_after_attempt(InputMode::Chinese, attempts, AttemptOutcome::Applied(Some(is_english))) is Succeed) == !is_english,
        !(spec_after_attempt(InputMode::English, attempts, AttemptOutcome::Applied(None)) is Succeed),
        !(spec_after_attempt(InputMode::Chinese, attempts, AttemptOutcome::NotApplied) is Succeed),
        !(spec_after_attempt(InputMode::Chinese, attempts, AttemptOutcome::NoWindow) is Succeed),
{
}

/// Reading back the conversion mode written for a mode makes the try succeed,
/// for either mode and whatever the other conversion bits are.
pub proof fn lemma_written_mode_succeeds(conversion: u32, mode: InputMode, attempts: usize)
    requires
        attempts < MAX_RETRY,
    ensures
        spec_after_attempt(mode, attempts, AttemptOutcome::Applied(
            Some(spec_is_english_conversion(spec_conversion_for_mode(conversion, mode))),
        )) == SwitchAction::Succeed(SETTLE_MS),
{
    lemma_conversion_for_mode(conversion, mode);
}

} // verus!
