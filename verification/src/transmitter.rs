//! The transmission encoding protocol: a socket id and an on/off intent map
//! to a 4-bit code, and a code maps to the exact timed sequence of line
//! changes the encoder chip needs to latch and broadcast it.
//!
//! The transmitter owns five logical output lines: four data lines carrying
//! the code bits and one enable line gating the modulator. This module keeps
//! the logical level of every line and emits, for each command, the plan of
//! steps (line writes and mandatory delays) that the caller must perform on
//! the physical pins in order.

use vstd::prelude::*;

verus! {

/// Minimum time, in milliseconds, the encoder needs between a data-line
/// change and the start of modulation to latch the new code.
pub const SETTLE_MS: u64 = 100;

/// Minimum time, in milliseconds, the enable line must stay high for the
/// receiver to decode the repeated code pattern.
pub const HOLD_MS: u64 = 250;

/// One physical action of a transmission: either a level written to a line
/// or a mandatory blocking delay. A transmission plan is a sequence of
/// these, to be performed strictly in order.
#[derive(Clone, Copy, Debug, PartialEq, Eq)]
pub enum Step {
    /// Set data line `line` (0..=3) to `level`.
    DriveData { line: u8, level: bool },
    /// Block for `ms` milliseconds so the encoder can latch the data lines.
    Settle { ms: u64 },
    /// Raise the enable line: modulation begins.
    EnableHigh,
    /// Block for `ms` milliseconds while the code is broadcast.
    Hold { ms: u64 },
    /// Drop the enable line: modulation ends.
    EnableLow,
}

/// Logical levels of the five owned output lines (plus the modulation-select
/// line). Each line holds its last-set level; nothing auto-resets.
#[derive(Clone, Copy, Debug, PartialEq, Eq)]
pub struct Energenie {
    /// Data line 0, carrying bit 0 of the last code sent.
    pub d0: bool,
    /// Data line 1, carrying bit 1 of the last code sent.
    pub d1: bool,
    /// Data line 2, carrying bit 2 of the last code sent.
    pub d2: bool,
    /// Data line 3, carrying bit 3 of the last code sent.
    pub d3: bool,
    /// Enable line: high only during the hold window of a transmission.
    pub enable: bool,
    /// Modulation-select line: low selects amplitude-shift keying.
    pub modsel: bool,
}

/// Bit `i` of `code`, the level that data line `i` must carry.
pub open spec fn bit_of(code: u8, i: u8) -> bool
    recommends
        i < 4,
{
    code & (1u8 << i) != 0
}

/// The code whose transmission switches socket `id` on.
pub open spec fn on_code_spec(id: u8) -> u8
    recommends
        1 <= id <= 4,
{
    (16 - id) as u8
}

/// The code whose transmission switches socket `id` off.
pub open spec fn off_code_spec(id: u8) -> u8
    recommends
        1 <= id <= 4,
{
    (8 - id) as u8
}

impl Energenie {
    /// Outside the active window of a transmission the transmitter is held
    /// silent: enable low, and modulation-select low for ASK mode.
    pub open spec fn silenced(self) -> bool {
        !self.enable && !self.modsel
    }

    /// A fresh transmitter with every line at its safe default: all lines
    /// low, so the transmitter is silenced and in ASK mode.
    pub fn new() -> (t: Energenie)
        ensures
            t == (Energenie {
                d0: false,
                d1: false,
                d2: false,
                d3: false,
                enable: false,
                modsel: false,
            }),
            t.silenced(),
    {
        Energenie { d0: false, d1: false, d2: false, d3: false, enable: false, modsel: false }
    }

    /// Latches `code` into the receiver: drives each data line to bit `i`
    /// of the code, and returns the full timed plan the caller must perform
    /// on the physical pins, in order. The plan blocks for at least
    /// `SETTLE_MS + HOLD_MS` milliseconds between the data-line writes and
    /// the final enable drop, and leaves the transmitter silenced again.
    pub fn send_code(&mut self, code: u8) -> (steps: Vec<Step>)
        ensures
            *final(self) == state_after_send(*old(self), code),
            steps@ == transmission_steps(code),
            blocking_ms(steps@) == SETTLE_MS + HOLD_MS,
            old(self).modsel == false ==> final(self).silenced(),
    {
        self.d0 = code & (1u8 << 0u8) != 0;
        self.d1 = code & (1u8 << 1u8) != 0;
        self.d2 = code & (1u8 << 2u8) != 0;
        self.d3 = code & (1u8 << 3u8) != 0;
        self.enable = false;

        let mut steps: Vec<Step> = Vec::new();
        steps.push(Step::DriveData { line: 0, level: self.d0 });
        steps.push(Step::DriveData { line: 1, level: self.d1 });
        steps.push(Step::DriveData { line: 2, level: self.d2 });
        steps.push(Step::DriveData { line: 3, level: self.d3 });
        steps.push(Step::Settle { ms: SETTLE_MS });
        steps.push(Step::EnableHigh);
        steps.push(Step::Hold { ms: HOLD_MS });
        steps.push(Step::EnableLow);

        proof {
            assert(steps@ =~= transmission_steps(code));
            lemma_transmission_timing(code);
        }
        steps
    }

    /// Switches socket `id` on: transmits the code `16 - id`.
    pub fn on(&mut self, id: u8) -> (steps: Vec<Step>)
        requires
            1 <= id <= 4,
        ensures
            *final(self) == state_after_send(*old(self), on_code_spec(id)),
            steps@ == transmission_steps(on_code_spec(id)),
            blocking_ms(steps@) == SETTLE_MS + HOLD_MS,
    {
        let code = on_code(id);
        self.send_code(code)
    }

    /// Switches socket `id` off: transmits the code `8 - id`.
    pub fn off(&mut self, id: u8) -> (steps: Vec<Step>)
        requires
            1 <= id <= 4,
        ensures
            *final(self) == state_after_send(*old(self), off_code_spec(id)),
            steps@ == transmission_steps(off_code_spec(id)),
            blocking_ms(steps@) == SETTLE_MS + HOLD_MS,
    {
        let code = off_code(id);
        self.send_code(code)
    }

    /// Dispatches to `on` or `off` according to the desired state.
    pub fn set_state(&mut self, id: u8, state: bool) -> (steps: Vec<Step>)
        requires
            1 <= id <= 4,
        ensures
            *final(self) == state_after_send(
                *old(self),
                if state { on_code_spec(id) } else { off_code_spec(id) },
            ),
            steps@ == transmission_steps(
                if state { on_code_spec(id) } else { off_code_spec(id) },
            ),
            blocking_ms(steps@) == SETTLE_MS + HOLD_MS,
    {
        if state {
            self.on(id)
        } else {
            self.off(id)
        }
    }
}

/// The code whose transmission switches socket `id` on.
pub fn on_code(id: u8) -> (code: u8)
    requires
        1 <= id <= 4,
    ensures
        code == on_code_spec(id),
        12 <= code <= 15,
{
    16 - id
}

/// The code whose transmission switches socket `id` off.
pub fn off_code(id: u8) -> (code: u8)
    requires
        1 <= id <= 4,
    ensures
        code == off_code_spec(id),
        4 <= code <= 7,
{
    8 - id
}

/// The plan `send_code` emits for `code`: drive each data line to its bit
/// of the code, let the encoder settle, raise enable, hold while the code
/// is broadcast, and drop enable again, strictly in this order.
pub open spec fn transmission_steps(code: u8) -> Seq<Step> {
    seq![
        Step::DriveData { line: 0, level: bit_of(code, 0) },
        Step::DriveData { line: 1, level: bit_of(code, 1) },
        Step::DriveData { line: 2, level: bit_of(code, 2) },
        Step::DriveData { line: 3, level: bit_of(code, 3) },
        Step::Settle { ms: SETTLE_MS },
        Step::EnableHigh,
        Step::Hold { ms: HOLD_MS },
        Step::EnableLow,
    ]
}

/// The milliseconds a step blocks the thread: only the delays block.
pub open spec fn step_ms(s: Step) -> int {
    match s {
        Step::Settle { ms } => ms as int,
        Step::Hold { ms } => ms as int,
        _ => 0,
    }
}

/// Total blocked milliseconds of the plan's tail starting at index `i`.
pub open spec fn blocking_ms_from(steps: Seq<Step>, i: int) -> int
    decreases steps.len() - i,
{
    if i < 0 || i >= steps.len() {
        0
    } else {
        step_ms(steps[i]) + blocking_ms_from(steps, i + 1)
    }
}

/// Total milliseconds a plan blocks the thread for.
pub open spec fn blocking_ms(steps: Seq<Step>) -> int {
    blocking_ms_from(steps, 0)
}

/// The transmitter's lines after `send_code(code)`: each data line carries
/// its bit of the code, enable is back low, and modulation-select is
/// untouched.
pub open spec fn state_after_send(t: Energenie, code: u8) -> Energenie {
    Energenie {
        d0: bit_of(code, 0),
        d1: bit_of(code, 1),
        d2: bit_of(code, 2),
        d3: bit_of(code, 3),
        enable: false,
        modsel: t.modsel,
    }
}

/// On-codes are `16 - id`, off-codes `8 - id`; the on-code range {12..15}
/// and the off-code range {4..7} are disjoint, and within each intent no
/// two socket ids share a code.
pub proof fn lemma_codes_disjoint_and_unique(id1: u8, id2: u8)
    requires
        1 <= id1 <= 4,
        1 <= id2 <= 4,
    ensures
        12 <= on_code_spec(id1) <= 15,
        4 <= off_code_spec(id1) <= 7,
        on_code_spec(id1) != off_code_spec(id2),
        id1 != id2 ==> on_code_spec(id1) != on_code_spec(id2),
        id1 != id2 ==> off_code_spec(id1) != off_code_spec(id2),
{
}

/// Timing law: in every transmission plan the thread is blocked for exactly
/// the settle delay plus the hold delay — at least 350 ms — between driving
/// the data lines and dropping the enable line, and the delays stand in
/// that order between the data writes and the enable drop.
pub proof fn lemma_transmission_timing(code: u8)
    ensures
        blocking_ms(transmission_steps(code)) == SETTLE_MS + HOLD_MS,
        blocking_ms(transmission_steps(code)) >= 350,
{
    reveal_with_fuel(blocking_ms_from, 10);
}

/// The integer the four data-line levels encode, line `i` weighing `2^i`.
pub open spec fn decoded(l0: bool, l1: bool, l2: bool, l3: bool) -> int {
    (if l0 { 1int } else { 0int }) + (if l1 { 2int } else { 0int }) + (if l2 {
        4int
    } else {
        0int
    }) + (if l3 { 8int } else { 0int })
}

/// The integer the four data-line levels encode, line `i` weighing `2^i`.
pub fn decode_levels(l0: bool, l1: bool, l2: bool, l3: bool) -> (code: u8)
    ensures
        code == decoded(l0, l1, l2, l3),
        code < 16,
{
    let mut code: u8 = 0;
    if l0 {
        code = code + 1;
    }
    if l1 {
        code = code + 2;
    }
    if l2 {
        code = code + 4;
    }
    if l3 {
        code = code + 8;
    }
    code
}

/// Encoding law: for every code in [0,15], the data-line levels that
/// `send_code` drives are bits 0..3 of the code, so decoding the levels of
/// the resulting line state yields the code back.
pub proof fn lemma_send_code_round_trip(t: Energenie, code: u8)
    requires
        code < 16,
    ensures
        decoded(
            state_after_send(t, code).d0,
            state_after_send(t, code).d1,
            state_after_send(t, code).d2,
            state_after_send(t, code).d3,
        ) == code,
{
    assert((if code & (1u8 << 0u8) != 0 { 1u8 } else { 0u8 }) + (if code & (1u8 << 1u8) != 0 {
        2u8
    } else {
        0u8
    }) + (if code & (1u8 << 2u8) != 0 { 4u8 } else { 0u8 }) + (if code & (1u8 << 3u8) != 0 {
        8u8
    } else {
        0u8
    }) == code) by (bit_vector)
        requires
            code < 16,
    ;
}

/// Idempotence law: transmitting the same code twice leaves the very same
/// line state as transmitting it once, and both calls emit the identical
/// plan — the transmitter holds no hidden toggling state.
pub proof fn lemma_send_idempotent(t: Energenie, code: u8)
    ensures
        state_after_send(state_after_send(t, code), code) == state_after_send(t, code),
{
}

/// Idempotence law for the public commands: a second `on(id)` (and likewise
/// a second `off(id)`) finds the lines exactly as the first left them and
/// leaves them so again, with the same plan both times.
pub proof fn lemma_on_off_idempotent(t: Energenie, id: u8)
    requires
        1 <= id <= 4,
    ensures
        state_after_send(state_after_send(t, on_code_spec(id)), on_code_spec(id))
            == state_after_send(t, on_code_spec(id)),
        state_after_send(state_after_send(t, off_code_spec(id)), off_code_spec(id))
            == state_after_send(t, off_code_spec(id)),
{
}

} // verus!
