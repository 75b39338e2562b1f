use vstd::arithmetic::div_mod::{lemma_div_is_ordered, lemma_fundamental_div_mod};
use vstd::prelude::*;

verus! {

/// Control bit that powers the synthesizer down.
pub const CTRL_PWRDOWN: u8 = 0x80;

/// Control bit that puts the synthesizer to sleep.
pub const CTRL_SLEEP: u8 = 0x40;

/// Control bits for phase zero.
pub const CTRL_PHASE0: u8 = 0;

/// Least time, in microseconds, between two edges of a pulse.
pub const PULSE_US: u64 = 1;

/// Time, in microseconds, that each level of the reset pulse is held.
pub const RESET_US: u64 = 5;

/// The four control lines of the synthesizer.
#[derive(Debug, Clone, Copy, PartialEq, Eq, Structural)]
pub enum Line {
    Wclk,
    FqUd,
    Data,
    Rst,
}

/// One step of a control sequence: drive a line, or hold still for a time.
#[derive(Debug, Clone, Copy, PartialEq, Eq, Structural)]
pub enum PinOp {
    High(Line),
    Low(Line),
    WaitUs(u64),
    WaitMs(u64),
}

/// The synthesizer's settings: its reference clock and the control bits
/// that every control byte starts from.
#[derive(Debug, Clone, Copy)]
pub struct Ad985x {
    ref_clk_hz: u32,
    ctrl_base: u8,
}

/// A line driven high, then low, each held for the pulse width.
pub open spec fn pulse_seq(line: Line) -> Seq<PinOp> {
    seq![PinOp::High(line), PinOp::WaitUs(1), PinOp::Low(line), PinOp::WaitUs(1)]
}

/// `n` pulses on a line.
pub open spec fn pulses_seq(line: Line, n: nat) -> Seq<PinOp>
    decreases n,
{
    if n == 0 {
        Seq::empty()
    } else {
        pulses_seq(line, (n - 1) as nat) + pulse_seq(line)
    }
}

/// Bit `k` of `value`, counted from the least significant; bits beyond the
/// sixty-fourth are zero.
pub open spec fn bit_of(value: u64, k: nat) -> bool {
    k < 64 && (value >> (k as u64)) & 1 == 1
}

/// One bit on the data line, clocked in by a pulse of the write clock.
pub open spec fn bit_seq(bit: bool) -> Seq<PinOp> {
    seq![
        if bit {
            PinOp::High(Line::Data)
        } else {
            PinOp::Low(Line::Data)
        },
    ] + pulse_seq(Line::Wclk)
}

/// The lowest `bits` bits of `value`, least significant first.
pub open spec fn shift_seq(value: u64, bits: nat) -> Seq<PinOp>
    decreases bits,
{
    if bits == 0 {
        Seq::empty()
    } else {
        shift_seq(value, (bits - 1) as nat) + bit_seq(bit_of(value, (bits - 1) as nat))
    }
}

/// The tuning word, then the control byte, then a pulse that latches both.
pub open spec fn write_seq(ftw: u32, ctrl: u8) -> Seq<PinOp> {
    shift_seq(ftw as u64, 32) + shift_seq(ctrl as u64, 8) + pulse_seq(Line::FqUd)
}

/// `freq_hz * 2^32 / ref_clk_hz`, rounded to the nearest integer.
pub open spec fn rounded_quotient(freq_hz: u32, ref_clk_hz: u32) -> int
    recommends
        ref_clk_hz > 0,
{
    (freq_hz as int * 0x1_0000_0000 + ref_clk_hz as int / 2) / (ref_clk_hz as int)
}

/// The tuning word for a frequency: the rounded quotient, kept to
/// thirty-two bits.
pub open spec fn ftw_spec(freq_hz: u32, ref_clk_hz: u32) -> int
    recommends
        ref_clk_hz > 0,
{
    rounded_quotient(freq_hz, ref_clk_hz) % 0x1_0000_0000
}

/// Below the reference clock the rounded quotient has no more than
/// thirty-two bits, so the tuning word is the rounded quotient itself.
pub proof fn lemma_ftw_in_range(freq_hz: u32, ref_clk_hz: u32)
    requires
        freq_hz < ref_clk_hz,
    ensures
        0 <= rounded_quotient(freq_hz, ref_clk_hz) < 0x1_0000_0000,
        ftw_spec(freq_hz, ref_clk_hz) == rounded_quotient(freq_hz, ref_clk_hz),
{
    let f = freq_hz as int;
    let r = ref_clk_hz as int;
    let q = (f * 0x1_0000_0000 + r / 2) / r;
    assert(0 <= q < 0x1_0000_0000) by (nonlinear_arith)
        requires
            0 <= f < r,
            r < 0x1_0000_0000,
            q == (f * 0x1_0000_0000 + r / 2) / r,
    ;
}

/// The tuning word does not decrease when the frequency grows, as long as
/// the rounded quotients of the two frequencies agree above their lowest
/// thirty-two bits.
pub proof fn lemma_ftw_monotonic(f1: u32, f2: u32, ref_clk_hz: u32)
    requires
        ref_clk_hz > 0,
        f1 <= f2,
        rounded_quotient(f1, ref_clk_hz) / 0x1_0000_0000 == rounded_quotient(f2, ref_clk_hz)
            / 0x1_0000_0000,
    ensures
        ftw_spec(f1, ref_clk_hz) <= ftw_spec(f2, ref_clk_hz),
{
    let r = ref_clk_hz as int;
    let x = f1 as int * 0x1_0000_0000 + r / 2;
    let y = f2 as int * 0x1_0000_0000 + r / 2;
    assert(0 <= x <= y);
    lemma_div_is_ordered(x, y, r);
    let q1 = rounded_quotient(f1, ref_clk_hz);
    let q2 = rounded_quotient(f2, ref_clk_hz);
    assert(q1 <= q2);
    lemma_fundamental_div_mod(q1, 0x1_0000_0000);
    lemma_fundamental_div_mod(q2, 0x1_0000_0000);
}

/// Below the reference clock the tuning word does not decrease when the
/// frequency grows.
pub proof fn lemma_ftw_monotonic_below_ref_clk(f1: u32, f2: u32, ref_clk_hz: u32)
    requires
        f1 <= f2 < ref_clk_hz,
    ensures
        ftw_spec(f1, ref_clk_hz) <= ftw_spec(f2, ref_clk_hz),
{
    lemma_ftw_in_range(f1, ref_clk_hz);
    lemma_ftw_in_range(f2, ref_clk_hz);
    lemma_ftw_monotonic(f1, f2, ref_clk_hz);
}

/// The tuning word for no frequency is zero.
pub proof fn lemma_ftw_zero(ref_clk_hz: u32)
    requires
        ref_clk_hz > 0,
    ensures
        ftw_spec(0, ref_clk_hz) == 0,
{
    let r = ref_clk_hz as int;
    assert((r / 2) / r == 0) by (nonlinear_arith)
        requires
            r > 0,
    ;
}

/// The operation at position `at` of a sequence, if it has that many.
pub open spec fn nth(s: Seq<PinOp>, at: int) -> Option<PinOp> {
    if 0 <= at < s.len() {
        Some(s[at])
    } else {
        None
    }
}

/// A run of bits takes five operations for each bit, and the operations of
/// bit `k` stand at the positions from `5 * k`.
pub proof fn lemma_shift_seq(value: u64, bits: nat)
    ensures
        shift_seq(value, bits).len() == 5 * bits,
        forall|j: int|
            0 <= j < 5 * bits ==> #[trigger] shift_seq(value, bits)[j] == bit_seq(
                bit_of(value, (j / 5) as nat),
            )[j % 5],
    decreases bits,
{
    if bits > 0 {
        let prev = shift_seq(value, (bits - 1) as nat);
        let last = bit_seq(bit_of(value, (bits - 1) as nat));
        lemma_shift_seq(value, (bits - 1) as nat);
        assert(last.len() == 5);
        assert forall|j: int| 0 <= j < 5 * bits implies #[trigger] shift_seq(value, bits)[j]
            == bit_seq(bit_of(value, (j / 5) as nat))[j % 5] by {
            if j < 5 * (bits - 1) {
                assert(shift_seq(value, bits)[j] == prev[j]);
            } else {
                assert(j / 5 == bits - 1);
                assert(j % 5 == j - 5 * (bits - 1));
                assert(shift_seq(value, bits)[j] == last[j - 5 * (bits - 1)]);
            }
        }
    }
}

/// A run of pulses takes four operations for each pulse.
pub proof fn lemma_pulses_seq(line: Line, n: nat)
    ensures
        pulses_seq(line, n).len() == 4 * n,
        forall|j: int|
            0 <= j < 4 * n ==> #[trigger] pulses_seq(line, n)[j] == pulse_seq(line)[j % 4],
    decreases n,
{
    if n > 0 {
        let prev = pulses_seq(line, (n - 1) as nat);
        lemma_pulses_seq(line, (n - 1) as nat);
        assert forall|j: int| 0 <= j < 4 * n implies #[trigger] pulses_seq(line, n)[j]
            == pulse_seq(line)[j % 4] by {
            if j < 4 * (n - 1) {
                assert(pulses_seq(line, n)[j] == prev[j]);
            } else {
                assert(j % 4 == j - 4 * (n - 1));
                assert(pulses_seq(line, n)[j] == pulse_seq(line)[j - 4 * (n - 1)]);
            }
        }
    }
}

/// Writing a tuning word and a control byte takes 204 operations.
pub proof fn lemma_write_seq_len(ftw: u32, ctrl: u8)
    ensures
        write_seq(ftw, ctrl).len() == 204,
{
    lemma_shift_seq(ftw as u64, 32);
    lemma_shift_seq(ctrl as u64, 8);
}

/// The control sequence that emits a frequency takes 1049 operations,
/// whatever the frequency and the dwell time.
pub proof fn lemma_set_freq_seq_len(dds: Ad985x, freq_hz: u32, dwell_ms: u32)
    ensures
        dds.set_freq_seq(freq_hz, dwell_ms).len() == 1049,
{
    lemma_write_seq_len(0, dds.down_ctrl());
    lemma_write_seq_len(0, dds.awake_ctrl());
    lemma_pulses_seq(Line::Wclk, 5);
    lemma_write_seq_len(ftw_spec(freq_hz, dds.ref_clk()) as u32, dds.base() | 0u8);
}

/// The operation at position `at` of a pulse on `line`.
pub fn pulse_high_low(line: Line, at: usize) -> (op: Option<PinOp>)
    ensures
        op == nth(pulse_seq(line), at as int),
{
    if at == 0 {
        Some(PinOp::High(line))
    } else if at == 1 {
        Some(PinOp::WaitUs(PULSE_US))
    } else if at == 2 {
        Some(PinOp::Low(line))
    } else if at == 3 {
        Some(PinOp::WaitUs(PULSE_US))
    } else {
        None
    }
}

impl Ad985x {
    /// Whether the settings can be used: the reference clock is not zero.
    pub open spec fn wf(&self) -> bool {
        self.ref_clk() > 0
    }

    /// The reference clock, in Hz.
    pub closed spec fn ref_clk(&self) -> u32 {
        self.ref_clk_hz
    }

    /// The control bits that every control byte starts from.
    pub closed spec fn base(&self) -> u8 {
        self.ctrl_base
    }

    /// The control byte with the power-down and sleep bits cleared.
    pub open spec fn awake_ctrl(&self) -> u8 {
        self.base() & !(0x40u8 | 0x80u8)
    }

    /// The control byte with the power-down bit set.
    pub open spec fn down_ctrl(&self) -> u8 {
        self.base() | 0x80u8
    }

    /// What powers the synthesizer down.
    pub open spec fn down_seq(&self) -> Seq<PinOp> {
        write_seq(0, self.down_ctrl())
    }

    /// What powers the synthesizer up.
    pub open spec fn up_seq(&self) -> Seq<PinOp> {
        write_seq(0, self.awake_ctrl())
    }

    /// What resets the synthesizer: a pulse on the reset line with each
    /// level held for five microseconds, five pulses of the write clock, one
    /// of the update line, then a zero tuning word with the synthesizer
    /// awake.
    pub open spec fn reset_seq(&self) -> Seq<PinOp> {
        seq![
            PinOp::High(Line::Rst),
            PinOp::WaitUs(5),
            PinOp::Low(Line::Rst),
            PinOp::WaitUs(5),
        ] + pulses_seq(Line::Wclk, 5) + pulse_seq(Line::FqUd) + write_seq(0, self.awake_ctrl())
    }

    /// What sets a frequency at once: its tuning word with phase zero.
    pub open spec fn immediate_seq(&self, freq_hz: u32) -> Seq<PinOp> {
        write_seq(ftw_spec(freq_hz, self.ref_clk()) as u32, self.base() | 0u8)
    }

    /// What emits a frequency for a while: down, up, reset, the tuning
    /// word, the dwell time, down again.
    pub open spec fn set_freq_seq(&self, freq_hz: u32, dwell_ms: u32) -> Seq<PinOp> {
        self.down_seq() + self.up_seq() + self.reset_seq() + self.immediate_seq(freq_hz) + seq![
            PinOp::WaitMs(dwell_ms as u64),
        ] + self.down_seq()
    }

    /// Settings for a synthesizer with the given reference clock and base
    /// control bits. A tuning word can be computed only where the reference
    /// clock is not zero.
    pub fn new(ref_clk_hz: u32, ctrl_base: u8) -> (dds: Self)
        ensures
            dds.ref_clk() == ref_clk_hz,
            dds.base() == ctrl_base,
    {
        Self { ref_clk_hz, ctrl_base }
    }

    /// The reference clock, in Hz.
    pub fn ref_clk_hz(&self) -> (hz: u32)
        ensures
            hz == self.ref_clk(),
    {
        self.ref_clk_hz
    }

    /// The operation at position `at` of what sends the lowest `bits` bits
    /// of `value`, least significant first.
    pub fn shift_lsb_first(&self, value: u64, bits: usize, at: usize) -> (op: Option<PinOp>)
        ensures
            op == nth(shift_seq(value, bits as nat), at as int),
    {
        let k = at / 5;
        let phase = at % 5;
        proof {
            lemma_shift_seq(value, bits as nat);
        }
        if k >= bits {
            return None;
        }
        let bit = k < 64 && (value >> (k as u64)) & 1 == 1;
        assert(bit == bit_of(value, k as nat));
        if phase == 0 {
            if bit {
                Some(PinOp::High(Line::Data))
            } else {
                Some(PinOp::Low(Line::Data))
            }
        } else {
            pulse_high_low(Line::Wclk, phase - 1)
        }
    }

    /// The operation at position `at` of what writes a tuning word and a
    /// control byte and latches them.
    pub fn write_ftw_ctrl(&self, ftw: u32, ctrl: u8, at: usize) -> (op: Option<PinOp>)
        ensures
            op == nth(write_seq(ftw, ctrl), at as int),
    {
        proof {
            lemma_shift_seq(ftw as u64, 32);
            lemma_shift_seq(ctrl as u64, 8);
        }
        if at < 160 {
            self.shift_lsb_first(ftw as u64, 32, at)
        } else if at < 200 {
            self.shift_lsb_first(ctrl as u64, 8, at - 160)
        } else {
            pulse_high_low(Line::FqUd, at - 200)
        }
    }

    /// The tuning word for a frequency.
    pub fn hz_to_ftw(&self, freq_hz: u32) -> (ftw: u32)
        requires
            self.wf(),
        ensures
            ftw == ftw_spec(freq_hz, self.ref_clk()),
    {
        let f = freq_hz as u64;
        let num = f << 32;
        assert(num == f * 0x1_0000_0000) by (bit_vector)
            requires
                num == f << 32,
                f < 0x1_0000_0000,
        ;
        let den = self.ref_clk_hz as u64;
        let q = (num + den / 2) / den;
        assert(q & 0xFFFF_FFFF == q % 0x1_0000_0000) by (bit_vector);
        (q & 0xFFFF_FFFF) as u32
    }

    /// The operation at position `at` of what resets the synthesizer.
    pub fn reset(&self, at: usize) -> (op: Option<PinOp>)
        ensures
            op == nth(self.reset_seq(), at as int),
    {
        let awake = self.ctrl_base & !(CTRL_SLEEP | CTRL_PWRDOWN);
        proof {
            lemma_pulses_seq(Line::Wclk, 5);
            lemma_write_seq_len(0, awake);
        }
        if at == 0 {
            Some(PinOp::High(Line::Rst))
        } else if at == 1 {
            Some(PinOp::WaitUs(RESET_US))
        } else if at == 2 {
            Some(PinOp::Low(Line::Rst))
        } else if at == 3 {
            Some(PinOp::WaitUs(RESET_US))
        } else if at < 24 {
            pulse_high_low(Line::Wclk, (at - 4) % 4)
        } else if at < 28 {
            pulse_high_low(Line::FqUd, at - 24)
        } else {
            self.write_ftw_ctrl(0, awake, at - 28)
        }
    }

    /// The operation at position `at` of what powers the synthesizer down.
    pub fn down(&self, at: usize) -> (op: Option<PinOp>)
        ensures
            op == nth(self.down_seq(), at as int),
    {
        self.write_ftw_ctrl(0, self.ctrl_base | CTRL_PWRDOWN, at)
    }

    /// The operation at position `at` of what powers the synthesizer up.
    pub fn up(&self, at: usize) -> (op: Option<PinOp>)
        ensures
            op == nth(self.up_seq(), at as int),
    {
        self.write_ftw_ctrl(0, self.ctrl_base & !(CTRL_SLEEP | CTRL_PWRDOWN), at)
    }

    /// The operation at position `at` of what writes the tuning word of a
    /// frequency, with phase zero.
    pub fn set_freq_immediate(&self, freq_hz: u32, at: usize) -> (op: Option<PinOp>)
        requires
            self.wf(),
        ensures
            op == nth(self.immediate_seq(freq_hz), at as int),
    {
        let ftw = self.hz_to_ftw(freq_hz);
        self.write_ftw_ctrl(ftw, self.ctrl_base | CTRL_PHASE0, at)
    }

    /// The operation at position `at` of the control sequence that emits
    /// `freq_hz` for `dwell_ms` milliseconds: power down, power up, reset,
    /// write the tuning word, hold for the dwell time, power down again.
    /// The sequence is run by asking for position 0, 1, 2 and so on until
    /// there is no operation left.
    pub fn set_freq(&self, freq_hz: u32, dwell_ms: u32, at: usize) -> (op: Option<PinOp>)
        requires
            self.wf(),
        ensures
            op == nth(self.set_freq_seq(freq_hz, dwell_ms), at as int),
    {
        proof {
            lemma_set_freq_seq_len(*self, freq_hz, dwell_ms);
            lemma_write_seq_len(0, self.down_ctrl());
            lemma_write_seq_len(0, self.awake_ctrl());
            lemma_pulses_seq(Line::Wclk, 5);
            lemma_write_seq_len(ftw_spec(freq_hz, self.ref_clk()) as u32, self.base() | 0u8);
        }
        if at < 204 {
            self.down(at)
        } else if at < 408 {
            self.up(at - 204)
        } else if at < 640 {
            self.reset(at - 408)
        } else if at < 844 {
            self.set_freq_immediate(freq_hz, at - 640)
        } else if at == 844 {
            Some(PinOp::WaitMs(dwell_ms as u64))
        } else {
            self.down(at - 845)
        }
    }
}

} // verus!
