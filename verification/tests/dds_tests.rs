use hexagen_firmware::dds::ad985x::{pulse_high_low, Ad985x, Line, PinOp};

fn collect(op_at: impl Fn(usize) -> Option<PinOp>) -> Vec<PinOp> {
    let mut out = Vec::new();
    while let Some(op) = op_at(out.len()) {
        out.push(op);
    }
    assert!(op_at(out.len() + 1).is_none());
    assert!(op_at(usize::MAX).is_none());
    out
}

fn bit(high: bool) -> Vec<PinOp> {
    vec![
        if high { PinOp::High(Line::Data) } else { PinOp::Low(Line::Data) },
        PinOp::High(Line::Wclk),
        PinOp::WaitUs(1),
        PinOp::Low(Line::Wclk),
        PinOp::WaitUs(1),
    ]
}

fn bits(value: u64, count: usize) -> Vec<PinOp> {
    let mut out = Vec::new();
    for k in 0..count {
        out.extend(bit(k < 64 && (value >> k) & 1 == 1));
    }
    out
}

fn pulse(line: Line) -> Vec<PinOp> {
    vec![PinOp::High(line), PinOp::WaitUs(1), PinOp::Low(line), PinOp::WaitUs(1)]
}

fn write(ftw: u32, ctrl: u8) -> Vec<PinOp> {
    let mut out = bits(ftw as u64, 32);
    out.extend(bits(ctrl as u64, 8));
    out.extend(pulse(Line::FqUd));
    out
}

fn reset(ctrl_base: u8) -> Vec<PinOp> {
    let mut out = vec![
        PinOp::High(Line::Rst),
        PinOp::WaitUs(5),
        PinOp::Low(Line::Rst),
        PinOp::WaitUs(5),
    ];
    for _ in 0..5 {
        out.extend(pulse(Line::Wclk));
    }
    out.extend(pulse(Line::FqUd));
    out.extend(write(0, ctrl_base & 0x3F));
    out
}

#[test]
fn settings_keep_the_reference_clock() {
    assert_eq!(Ad985x::new(125_000_000, 0).ref_clk_hz(), 125_000_000);
    assert_eq!(Ad985x::new(0, 7).ref_clk_hz(), 0);
}

#[test]
fn tuning_word_of_zero_is_zero() {
    assert_eq!(Ad985x::new(125_000_000, 0).hz_to_ftw(0), 0);
    assert_eq!(Ad985x::new(1, 0).hz_to_ftw(0), 0);
    assert_eq!(Ad985x::new(u32::MAX, 0).hz_to_ftw(0), 0);
}

#[test]
fn tuning_word_is_the_rounded_quotient() {
    let dds = Ad985x::new(125_000_000, 0);
    assert_eq!(dds.hz_to_ftw(1000), 34_360);
    assert_eq!(dds.hz_to_ftw(1), 34);
    assert_eq!(dds.hz_to_ftw(62_500_000), 0x8000_0000);
    assert_eq!(dds.hz_to_ftw(10_000_000), 343_597_384);
    assert_eq!(Ad985x::new(3, 0).hz_to_ftw(1), 1_431_655_765);
    assert_eq!(Ad985x::new(3, 0).hz_to_ftw(2), 2_863_311_531);
    assert_eq!(Ad985x::new(u32::MAX, 0).hz_to_ftw(u32::MAX - 1), u32::MAX);
}

#[test]
fn tuning_word_grows_with_the_frequency() {
    let dds = Ad985x::new(125_000_000, 0);
    let mut last = 0;
    let mut freq: u32 = 0;
    while freq < 125_000_000 {
        let ftw = dds.hz_to_ftw(freq);
        assert!(ftw >= last);
        last = ftw;
        freq += 997_001;
    }
    assert!(dds.hz_to_ftw(124_999_999) >= last);
}

#[test]
fn tuning_word_keeps_thirty_two_bits_at_the_reference_clock() {
    let dds = Ad985x::new(125_000_000, 0);
    assert_eq!(dds.hz_to_ftw(125_000_000), 0);
    assert_eq!(dds.hz_to_ftw(125_001_000), 34_360);
}

#[test]
fn pulse_is_high_then_low() {
    assert_eq!(collect(|at| pulse_high_low(Line::FqUd, at)), pulse(Line::FqUd));
    assert_eq!(pulse_high_low(Line::Rst, 0), Some(PinOp::High(Line::Rst)));
    assert_eq!(pulse_high_low(Line::Rst, 1), Some(PinOp::WaitUs(1)));
    assert_eq!(pulse_high_low(Line::Rst, 2), Some(PinOp::Low(Line::Rst)));
    assert_eq!(pulse_high_low(Line::Rst, 3), Some(PinOp::WaitUs(1)));
    assert_eq!(pulse_high_low(Line::Rst, 4), None);
}

#[test]
fn shift_sends_the_least_significant_bit_first() {
    let dds = Ad985x::new(125_000_000, 0);
    let mut expected = bit(false);
    expected.extend(bit(true));
    expected.extend(bit(true));
    expected.extend(bit(false));
    assert_eq!(collect(|at| dds.shift_lsb_first(0b0110, 4, at)), expected);
    assert_eq!(dds.shift_lsb_first(0b0110, 4, 5), Some(PinOp::High(Line::Data)));
    assert_eq!(dds.shift_lsb_first(0b0110, 4, 19), Some(PinOp::WaitUs(1)));
    assert_eq!(dds.shift_lsb_first(0b0110, 4, 20), None);
}

#[test]
fn shift_of_no_bits_has_no_operation() {
    let dds = Ad985x::new(125_000_000, 0);
    assert_eq!(dds.shift_lsb_first(u64::MAX, 0, 0), None);
    assert!(collect(|at| dds.shift_lsb_first(u64::MAX, 0, at)).is_empty());
}

#[test]
fn shift_beyond_sixty_four_bits_sends_zeros() {
    let dds = Ad985x::new(125_000_000, 0);
    let plan = collect(|at| dds.shift_lsb_first(u64::MAX, 66, at));
    assert_eq!(plan.len(), 66 * 5);
    assert_eq!(plan, bits(u64::MAX, 66));
    assert_eq!(plan[63 * 5], PinOp::High(Line::Data));
    assert_eq!(plan[64 * 5], PinOp::Low(Line::Data));
    assert_eq!(plan[65 * 5], PinOp::Low(Line::Data));
    assert_eq!(dds.shift_lsb_first(1, usize::MAX, 0), Some(PinOp::High(Line::Data)));
    assert_eq!(dds.shift_lsb_first(1, usize::MAX, usize::MAX), Some(PinOp::Low(Line::Data)));
}

#[test]
fn write_sends_word_then_control_then_latches() {
    let dds = Ad985x::new(125_000_000, 0);
    let plan = collect(|at| dds.write_ftw_ctrl(0x8000_0001, 0x81, at));
    assert_eq!(plan.len(), 40 * 5 + 4);
    assert_eq!(plan, write(0x8000_0001, 0x81));
    assert_eq!(plan[0], PinOp::High(Line::Data));
    assert_eq!(plan[5], PinOp::Low(Line::Data));
    assert_eq!(plan[31 * 5], PinOp::High(Line::Data));
    assert_eq!(plan[32 * 5], PinOp::High(Line::Data));
    assert_eq!(plan[39 * 5], PinOp::High(Line::Data));
    assert_eq!(&plan[200..], &pulse(Line::FqUd)[..]);
}

#[test]
fn down_sets_the_power_down_bit() {
    let dds = Ad985x::new(125_000_000, 0x01);
    assert_eq!(collect(|at| dds.down(at)), write(0, 0x81));
}

#[test]
fn up_clears_the_power_down_and_sleep_bits() {
    let dds = Ad985x::new(125_000_000, 0xC1);
    assert_eq!(collect(|at| dds.up(at)), write(0, 0x01));
}

#[test]
fn reset_pulses_then_writes_zero() {
    let dds = Ad985x::new(125_000_000, 0xC1);
    let plan = collect(|at| dds.reset(at));
    assert_eq!(plan, reset(0xC1));
    assert_eq!(plan.len(), 4 + 5 * 4 + 4 + 204);
    assert_eq!(dds.reset(1), Some(PinOp::WaitUs(5)));
    assert_eq!(dds.reset(4), Some(PinOp::High(Line::Wclk)));
    assert_eq!(dds.reset(23), Some(PinOp::WaitUs(1)));
    assert_eq!(dds.reset(24), Some(PinOp::High(Line::FqUd)));
}

#[test]
fn set_freq_immediate_writes_the_tuning_word() {
    let dds = Ad985x::new(125_000_000, 0x01);
    assert_eq!(collect(|at| dds.set_freq_immediate(1000, at)), write(34_360, 0x01));
}

#[test]
fn set_freq_runs_the_whole_sequence_in_order() {
    let dds = Ad985x::new(125_000_000, 0);
    let plan = collect(|at| dds.set_freq(1000, 500, at));
    let mut expected = write(0, 0x80);
    expected.extend(write(0, 0x00));
    expected.extend(reset(0));
    expected.extend(write(34_360, 0x00));
    expected.push(PinOp::WaitMs(500));
    expected.extend(write(0, 0x80));
    assert_eq!(plan, expected);
    assert_eq!(plan.len(), 1049);
    assert_eq!(dds.set_freq(1000, 500, 844), Some(PinOp::WaitMs(500)));
    assert_eq!(dds.set_freq(1000, 500, 1048), Some(PinOp::WaitUs(1)));
    assert_eq!(dds.set_freq(1000, 500, 1049), None);
}
