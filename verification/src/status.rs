use crate::at::command::{empty_id, field_of, get_empty_id, AtCommand, CommandView};
use crate::bounded::{lemma_ascii_len, param_texts, params_new, params_push};
use crate::channel::message_type::{Msg, MsgView};
use vstd::prelude::*;

verus! {

/// One round of the status blinker: the light is on for `half_period_secs`
/// seconds and off for as long, `blinks` times over; then `report` goes to
/// the command task.
pub struct Beat {
    pub half_period_secs: u64,
    pub blinks: u8,
    pub report: Msg,
}

/// The command that reports whether the synthesizer is idle.
pub open spec fn status_view(available: bool) -> CommandView {
    CommandView {
        id: empty_id(),
        name: "STATUS"@,
        params: seq![
            if available {
                "AVAILABLE"@
            } else {
                "GENERATING"@
            },
        ],
        is_query: false,
    }
}

/// Builds the command that reports whether the synthesizer is idle.
pub fn status_command(available: bool) -> (c: AtCommand)
    ensures
        c@ == status_view(available),
{
    proof {
        reveal_strlit("STATUS");
        reveal_strlit("AVAILABLE");
        reveal_strlit("GENERATING");
        lemma_ascii_len("STATUS"@);
        lemma_ascii_len("AVAILABLE"@);
        lemma_ascii_len("GENERATING"@);
    }
    let name = field_of("STATUS");
    let word = if available {
        "AVAILABLE"
    } else {
        "GENERATING"
    };
    let status_param = field_of(word);
    let mut params = params_new();
    params_push(&mut params, status_param);
    assert(param_texts(params) =~= seq![word@]);
    AtCommand { id: get_empty_id(), name, params, is_query: false }
}

/// The next round of the status blinker: one slow blink of five seconds
/// each way while the synthesizer is idle, five fast ones of one second
/// each way while it is busy, and the status report that follows.
pub fn main_loop_task(available: bool) -> (beat: Beat)
    ensures
        beat.half_period_secs == (if available { 5u64 } else { 1u64 }),
        beat.blinks == (if available { 1u8 } else { 5u8 }),
        beat.report@ == MsgView::AtCmdOutput(status_view(available)),
{
    let report = Msg::AtCmdOutput(status_command(available));
    if available {
        Beat { half_period_secs: 5, blinks: 1, report }
    } else {
        Beat { half_period_secs: 1, blinks: 5, report }
    }
}

} // verus!
