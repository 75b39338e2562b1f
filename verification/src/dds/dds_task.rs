use crate::at::command::{AtCommand, CommandView};
use crate::at::number::{decimal, parse_u32};
use crate::bounded::{field_as_str, field_text, params_get, params_len};
use crate::channel::message_type::{Msg, MsgView};
use crate::error::Error;
use vstd::prelude::*;

verus! {

/// What the synthesizer task is to do after a message.
pub enum DdsStep {
    /// Nothing: the message is not a frequency request.
    Idle,
    /// Send this message to the command task: the request is refused.
    Reject(Msg),
    /// Send `before` to the command task, run the control sequence that
    /// emits `freq_hz` for `dwell_ms` milliseconds, send `after`, and then
    /// what `dds_finish` says for `id`.
    Run { id: heapless::String<16>, before: Msg, freq_hz: u32, dwell_ms: u32, after: Msg },
}

/// The mathematical content of a step.
pub enum DdsStepView {
    Idle,
    Reject(MsgView),
    Run { id: Seq<char>, before: MsgView, freq_hz: u32, dwell_ms: u32, after: MsgView },
}

impl View for DdsStep {
    type V = DdsStepView;

    open spec fn view(&self) -> DdsStepView {
        match *self {
            DdsStep::Idle => DdsStepView::Idle,
            DdsStep::Reject(msg) => DdsStepView::Reject(msg@),
            DdsStep::Run { id, before, freq_hz, dwell_ms, after } => DdsStepView::Run {
                id: field_text(id),
                before: before@,
                freq_hz,
                dwell_ms,
                after: after@,
            },
        }
    }
}

/// The step that follows a frequency request: one that has not exactly two
/// parameters is refused with `DdsBusy`, one whose frequency or dwell time
/// is no number of thirty-two bits with `ParamValue`; otherwise the
/// synthesizer is marked busy, driven with that frequency and dwell time,
/// and marked idle again.
pub open spec fn dds_request_spec(c: CommandView) -> DdsStepView {
    if c.params.len() != 2 {
        DdsStepView::Reject(MsgView::Failed(c.id, Error::DdsBusy))
    } else if decimal(c.params[0], 0xFFFF_FFFF) is None || decimal(c.params[1], 0xFFFF_FFFF)
        is None {
        DdsStepView::Reject(MsgView::Failed(c.id, Error::ParamValue))
    } else {
        DdsStepView::Run {
            id: c.id,
            before: MsgView::SetDdsAvailable(false),
            freq_hz: decimal(c.params[0], 0xFFFF_FFFF).unwrap() as u32,
            dwell_ms: decimal(c.params[1], 0xFFFF_FFFF).unwrap() as u32,
            after: MsgView::SetDdsAvailable(true),
        }
    }
}

/// The step that follows a message.
pub open spec fn dds_step_spec(msg: MsgView) -> DdsStepView {
    match msg {
        MsgView::FreqWithValue(c) => dds_request_spec(c),
        _ => DdsStepView::Idle,
    }
}

/// Handles one frequency request.
fn dds_request(at_command: AtCommand) -> (step: DdsStep)
    ensures
        step@ == dds_request_spec(at_command@),
{
    if params_len(&at_command.params) != 2 {
        return DdsStep::Reject(Msg::Failed(at_command.id, Error::DdsBusy));
    }
    let freq = parse_u32(field_as_str(params_get(&at_command.params, 0)));
    let time_ms = parse_u32(field_as_str(params_get(&at_command.params, 1)));
    match (freq, time_ms) {
        (Some(freq_hz), Some(dwell_ms)) => DdsStep::Run {
            id: at_command.id,
            before: Msg::SetDdsAvailable(false),
            freq_hz,
            dwell_ms,
            after: Msg::SetDdsAvailable(true),
        },
        _ => DdsStep::Reject(Msg::Failed(at_command.id, Error::ParamValue)),
    }
}

/// Handles one message of the synthesizer task's queue.
pub fn dds_task(msg: Msg) -> (step: DdsStep)
    ensures
        step@ == dds_step_spec(msg@),
{
    match msg {
        Msg::FreqWithValue(at_command) => dds_request(at_command),
        _ => DdsStep::Idle,
    }
}

/// The one message that ends a request: `Done` when the lines were driven
/// without a failure, `Failed` with the failure otherwise.
pub fn dds_finish(id: heapless::String<16>, failure: Option<Error>) -> (msg: Msg)
    ensures
        msg@ == match failure {
            Some(e) => MsgView::Failed(field_text(id), e),
            None => MsgView::Done(field_text(id)),
        },
{
    match failure {
        Some(e) => Msg::Failed(id, e),
        None => Msg::Done(id),
    }
}

} // verus!
