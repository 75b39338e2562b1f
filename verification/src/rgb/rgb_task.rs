use crate::at::command::{AtCommand, CommandView};
use crate::at::number::{decimal, parse_u8};
use crate::bounded::{field_as_str, params_get, params_len};
use crate::channel::message_type::{Msg, MsgView};
use crate::error::Error;
use vstd::prelude::*;

verus! {

/// What the status-light task is to do after a message.
pub enum RgbStep {
    /// Nothing: the message is not a colour request.
    Idle,
    /// Send this message to the command task: the request is refused.
    Reject(Msg),
    /// Show this colour, then send `reply` to the command task.
    Show { r: u8, g: u8, b: u8, reply: Msg },
}

/// The mathematical content of a step.
pub enum RgbStepView {
    Idle,
    Reject(MsgView),
    Show { r: u8, g: u8, b: u8, reply: MsgView },
}

impl View for RgbStep {
    type V = RgbStepView;

    open spec fn view(&self) -> RgbStepView {
        match *self {
            RgbStep::Idle => RgbStepView::Idle,
            RgbStep::Reject(msg) => RgbStepView::Reject(msg@),
            RgbStep::Show { r, g, b, reply } => RgbStepView::Show { r, g, b, reply: reply@ },
        }
    }
}

/// The step that follows a colour request: one that has not exactly three
/// parameters is refused with `ParamCount`, one with a parameter that is no
/// number from 0 to 255 with `ParamValue`; otherwise the colour is shown
/// and the request reported as done.
pub open spec fn rgb_request_spec(c: CommandView) -> RgbStepView {
    if c.params.len() != 3 {
        RgbStepView::Reject(MsgView::Failed(c.id, Error::ParamCount))
    } else if decimal(c.params[0], 255) is None || decimal(c.params[1], 255) is None || decimal(
        c.params[2],
        255,
    ) is None {
        RgbStepView::Reject(MsgView::Failed(c.id, Error::ParamValue))
    } else {
        RgbStepView::Show {
            r: decimal(c.params[0], 255).unwrap() as u8,
            g: decimal(c.params[1], 255).unwrap() as u8,
            b: decimal(c.params[2], 255).unwrap() as u8,
            reply: MsgView::Done(c.id),
        }
    }
}

/// The step that follows a message.
pub open spec fn rgb_step_spec(msg: MsgView) -> RgbStepView {
    match msg {
        MsgView::RgbWithValue(c) => rgb_request_spec(c),
        _ => RgbStepView::Idle,
    }
}

/// Handles one colour request.
fn rgb_request(at_command: AtCommand) -> (step: RgbStep)
    ensures
        step@ == rgb_request_spec(at_command@),
{
    if params_len(&at_command.params) != 3 {
        return RgbStep::Reject(Msg::Failed(at_command.id, Error::ParamCount));
    }
    let r = parse_u8(field_as_str(params_get(&at_command.params, 0)));
    let g = parse_u8(field_as_str(params_get(&at_command.params, 1)));
    let b = parse_u8(field_as_str(params_get(&at_command.params, 2)));
    match (r, g, b) {
        (Some(r), Some(g), Some(b)) => RgbStep::Show { r, g, b, reply: Msg::Done(at_command.id) },
        _ => RgbStep::Reject(Msg::Failed(at_command.id, Error::ParamValue)),
    }
}

/// Handles one message of the status-light task's queue.
pub fn rgb_task(msg: Msg) -> (step: RgbStep)
    ensures
        step@ == rgb_step_spec(msg@),
{
    match msg {
        Msg::RgbWithValue(at_command) => rgb_request(at_command),
        _ => RgbStep::Idle,
    }
}

} // verus!
