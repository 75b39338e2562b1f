use crate::at::command::{
    compile_at_done, compile_at_error, done_view, empty_id, error_view, get_empty_id, render,
};
use crate::at::dispatcher::{dispatch_spec, AtDispatcher};
use crate::at::handler::{Handler, Outcome, OutcomeView};
use crate::bounded::{byte_len, line_as_str, line_text, LINE_CAP};
use crate::channel::message_type::{Msg, MsgView};
use crate::channel::module_type::ModuleId;
use crate::hexa_config::{is_dds_available, set_dds_available, DdsFlag};
use vstd::prelude::*;

verus! {

/// What the command task is to do after a message.
pub enum AtStep {
    /// Nothing.
    Idle,
    /// Send this line to the host, as `UsbTxLine` on the USB queue.
    Transmit(heapless::String<64>),
    /// Send this message to the queue of this module.
    Forward(ModuleId, Msg),
    /// Reset the processor at once.
    Reset,
    /// Enter the boot loader after the firmware-update delay.
    FwUpdate,
    /// The command to send does not fit into a line; nothing is sent.
    Unsendable,
}

/// The mathematical content of a step.
pub enum AtStepView {
    Idle,
    Transmit(Seq<char>),
    Forward(ModuleId, MsgView),
    Reset,
    FwUpdate,
    Unsendable,
}

impl View for AtStep {
    type V = AtStepView;

    open spec fn view(&self) -> AtStepView {
        match *self {
            AtStep::Idle => AtStepView::Idle,
            AtStep::Transmit(line) => AtStepView::Transmit(line_text(line)),
            AtStep::Forward(to, msg) => AtStepView::Forward(to, msg@),
            AtStep::Reset => AtStepView::Reset,
            AtStep::FwUpdate => AtStepView::FwUpdate,
            AtStep::Unsendable => AtStepView::Unsendable,
        }
    }
}

/// The step that follows a message. A line from the host is dispatched: a
/// refusal is reported as `AT+ERROR=0#<code>`, anything else is carried
/// out. Commands and results for the host are rendered and sent. Other
/// messages ask for nothing.
pub open spec fn at_step_spec(
    table: Map<Seq<char>, Handler>,
    msg: MsgView,
    dds_available: bool,
) -> AtStepView {
    match msg {
        MsgView::AtRxLine(line) => match dispatch_spec(table, line, dds_available) {
            OutcomeView::Rejected(e) => AtStepView::Transmit(render(error_view(empty_id(), e))),
            OutcomeView::Send(to, m) => AtStepView::Forward(to, m),
            OutcomeView::Reset => AtStepView::Reset,
            OutcomeView::FwUpdate => AtStepView::FwUpdate,
        },
        MsgView::AtCmdOutput(c) => if byte_len(render(c)) <= LINE_CAP {
            AtStepView::Transmit(render(c))
        } else {
            AtStepView::Unsendable
        },
        MsgView::Done(id) => AtStepView::Transmit(render(done_view(id))),
        MsgView::Failed(id, e) => AtStepView::Transmit(render(error_view(id, e))),
        MsgView::ErrWOCommand(e) => AtStepView::Transmit(render(error_view(empty_id(), e))),
        _ => AtStepView::Idle,
    }
}

/// Handles one message of the command task's queue. A `SetDdsAvailable`
/// message sets the flag; every other message leaves it as it is.
pub fn at_task(dispatcher: &AtDispatcher, flag: &mut DdsFlag, msg: Msg) -> (step: AtStep)
    ensures
        step@ == at_step_spec(dispatcher.table(), msg@, old(flag).available),
        final(flag).available == match msg@ {
            MsgView::SetDdsAvailable(status) => status,
            _ => old(flag).available,
        },
{
    match msg {
        Msg::AtRxLine(line) => {
            match dispatcher.dispatch(is_dds_available(flag), line_as_str(&line)) {
                Outcome::Rejected(e) => AtStep::Transmit(compile_at_error(get_empty_id(), e)),
                Outcome::Send(to, m) => AtStep::Forward(to, m),
                Outcome::Reset => AtStep::Reset,
                Outcome::FwUpdate => AtStep::FwUpdate,
            }
        },
        Msg::AtCmdOutput(at_command) => match at_command.try_compile() {
            Some(line) => AtStep::Transmit(line),
            None => AtStep::Unsendable,
        },
        Msg::Done(msg_id) => AtStep::Transmit(compile_at_done(msg_id)),
        Msg::Failed(msg_id, e) => AtStep::Transmit(compile_at_error(msg_id, e)),
        Msg::ErrWOCommand(e) => AtStep::Transmit(compile_at_error(get_empty_id(), e)),
        Msg::SetDdsAvailable(status) => {
            set_dds_available(flag, status);
            AtStep::Idle
        },
        _ => AtStep::Idle,
    }
}

} // verus!
