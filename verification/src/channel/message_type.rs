use crate::at::command::{AtCommand, CommandView};
use crate::bounded::{field_text, line_text};
use crate::error::Error;
use vstd::prelude::*;

verus! {

/// What travels on the message bus.
pub enum Msg {
    /// A line that came in from the host.
    AtRxLine(heapless::String<64>),
    /// A command to render and send to the host.
    AtCmdOutput(AtCommand),
    /// The command with this id has succeeded.
    Done(heapless::String<16>),
    /// The command with this id has failed.
    Failed(heapless::String<16>, Error),
    /// Something failed that belongs to no command.
    ErrWOCommand(Error),
    /// A rendered line to send to the host.
    UsbTxLine(heapless::String<64>),
    /// A request to set the colour of the status light.
    RgbWithValue(AtCommand),
    /// A request to emit a frequency.
    FreqWithValue(AtCommand),
    /// The synthesizer has become busy (`false`) or idle (`true`).
    SetDdsAvailable(bool),
}

/// The mathematical content of a message.
pub enum MsgView {
    AtRxLine(Seq<char>),
    AtCmdOutput(CommandView),
    Done(Seq<char>),
    Failed(Seq<char>, Error),
    ErrWOCommand(Error),
    UsbTxLine(Seq<char>),
    RgbWithValue(CommandView),
    FreqWithValue(CommandView),
    SetDdsAvailable(bool),
}

impl View for Msg {
    type V = MsgView;

    open spec fn view(&self) -> MsgView {
        match *self {
            Msg::AtRxLine(line) => MsgView::AtRxLine(line_text(line)),
            Msg::AtCmdOutput(c) => MsgView::AtCmdOutput(c@),
            Msg::Done(id) => MsgView::Done(field_text(id)),
            Msg::Failed(id, e) => MsgView::Failed(field_text(id), e),
            Msg::ErrWOCommand(e) => MsgView::ErrWOCommand(e),
            Msg::UsbTxLine(line) => MsgView::UsbTxLine(line_text(line)),
            Msg::RgbWithValue(c) => MsgView::RgbWithValue(c@),
            Msg::FreqWithValue(c) => MsgView::FreqWithValue(c@),
            Msg::SetDdsAvailable(b) => MsgView::SetDdsAvailable(b),
        }
    }
}

} // verus!
