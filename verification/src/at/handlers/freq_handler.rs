use crate::at::command::{AtCommand, CommandView};
use crate::at::handler::{AtHandler, Outcome, OutcomeView};
use crate::at::number::{all_decimal, decimal, parse_u32};
use crate::bounded::{field_as_str, params_get, params_len};
use crate::channel::message_type::{Msg, MsgView};
use crate::channel::module_type::ModuleId;
use crate::error::Error;
use vstd::prelude::*;

verus! {

/// Handles `FREQ`. While the synthesizer is busy every request is refused
/// with `DdsBusy`, whatever it holds. While it is idle a request needs a
/// frequency in Hz and a dwell time in milliseconds, each a number of
/// thirty-two bits.
#[derive(Debug, Clone, Copy)]
pub struct FreqHandler;

/// Tells whether each parameter is a number of thirty-two bits.
pub fn params_are_u32(at_command: &AtCommand) -> (r: bool)
    ensures
        r == all_decimal(at_command@.params, 0xFFFF_FFFF),
{
    let n = params_len(&at_command.params);
    let mut i: usize = 0;
    while i < n
        invariant
            n == at_command@.params.len(),
            i <= n,
            forall|k: int|
                0 <= k < i ==> decimal(#[trigger] at_command@.params[k], 0xFFFF_FFFF) is Some,
        decreases n - i,
    {
        if parse_u32(field_as_str(params_get(&at_command.params, i))).is_none() {
            return false;
        }
        i = i + 1;
    }
    true
}

impl AtHandler for FreqHandler {
    open spec fn outcome(&self, c: CommandView, dds_available: bool) -> OutcomeView {
        if !dds_available {
            OutcomeView::Rejected(Error::DdsBusy)
        } else if c.params.len() != 2 {
            OutcomeView::Rejected(Error::ParamCount)
        } else if !all_decimal(c.params, 0xFFFF_FFFF) {
            OutcomeView::Rejected(Error::ParamValue)
        } else {
            OutcomeView::Send(ModuleId::Dds, MsgView::FreqWithValue(c))
        }
    }

    fn handle(&self, at_command: AtCommand, dds_available: bool) -> (out: Outcome) {
        if !dds_available {
            Outcome::Rejected(Error::DdsBusy)
        } else if params_len(&at_command.params) != 2 {
            Outcome::Rejected(Error::ParamCount)
        } else if !params_are_u32(&at_command) {
            Outcome::Rejected(Error::ParamValue)
        } else {
            Outcome::Send(ModuleId::Dds, Msg::FreqWithValue(at_command))
        }
    }
}

} // verus!
