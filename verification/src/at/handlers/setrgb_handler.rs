use crate::at::command::{AtCommand, CommandView};
use crate::at::handler::{AtHandler, Outcome, OutcomeView};
use crate::at::number::{all_decimal, decimal, parse_u8};
use crate::bounded::{field_as_str, params_get, params_len};
use crate::channel::message_type::{Msg, MsgView};
use crate::channel::module_type::ModuleId;
use crate::error::Error;
use vstd::prelude::*;

verus! {

/// Handles `SETRGB`: three parameters, each a number from 0 to 255.
#[derive(Debug, Clone, Copy)]
pub struct SetRgbHandler;

/// Tells whether each parameter is a number from 0 to 255.
pub fn params_are_u8(at_command: &AtCommand) -> (r: bool)
    ensures
        r == all_decimal(at_command@.params, 255),
{
    let n = params_len(&at_command.params);
    let mut i: usize = 0;
    while i < n
        invariant
            n == at_command@.params.len(),
            i <= n,
            forall|k: int| 0 <= k < i ==> decimal(#[trigger] at_command@.params[k], 255) is Some,
        decreases n - i,
    {
        if parse_u8(field_as_str(params_get(&at_command.params, i))).is_none() {
            return false;
        }
        i = i + 1;
    }
    true
}

impl AtHandler for SetRgbHandler {
    open spec fn outcome(&self, c: CommandView, dds_available: bool) -> OutcomeView {
        if c.params.len() != 3 {
            OutcomeView::Rejected(Error::ParamCount)
        } else if !all_decimal(c.params, 255) {
            OutcomeView::Rejected(Error::ParamValue)
        } else {
            OutcomeView::Send(ModuleId::Rgb, MsgView::RgbWithValue(c))
        }
    }

    fn handle(&self, at_command: AtCommand, dds_available: bool) -> (out: Outcome) {
        if params_len(&at_command.params) != 3 {
            Outcome::Rejected(Error::ParamCount)
        } else if !params_are_u8(&at_command) {
            Outcome::Rejected(Error::ParamValue)
        } else {
            Outcome::Send(ModuleId::Rgb, Msg::RgbWithValue(at_command))
        }
    }
}

} // verus!
