use crate::at::command::{AtCommand, CommandView};
use crate::at::handler::{AtHandler, Outcome, OutcomeView};
use vstd::prelude::*;

verus! {

/// Handles `RESET`: resets the processor.
#[derive(Debug, Clone, Copy)]
pub struct ResetHandler;

impl AtHandler for ResetHandler {
    open spec fn outcome(&self, c: CommandView, dds_available: bool) -> OutcomeView {
        OutcomeView::Reset
    }

    fn handle(&self, at_command: AtCommand, dds_available: bool) -> (out: Outcome) {
        Outcome::Reset
    }
}

} // verus!
