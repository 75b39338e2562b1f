use crate::at::command::{AtCommand, CommandView};
use crate::at::handler::{AtHandler, Outcome, OutcomeView};
use vstd::prelude::*;

verus! {

/// Time, in milliseconds, that passes between a firmware-update request and
/// the entry into the boot loader, so that a pending reply can leave.
pub const FWUPDATE_DELAY_MS: u64 = 100;

/// Handles `FWUPDATE`: enters the boot loader.
#[derive(Debug, Clone, Copy)]
pub struct FwUpdateHandler;

impl AtHandler for FwUpdateHandler {
    open spec fn outcome(&self, c: CommandView, dds_available: bool) -> OutcomeView {
        OutcomeView::FwUpdate
    }

    fn handle(&self, at_command: AtCommand, dds_available: bool) -> (out: Outcome) {
        Outcome::FwUpdate
    }
}

} // verus!
