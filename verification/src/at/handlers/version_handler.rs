use crate::at::command::{empty_id, field_of, get_empty_id, AtCommand, CommandView};
use crate::at::handler::{AtHandler, Outcome, OutcomeView};
use crate::bounded::{lemma_ascii_len, param_texts, params_new, params_push};
use crate::channel::message_type::{Msg, MsgView};
use crate::channel::module_type::ModuleId;
use crate::error::Error;
use crate::hexa_config::CONF_VERSION;
use vstd::prelude::*;

verus! {

/// Handles `VERSION`: answers a query with the firmware version.
#[derive(Debug, Clone, Copy)]
pub struct VersionHandler;

/// The command that answers a version query.
pub open spec fn version_reply() -> CommandView {
    CommandView {
        id: empty_id(),
        name: "VERSION"@,
        params: seq![CONF_VERSION@],
        is_query: false,
    }
}

/// Builds the command that answers a version query.
pub fn version_command() -> (c: AtCommand)
    ensures
        c@ == version_reply(),
{
    proof {
        reveal_strlit("VERSION");
        reveal_strlit("v1.0.0");
        lemma_ascii_len("VERSION"@);
        lemma_ascii_len("v1.0.0"@);
    }
    let name = field_of("VERSION");
    let version = field_of(CONF_VERSION);
    let mut params = params_new();
    params_push(&mut params, version);
    assert(param_texts(params) =~= seq![CONF_VERSION@]);
    AtCommand { id: get_empty_id(), name, params, is_query: false }
}

impl AtHandler for VersionHandler {
    open spec fn outcome(&self, c: CommandView, dds_available: bool) -> OutcomeView {
        if c.is_query {
            OutcomeView::Send(ModuleId::At, MsgView::AtCmdOutput(version_reply()))
        } else {
            OutcomeView::Rejected(Error::NotAQuery)
        }
    }

    fn handle(&self, at_command: AtCommand, dds_available: bool) -> (out: Outcome) {
        if at_command.is_query {
            Outcome::Send(ModuleId::At, Msg::AtCmdOutput(version_command()))
        } else {
            Outcome::Rejected(Error::NotAQuery)
        }
    }
}

} // verus!
