use crate::at::command::{has_prefix, parse, parse_spec, CommandView};
use crate::at::handler::{
    handler_table, lemma_handler_table, register_all, registry_entries, registry_get, AtHandler,
    Handler, Outcome, OutcomeView,
};
use crate::channel::module_type::ModuleId;
use crate::error::Error;
use vstd::prelude::*;

verus! {

/// Finds the handler of each command line and lets it decide.
pub struct AtDispatcher {
    handlers: heapless::LinearMap<heapless::String<16>, Handler, 8>,
}

/// What the handler decides about a command.
pub open spec fn handler_outcome(
    h: Handler,
    c: CommandView,
    dds_available: bool,
) -> OutcomeView {
    match h {
        Handler::Version(v) => v.outcome(c, dds_available),
        Handler::SetRgb(v) => v.outcome(c, dds_available),
        Handler::Reset(v) => v.outcome(c, dds_available),
        Handler::FwUpdate(v) => v.outcome(c, dds_available),
        Handler::Freq(v) => v.outcome(c, dds_available),
    }
}

/// What is to be done about a line: a line that does not parse is refused
/// with the parser's error, a name without a handler with `UnknownCommand`;
/// otherwise the handler of the name decides.
pub open spec fn dispatch_spec(
    table: Map<Seq<char>, Handler>,
    text: Seq<char>,
    dds_available: bool,
) -> OutcomeView {
    match parse_spec(text) {
        Err(e) => OutcomeView::Rejected(e),
        Ok(c) => if table.contains_key(c.name) {
            handler_outcome(table[c.name], c, dds_available)
        } else {
            OutcomeView::Rejected(Error::UnknownCommand)
        },
    }
}

impl AtDispatcher {
    /// The handlers that this dispatcher knows, by command name.
    pub closed spec fn table(&self) -> Map<Seq<char>, Handler> {
        registry_entries(self.handlers)
    }

    /// A dispatcher that knows every handler.
    pub fn new() -> (d: Self)
        ensures
            d.table() == handler_table(),
    {
        Self { handlers: register_all() }
    }

    /// Decides what is to be done about a line that came in, given whether
    /// the synthesizer is idle.
    pub fn dispatch(&self, dds_available: bool, input: &str) -> (out: Outcome)
        ensures
            out@ == dispatch_spec(self.table(), input@, dds_available),
    {
        match parse(input) {
            Ok(cmd) => match registry_get(&self.handlers, &cmd.name) {
                Some(handler) => match handler {
                    Handler::Version(h) => h.handle(cmd, dds_available),
                    Handler::SetRgb(h) => h.handle(cmd, dds_available),
                    Handler::Reset(h) => h.handle(cmd, dds_available),
                    Handler::FwUpdate(h) => h.handle(cmd, dds_available),
                    Handler::Freq(h) => h.handle(cmd, dds_available),
                },
                None => Outcome::Rejected(Error::UnknownCommand),
            },
            Err(e) => Outcome::Rejected(e),
        }
    }
}

/// A line that does not start with `AT+` as it stands is refused with
/// `InvalidCommand`, whatever handlers there are.
pub proof fn lemma_dispatch_without_prefix(
    table: Map<Seq<char>, Handler>,
    text: Seq<char>,
    dds_available: bool,
)
    requires
        !has_prefix(text),
    ensures
        dispatch_spec(table, text, dds_available) == OutcomeView::Rejected(Error::InvalidCommand),
{
}

/// A line that parses to a name without a handler is refused with
/// `UnknownCommand`.
pub proof fn lemma_dispatch_unknown_name(
    table: Map<Seq<char>, Handler>,
    text: Seq<char>,
    dds_available: bool,
)
    requires
        parse_spec(text) is Ok,
        !table.contains_key(parse_spec(text)->Ok_0.name),
    ensures
        dispatch_spec(table, text, dds_available) == OutcomeView::Rejected(Error::UnknownCommand),
{
}

/// While the synthesizer is busy, every line that parses to a command
/// named `FREQ` is refused with `DdsBusy`, whatever else it holds.
pub proof fn lemma_busy_freq_is_refused(text: Seq<char>)
    requires
        parse_spec(text) is Ok,
        parse_spec(text)->Ok_0.name == "FREQ"@,
    ensures
        dispatch_spec(handler_table(), text, false) == OutcomeView::Rejected(Error::DdsBusy),
{
    lemma_handler_table();
}

/// While the synthesizer is busy, no line makes the dispatcher send
/// anything to it.
pub proof fn lemma_busy_sends_nothing_to_dds(text: Seq<char>)
    ensures
        match dispatch_spec(handler_table(), text, false) {
            OutcomeView::Send(to, _) => to != ModuleId::Dds,
            _ => true,
        },
{
}

} // verus!
