use crate::at::command::{field_of, AtCommand, CommandView};
use crate::at::handlers::freq_handler::FreqHandler;
use crate::at::handlers::fwupdate_handler::FwUpdateHandler;
use crate::at::handlers::reset_handler::ResetHandler;
use crate::at::handlers::setrgb_handler::SetRgbHandler;
use crate::at::handlers::version_handler::VersionHandler;
use crate::bounded::{field_text, lemma_ascii_len};
use crate::channel::message_type::{Msg, MsgView};
use crate::channel::module_type::ModuleId;
use crate::error::Error;
use vstd::prelude::*;

verus! {

/// What is to be done about a command line.
pub enum Outcome {
    /// The line is refused with this error.
    Rejected(Error),
    /// This message is to be sent to the queue of this module.
    Send(ModuleId, Msg),
    /// The processor is to be reset at once.
    Reset,
    /// The boot loader is to be entered after `FWUPDATE_DELAY_MS`.
    FwUpdate,
}

/// The mathematical content of an outcome.
pub enum OutcomeView {
    Rejected(Error),
    Send(ModuleId, MsgView),
    Reset,
    FwUpdate,
}

impl View for Outcome {
    type V = OutcomeView;

    open spec fn view(&self) -> OutcomeView {
        match *self {
            Outcome::Rejected(e) => OutcomeView::Rejected(e),
            Outcome::Send(to, msg) => OutcomeView::Send(to, msg@),
            Outcome::Reset => OutcomeView::Reset,
            Outcome::FwUpdate => OutcomeView::FwUpdate,
        }
    }
}

impl Outcome {
    /// The error with which the line is refused, if it is.
    pub fn error(&self) -> (e: Option<Error>)
        ensures
            e == match self@ {
                OutcomeView::Rejected(err) => Some(err),
                _ => None,
            },
    {
        match self {
            Outcome::Rejected(err) => Some(*err),
            _ => None,
        }
    }
}

/// What handles the commands of one name. A handler checks the command in
/// full before it asks for anything to be done.
pub trait AtHandler {
    /// What is to be done about a command, given whether the synthesizer
    /// is idle.
    spec fn outcome(&self, c: CommandView, dds_available: bool) -> OutcomeView;

    /// Decides what is to be done about a command.
    fn handle(&self, at_command: AtCommand, dds_available: bool) -> (out: Outcome)
        ensures
            out@ == self.outcome(at_command@, dds_available),
    ;
}

/// The closed set of handlers.
#[derive(Debug, Clone, Copy)]
pub enum Handler {
    Version(VersionHandler),
    SetRgb(SetRgbHandler),
    Reset(ResetHandler),
    FwUpdate(FwUpdateHandler),
    Freq(FreqHandler),
}

/// The handlers that a registry holds, by command name.
pub uninterp spec fn registry_entries(
    m: heapless::LinearMap<heapless::String<16>, Handler, 8>,
) -> Map<Seq<char>, Handler>;

/// Number of names that a registry holds.
pub uninterp spec fn registry_len(m: heapless::LinearMap<heapless::String<16>, Handler, 8>) -> nat;

/// The table without any handler.
pub open spec fn no_handlers() -> Map<Seq<char>, Handler> {
    Map::empty()
}

/// `heapless::LinearMap::new`: a registry that holds nothing.
#[verifier::external_body]
pub(crate) fn registry_new() -> (m: heapless::LinearMap<heapless::String<16>, Handler, 8>)
    ensures
        registry_entries(m) == no_handlers(),
        registry_len(m) == 0,
{
    heapless::LinearMap::new()
}

/// `heapless::LinearMap::insert`: puts the handler under the name. A name
/// that is held already gets the new handler; a new name is added while
/// fewer than eight are held; otherwise nothing changes.
#[verifier::external_body]
pub(crate) fn registry_insert(
    m: &mut heapless::LinearMap<heapless::String<16>, Handler, 8>,
    key: heapless::String<16>,
    handler: Handler,
) -> (ok: bool)
    ensures
        ok == (registry_entries(*old(m)).contains_key(field_text(key)) || registry_len(*old(m))
            < 8),
        ok ==> registry_entries(*final(m)) == registry_entries(*old(m)).insert(
            field_text(key),
            handler,
        ),
        !ok ==> registry_entries(*final(m)) == registry_entries(*old(m)),
        registry_len(*final(m)) == if ok && !registry_entries(*old(m)).contains_key(
            field_text(key),
        ) {
            registry_len(*old(m)) + 1
        } else {
            registry_len(*old(m))
        },
{
    m.insert(key, handler).is_ok()
}

/// `heapless::LinearMap::get`: the handler held under the name, if any.
#[verifier::external_body]
pub(crate) fn registry_get(
    m: &heapless::LinearMap<heapless::String<16>, Handler, 8>,
    key: &heapless::String<16>,
) -> (r: Option<Handler>)
    ensures
        r == if registry_entries(*m).contains_key(field_text(*key)) {
            Some(registry_entries(*m)[field_text(*key)])
        } else {
            None
        },
{
    m.get(key).copied()
}

/// The handler of each command name.
pub open spec fn handler_table() -> Map<Seq<char>, Handler> {
    no_handlers().insert("VERSION"@, Handler::Version(VersionHandler)).insert(
        "SETRGB"@,
        Handler::SetRgb(SetRgbHandler),
    ).insert("RESET"@, Handler::Reset(ResetHandler)).insert(
        "FWUPDATE"@,
        Handler::FwUpdate(FwUpdateHandler),
    ).insert("FREQ"@, Handler::Freq(FreqHandler))
}

/// The table holds exactly the five command names, each with its own
/// handler.
pub proof fn lemma_handler_table()
    ensures
        handler_table().dom() =~= set!["VERSION"@, "SETRGB"@, "RESET"@, "FWUPDATE"@, "FREQ"@],
        handler_table()["VERSION"@] is Version,
        handler_table()["SETRGB"@] is SetRgb,
        handler_table()["RESET"@] is Reset,
        handler_table()["FWUPDATE"@] is FwUpdate,
        handler_table()["FREQ"@] is Freq,
{
    reveal_strlit("VERSION");
    reveal_strlit("SETRGB");
    reveal_strlit("RESET");
    reveal_strlit("FWUPDATE");
    reveal_strlit("FREQ");
    assert("VERSION"@.len() == 7);
    assert("SETRGB"@.len() == 6);
    assert("RESET"@.len() == 5);
    assert("FWUPDATE"@.len() == 8);
    assert("FREQ"@.len() == 4);
}

/// Puts a handler under a name of at most sixteen ASCII characters.
fn register(
    m: &mut heapless::LinearMap<heapless::String<16>, Handler, 8>,
    name: &str,
    handler: Handler,
)
    requires
        name.is_ascii(),
        name@.len() <= 16,
        registry_len(*old(m)) < 8,
    ensures
        registry_entries(*final(m)) == registry_entries(*old(m)).insert(name@, handler),
        registry_len(*final(m)) <= registry_len(*old(m)) + 1,
{
    proof {
        lemma_ascii_len(name@);
    }
    registry_insert(m, field_of(name), handler);
}

/// The registry of all handlers.
pub fn register_all() -> (m: heapless::LinearMap<heapless::String<16>, Handler, 8>)
    ensures
        registry_entries(m) == handler_table(),
{
    proof {
        reveal_strlit("VERSION");
        reveal_strlit("SETRGB");
        reveal_strlit("RESET");
        reveal_strlit("FWUPDATE");
        reveal_strlit("FREQ");
    }
    let mut map = registry_new();
    register(&mut map, "VERSION", Handler::Version(VersionHandler));
    register(&mut map, "SETRGB", Handler::SetRgb(SetRgbHandler));
    register(&mut map, "RESET", Handler::Reset(ResetHandler));
    register(&mut map, "FWUPDATE", Handler::FwUpdate(FwUpdateHandler));
    register(&mut map, "FREQ", Handler::Freq(FreqHandler));
    map
}

} // verus!
