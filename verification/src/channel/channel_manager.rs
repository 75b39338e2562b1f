use crate::channel::module_type::ModuleId;
use vstd::prelude::*;

verus! {

/// Most modules that the registry binds.
pub const MAX_CH: usize = 8;

/// What a table of senders holds: for the code of a module, the number of
/// the sender that is bound to it.
pub uninterp spec fn bus_entries(m: heapless::LinearMap<u8, u8, 8>) -> Map<u8, u8>;

/// Number of modules that a table of senders holds.
pub uninterp spec fn bus_len(m: heapless::LinearMap<u8, u8, 8>) -> nat;

/// The table that binds nothing.
pub open spec fn no_senders() -> Map<u8, u8> {
    Map::empty()
}

/// `heapless::LinearMap::new`: a table that holds nothing.
#[verifier::external_body]
pub(crate) fn bus_new() -> (m: heapless::LinearMap<u8, u8, 8>)
    ensures
        bus_entries(m) == no_senders(),
        bus_len(m) == 0,
{
    heapless::LinearMap::new()
}

/// `heapless::LinearMap::insert`: puts the sender under the module's code.
/// A code that is held already gets the new sender; a new code is added
/// while fewer than eight are held; otherwise nothing changes.
#[verifier::external_body]
pub(crate) fn bus_insert(m: &mut heapless::LinearMap<u8, u8, 8>, key: u8, sender: u8) -> (ok: bool)
    ensures
        ok == (bus_entries(*old(m)).contains_key(key) || bus_len(*old(m)) < 8),
        ok ==> bus_entries(*final(m)) == bus_entries(*old(m)).insert(key, sender),
        !ok ==> bus_entries(*final(m)) == bus_entries(*old(m)),
        bus_len(*final(m)) == if ok && !bus_entries(*old(m)).contains_key(key) {
            bus_len(*old(m)) + 1
        } else {
            bus_len(*old(m))
        },
{
    m.insert(key, sender).is_ok()
}

/// `heapless::LinearMap::get`: the sender held under the module's code, if
/// any.
#[verifier::external_body]
pub(crate) fn bus_get(m: &heapless::LinearMap<u8, u8, 8>, key: u8) -> (r: Option<u8>)
    ensures
        r == if bus_entries(*m).contains_key(key) {
            Some(bus_entries(*m)[key])
        } else {
            None
        },
{
    m.get(&key).copied()
}

/// The code under which a module stands in the table.
pub open spec fn module_code_spec(id: ModuleId) -> u8 {
    match id {
        ModuleId::Usb => 0,
        ModuleId::At => 1,
        ModuleId::Rgb => 2,
        ModuleId::Dds => 3,
    }
}

/// The code under which a module stands in the table. No two modules have
/// the same.
pub fn module_code(id: ModuleId) -> (code: u8)
    ensures
        code == module_code_spec(id),
        forall|other: ModuleId| other != id ==> module_code_spec(other) != code,
{
    match id {
        ModuleId::Usb => 0,
        ModuleId::At => 1,
        ModuleId::Rgb => 2,
        ModuleId::Dds => 3,
    }
}

/// The registry of the message bus: for each module the number of the
/// sender through which others reach its queue. The queues and their
/// senders belong to whoever runs the tasks; the registry holds the numbers
/// under which they are kept. It binds at most eight modules, and each
/// module once.
pub struct ChannelManager {
    senders: heapless::LinearMap<u8, u8, 8>,
}

impl ChannelManager {
    /// The sender bound to a module, if any.
    pub closed spec fn bound(&self, id: ModuleId) -> Option<u8> {
        if bus_entries(self.senders).contains_key(module_code_spec(id)) {
            Some(bus_entries(self.senders)[module_code_spec(id)])
        } else {
            None
        }
    }

    /// Number of modules that are bound.
    pub closed spec fn count(&self) -> nat {
        bus_len(self.senders)
    }

    /// A registry that binds nothing.
    pub fn new() -> (mgr: Self)
        ensures
            forall|id: ModuleId| mgr.bound(id) is None,
            mgr.count() == 0,
    {
        Self { senders: bus_new() }
    }

    /// Binds the sender `tx` to the module `id`. This succeeds when the
    /// module is not bound yet and fewer than eight modules are; otherwise
    /// nothing changes.
    pub fn register(&mut self, id: ModuleId, tx: u8) -> (registered: bool)
        ensures
            registered == (old(self).bound(id) is None && old(self).count() < MAX_CH),
            registered ==> final(self).bound(id) == Some(tx),
            !registered ==> final(self).bound(id) == old(self).bound(id),
            forall|other: ModuleId| other != id ==> final(self).bound(other) == old(self).bound(other),
            final(self).count() == old(self).count() + if registered {
                1nat
            } else {
                0nat
            },
    {
        let code = module_code(id);
        if bus_get(&self.senders, code).is_some() {
            return false;
        }
        bus_insert(&mut self.senders, code, tx)
    }

    /// The sender through which to reach the module `id`, if it is bound.
    pub fn tx(&self, id: ModuleId) -> (r: Option<u8>)
        ensures
            r == self.bound(id),
    {
        bus_get(&self.senders, module_code(id))
    }
}

} // verus!
