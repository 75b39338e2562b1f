use vstd::prelude::*;

verus! {

/// The modules that own a queue on the message bus.
#[derive(Debug, Clone, Copy, PartialEq, Eq, Hash, Structural)]
pub enum ModuleId {
    Usb,
    At,
    Rgb,
    Dds,
}

} // verus!
