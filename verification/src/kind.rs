//! The kinds of sound devices.

use vstd::prelude::*;

verus! {

/// Which way sound flows through a device.
#[derive(Clone, Copy, Debug, PartialEq, Eq, Structural)]
pub enum DeviceKind {
    Sink,
    Source,
}

} // verus!
