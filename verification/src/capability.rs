//! Capability toggles.
//!
//! Each optional sub-protocol (NAT-reachability detection, relay client,
//! relay server, hole-punching assistance) is either present — fully
//! functional, with its state tracked here — or logically absent.  Every
//! operation on an absent capability is a safe no-op or an explicit
//! "disabled" answer, never an error and never a panic, and the events of an
//! absent capability are simply never polled.

use vstd::prelude::*;
use crate::types::{Address, NatStatusView};

verus! {

/// An optional sub-protocol: present with its tracked state, or logically
/// absent.
pub enum Capability<T> {
    /// The sub-protocol is present; its tracked state is carried here.
    Enabled(T),
    /// The sub-protocol is absent; all related operations are no-ops.
    Disabled,
}

impl<T> Capability<T> {
    /// Whether the capability is present.
    pub open spec fn is_enabled_spec(&self) -> bool {
        match self {
            Capability::Enabled(_) => true,
            Capability::Disabled => false,
        }
    }

    /// Whether the capability is present.
    pub fn is_enabled(&self) -> (r: bool)
        ensures
            r == self.is_enabled_spec(),
    {
        match self {
            Capability::Enabled(_) => true,
            Capability::Disabled => false,
        }
    }

}

/// State tracked for the NAT-reachability-detection capability: the
/// externally reachable address its last status change testified to, if
/// any.
pub struct NatState {
    /// The resolved external address, while the last verdict was `Public`.
    pub public_addr: Option<Address>,
}

/// The externally reachable address a NAT status testifies to, if any.
pub open spec fn nat_public_address(status: NatStatusView) -> Option<Seq<u8>> {
    match status {
        NatStatusView::Public(addr) => Some(addr),
        NatStatusView::Private => None,
        NatStatusView::Unknown => None,
    }
}

/// The view of an optional address: the byte sequence it holds, if any.
pub open spec fn opt_address_view(a: Option<Address>) -> Option<Seq<u8>> {
    match a {
        Some(addr) => Some(addr@),
        None => None,
    }
}

} // verus!
