//! Device-level raw packet capture for BSD-style packet-filter devices.
//!
//! The crate models the capture stack around a few verified pieces:
//! device-node probing with fallback ([`locator`]), the control-plane
//! configuration protocol over an abstract port ([`port`], [`socket`]),
//! the record deframing decoder ([`frame`]), the interface-name field
//! codec ([`ifname`]), the filter-program builder ([`filter`]), and the
//! read-retry decisions shared by the blocking and suspending read
//! paths ([`rdloop`]).

pub mod errors;
pub mod filter;
pub mod ifname;
pub mod frame;
pub mod ether;
pub mod locator;
pub mod port;
pub mod socket;
pub mod rdloop;
