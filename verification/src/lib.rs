//! Binding layer for a Flexible Memory Controller (FMC) driving SDRAM.
//!
//! The crate has two parts:
//!
//! * A compile-time pin-capability system: every physical pin that can serve
//!   a memory-bus signal role, once placed in its required electrical
//!   configuration, carries a marker for that role ([`pins`]).  A checked
//!   SDRAM construction demands a pin bundle that provides every required
//!   role; a bundle missing a role does not type-check.  The markers have no
//!   runtime representation.
//! * A peripheral adapter over a modelled register block ([`fmc`]): gating
//!   the bus clock on construction, enabling memory-controller access on
//!   demand, and answering the source-clock-frequency query.  The
//!   register-level effects are stated bit-exactly in the contracts.
//!
//! The SDRAM timing driver itself (mode registers, refresh, command
//! sequencing) is an outside collaborator: a checked or unchecked
//! construction here yields the adapter, target bank and device descriptor
//! that such a driver consumes.

pub mod fmc;
pub mod gpio;
pub mod pins;
pub mod rcc;
pub mod time;
