//! A smart-pointer abstraction over reference-counted binary interfaces in the
//! style of a component object model: every interface instance is reached only
//! through a pointer, and its lifetime is governed by a manual reference count
//! kept by the object itself through two operations, acquire and release.
//!
//! The protocol is modelled with plain values. [`iface::InterfaceKind`] stands
//! for a statically identified interface kind together with the kinds it
//! transitively extends; [`object::ComObject`] stands for one interface
//! instance with its reference count and the set of kinds it implements; and
//! [`handle::ComPtr`] is the owning handle whose contracts pin the discipline:
//! exactly one release per live handle, one acquire per duplication, and
//! identity-preserving interface discovery. [`laws`] states and proves the
//! balance of that discipline once and for all.
//!
//! A handle carries no built-in cross-thread guarantee: whether the underlying
//! interface tolerates concurrent access is knowledge of the concrete
//! interface, asserted by the integrator out of band, never inferred from this
//! wrapper.

pub mod errors;
pub mod handle;
pub mod iface;
pub mod laws;
pub mod object;

pub use errors::ComError;
pub use handle::ComPtr;
pub use handle::ComRef;
pub use iface::InterfaceKind;
pub use object::ComObject;
