//! A verified capability contract for pluggable memory allocators.
//!
//! The crate defines the minimal substrate that owning containers and
//! concrete allocator backends depend on: a [`flags::Flags`] bitmask of
//! allocation-request modifiers with its boolean algebra, the closed
//! [`allocator::AllocError`] failure taxonomy, the [`stats::AllocStats`]
//! counter aggregate for observability, and the [`allocator::Allocator`]
//! capability contract itself, together with two reference backends
//! ([`backend::NoopAllocator`], [`backend::TrackingAllocator`]) that
//! satisfy it. Backends are swapped by picking a concrete type at the
//! call site, with no runtime dispatch.

pub mod allocator;
pub mod backend;
pub mod flags;
pub mod layout;
pub mod region;
pub mod stats;
