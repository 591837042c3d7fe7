//! Utilities for values and buffers that carry an explicit byte alignment.
//!
//! [`boxed::AlignedBox`] owns a single value together with the alignment its
//! storage was requested at; [`bytes::AlignedBytes`] is a fixed-length byte
//! buffer with the same alignment bookkeeping. The [`layout`] module
//! validates the size/alignment pairs both are built from.
//!
//! Storage is tracked by ownership rather than by machine address: handing a
//! handle across an interop boundary goes through the move-only raw tokens
//! returned by `into_raw`, and `from_raw` rebuilds the owning handle from
//! such a token.

pub mod boxed;
pub mod bytes;
pub mod layout;
