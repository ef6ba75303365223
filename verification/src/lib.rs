//! Points, vectors and planar shapes over an abstract scalar.
//!
//! The scalar is any type that meets the capability traits of [`mathtraits`].
//! Every executable function states what it computes in terms of the scalar's
//! own operations, so the contracts hold for whatever scalar is plugged in.

pub mod geometry;
pub mod mathtraits;
pub mod wectors;
pub mod xsection;
