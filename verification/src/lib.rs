//! A pair container whose type records which of its two slots are filled.
//!
//! A [`OneOrBoth`] starts out empty and gains a left value, a right value, or
//! both. Every insertion consumes the container and hands back one of another
//! type, so a slot can be read only through a type that guarantees it is
//! filled.

pub mod laws;
pub mod model;
pub mod pair;
pub mod state;

pub use model::Slots;
pub use pair::OneOrBoth;
pub use state::{HasBoth, HasLeft, HasRight, Nothing, Occupancy};
