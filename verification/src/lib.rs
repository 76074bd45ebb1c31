//! An `Option` that reverts to `None` once a fixed amount of time has passed
//! since its value was stored or its timer was last reset.

mod clock;
pub mod laws;
mod model;
mod option;
pub mod trace;

pub use clock::duration_nanos;
pub use model::{Model, Phase};
pub use option::EphemeralOption;
