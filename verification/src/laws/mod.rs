//! What holds of the contract as a whole.

pub mod acceptance;
pub mod answers;
pub mod authorization;
pub mod changes;
pub mod effects;
pub mod footprint;
pub mod profiles;
pub mod registry;
pub mod sessions;
pub mod terms;
pub mod traces;
pub mod verification;
pub mod versions;
