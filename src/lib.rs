pub mod algorithm;
pub mod common;
pub mod data;
pub mod lemmas;

pub use common::{
    AccessResolution, Effect, IdentityPolicySolver, MatchContains, Repository, ResolutionPolicy,
    ResourcePolicySolver,
};
