use vstd::prelude::*;

verus! {

/// Outcome of a policy. `Deny` takes precedence over `Allow`.
#[derive(Debug, Clone, Copy, PartialEq, Eq, Structural, PartialOrd, Ord)]
pub enum Effect {
    Allow,
    Deny,
}

/// Matches one set with other set.
pub trait MatchContains: Sized {
    /// Whether the pattern `self` contains the value `other`.
    spec fn spec_match_contains(&self, other: &Self) -> bool;

    /// Checks if the **matching** set contains the **other** set.
    ///
    /// This matching verifies if the **other** is a **subset** of Self.
    fn match_contains(&self, other: &Self) -> (r: bool)
        ensures
            r == self.spec_match_contains(other),
    ;
}

/// A policy attached to an identity: it names resource patterns and actions.
pub trait IdentityPolicySolver: Sized {
    type Resource: MatchContains;
    type Action: PartialEq + Eq;

    spec fn spec_effect(&self) -> Effect;

    spec fn spec_actions(&self) -> Seq<Self::Action>;

    spec fn spec_resources(&self) -> Seq<Self::Resource>;

    fn effect(&self) -> (r: Effect)
        ensures
            r == self.spec_effect(),
    ;

    fn actions(&self) -> (r: &[Self::Action])
        ensures
            r@ == self.spec_actions(),
    ;

    fn resources(&self) -> (r: &[Self::Resource])
        ensures
            r@ == self.spec_resources(),
    ;
}

/// A policy attached to a resource: it names identity patterns and actions.
pub trait ResourcePolicySolver: Sized {
    type Identity: MatchContains;
    type Action: PartialEq + Eq;

    spec fn spec_effect(&self) -> Effect;

    spec fn spec_actions(&self) -> Seq<Self::Action>;

    spec fn spec_identities(&self) -> Seq<Self::Identity>;

    fn effect(&self) -> (r: Effect)
        ensures
            r == self.spec_effect(),
    ;

    fn actions(&self) -> (r: &[Self::Action])
        ensures
            r@ == self.spec_actions(),
    ;

    fn identities(&self) -> (r: &[Self::Identity])
        ensures
            r@ == self.spec_identities(),
    ;
}

/// Source of the policies that apply to an identity or a resource.
pub trait Repository {
    type IdentityID;
    type ResourceID;
    type IdentityPolicy: IdentityPolicySolver;
    type ResourcePolicy: ResourcePolicySolver;

    /// Load all the Identity policies.
    ///
    /// Load the Identity policies directly attached and associated by groups
    /// that it participates.
    fn load_identity_policies(
        &self,
        identity_id: &Self::IdentityID,
    ) -> Result<Vec<Self::IdentityPolicy>, ()>;

    /// Load all the policies attached to a resource or inherited by it.
    fn load_resource_policies(
        &self,
        resource_id: &Self::ResourceID,
    ) -> Result<Vec<Self::ResourcePolicy>, ()>;
}

/// The decision on one request, and the policy that produced it.
#[derive(Debug, Clone, PartialEq, Eq)]
pub struct AccessResolution<R: ResourcePolicySolver, I: IdentityPolicySolver> {
    pub effect: Effect,
    /// Policy that resolved the access verification.
    pub policy: ResolutionPolicy<R, I>,
}

/// The policy that resolved a request; `Unresolved` when none matched and the
/// default Deny applies.
#[derive(Debug, Clone, PartialEq, Eq)]
pub enum ResolutionPolicy<R: ResourcePolicySolver, I: IdentityPolicySolver> {
    Resource(R),
    Identity(I),
    Unresolved,
}

} // verus!
