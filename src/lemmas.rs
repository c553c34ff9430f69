use crate::algorithm::{
    action_listed, decider, first_index, identity_candidate, identity_policy_matches,
    lemma_first_index, resolution_by, resource_candidate, resource_policy_matches, Decider,
};
use crate::common::{
    AccessResolution, Effect, IdentityPolicySolver, MatchContains, ResourcePolicySolver,
};
use crate::data::{IdentityPath, ResourcePath};
use vstd::prelude::*;

verus! {

proof fn lemma_phases<Ident, Res, IdentPlc, ResPlc, Act>(
    identity: Ident,
    resource: Res,
    required: Seq<Act>,
    identity_policies: Seq<IdentPlc>,
    resource_policies: Seq<ResPlc>,
) where
    Ident: MatchContains,
    Res: MatchContains,
    IdentPlc: IdentityPolicySolver<Resource = Res, Action = Act>,
    ResPlc: ResourcePolicySolver<Identity = Ident, Action = Act>,
    Act: PartialEq + Eq,

    ensures
        ({
            let p1 = identity_candidate::<IdentPlc>(resource, required, Effect::Deny);
            let p2 = resource_candidate::<ResPlc>(identity, required, Effect::Deny);
            let p3 = identity_candidate::<IdentPlc>(resource, required, Effect::Allow);
            let p4 = resource_candidate::<ResPlc>(identity, required, Effect::Allow);
            &&& match first_index(identity_policies, p1) {
                Some(k) => 0 <= k < identity_policies.len() && p1(identity_policies[k]) && forall|
                    j: int,
                | 0 <= j < k ==> !p1(#[trigger] identity_policies[j]),
                None => forall|j: int|
                    0 <= j < identity_policies.len() ==> !p1(#[trigger] identity_policies[j]),
            }
            &&& match first_index(resource_policies, p2) {
                Some(k) => 0 <= k < resource_policies.len() && p2(resource_policies[k]) && forall|
                    j: int,
                | 0 <= j < k ==> !p2(#[trigger] resource_policies[j]),
                None => forall|j: int|
                    0 <= j < resource_policies.len() ==> !p2(#[trigger] resource_policies[j]),
            }
            &&& match first_index(identity_policies, p3) {
                Some(k) => 0 <= k < identity_policies.len() && p3(identity_policies[k]) && forall|
                    j: int,
                | 0 <= j < k ==> !p3(#[trigger] identity_policies[j]),
                None => forall|j: int|
                    0 <= j < identity_policies.len() ==> !p3(#[trigger] identity_policies[j]),
            }
            &&& match first_index(resource_policies, p4) {
                Some(k) => 0 <= k < resource_policies.len() && p4(resource_policies[k]) && forall|
                    j: int,
                | 0 <= j < k ==> !p4(#[trigger] resource_policies[j]),
                None => forall|j: int|
                    0 <= j < resource_policies.len() ==> !p4(#[trigger] resource_policies[j]),
            }
        }),
{
    lemma_first_index(identity_policies, identity_candidate::<IdentPlc>(resource, required, Effect::Deny));
    lemma_first_index(resource_policies, resource_candidate::<ResPlc>(identity, required, Effect::Deny));
    lemma_first_index(identity_policies, identity_candidate::<IdentPlc>(resource, required, Effect::Allow));
    lemma_first_index(resource_policies, resource_candidate::<ResPlc>(identity, required, Effect::Allow));
}

/// Deny precedence: when any Deny policy of either side matches the request,
/// the resolution is Deny, whatever Allow policies match too.
pub proof fn lemma_deny_precedence<Ident, Res, IdentPlc, ResPlc, Act>(
    identity: Ident,
    resource: Res,
    required: Seq<Act>,
    identity_policies: Seq<IdentPlc>,
    resource_policies: Seq<ResPlc>,
    r: AccessResolution<ResPlc, IdentPlc>,
) where
    Ident: MatchContains,
    Res: MatchContains,
    IdentPlc: IdentityPolicySolver<Resource = Res, Action = Act> + Clone,
    ResPlc: ResourcePolicySolver<Identity = Ident, Action = Act> + Clone,
    Act: PartialEq + Eq,

    requires
        resolution_by(
            r,
            decider(identity, resource, required, identity_policies, resource_policies),
            identity_policies,
            resource_policies,
        ),
        (exists|i: int|
            0 <= i < identity_policies.len() && identity_policies[i].spec_effect() == Effect::Deny
                && identity_policy_matches(resource, identity_policies[i], required)) || (exists|
            i: int,
        |
            0 <= i < resource_policies.len() && resource_policies[i].spec_effect() == Effect::Deny
                && resource_policy_matches(identity, resource_policies[i], required)),
    ensures
        r.effect == Effect::Deny,
{
    lemma_phases(identity, resource, required, identity_policies, resource_policies);
    if exists|i: int|
        0 <= i < identity_policies.len() && identity_policies[i].spec_effect() == Effect::Deny
            && identity_policy_matches(resource, identity_policies[i], required) {
        let i = choose|i: int|
            0 <= i < identity_policies.len() && identity_policies[i].spec_effect() == Effect::Deny
                && identity_policy_matches(resource, identity_policies[i], required);
        assert(identity_candidate::<IdentPlc>(resource, required, Effect::Deny)(
            identity_policies[i],
        ));
    } else {
        let i = choose|i: int|
            0 <= i < resource_policies.len() && resource_policies[i].spec_effect() == Effect::Deny
                && resource_policy_matches(identity, resource_policies[i], required);
        assert(resource_candidate::<ResPlc>(identity, required, Effect::Deny)(
            resource_policies[i],
        ));
    }
}

/// Default deny: when no policy of either side matches the request, the
/// resolution is Deny with no resolving policy.
pub proof fn lemma_default_deny<Ident, Res, IdentPlc, ResPlc, Act>(
    identity: Ident,
    resource: Res,
    required: Seq<Act>,
    identity_policies: Seq<IdentPlc>,
    resource_policies: Seq<ResPlc>,
    r: AccessResolution<ResPlc, IdentPlc>,
) where
    Ident: MatchContains,
    Res: MatchContains,
    IdentPlc: IdentityPolicySolver<Resource = Res, Action = Act> + Clone,
    ResPlc: ResourcePolicySolver<Identity = Ident, Action = Act> + Clone,
    Act: PartialEq + Eq,

    requires
        resolution_by(
            r,
            decider(identity, resource, required, identity_policies, resource_policies),
            identity_policies,
            resource_policies,
        ),
        forall|i: int|
            0 <= i < identity_policies.len() ==> !identity_policy_matches(
                resource,
                #[trigger] identity_policies[i],
                required,
            ),
        forall|i: int|
            0 <= i < resource_policies.len() ==> !resource_policy_matches(
                identity,
                #[trigger] resource_policies[i],
                required,
            ),
    ensures
        r.effect == Effect::Deny,
        r.policy is Unresolved,
{
    lemma_phases(identity, resource, required, identity_policies, resource_policies);
    let d = decider(identity, resource, required, identity_policies, resource_policies);
    match d {
        Decider::IdentityAt(k) => {
            assert(!identity_policy_matches(resource, identity_policies[k], required));
        },
        Decider::ResourceAt(k) => {
            assert(!resource_policy_matches(identity, resource_policies[k], required));
        },
        Decider::Default => {},
    }
}

/// Action coverage is conjunctive: an identity policy that lacks one of the
/// required actions does not match, whatever its resource patterns.
pub proof fn lemma_identity_coverage_conjunctive<P: IdentityPolicySolver>(
    resource: P::Resource,
    policy: P,
    required: Seq<P::Action>,
    i: int,
)
    requires
        0 <= i < required.len(),
        !action_listed(policy.spec_actions(), required[i]),
    ensures
        !identity_policy_matches(resource, policy, required),
{
}

/// Action coverage is conjunctive: a resource policy that lacks one of the
/// required actions does not match, whatever its identity patterns.
pub proof fn lemma_resource_coverage_conjunctive<P: ResourcePolicySolver>(
    identity: P::Identity,
    policy: P,
    required: Seq<P::Action>,
    i: int,
)
    requires
        0 <= i < required.len(),
        !action_listed(policy.spec_actions(), required[i]),
    ensures
        !resource_policy_matches(identity, policy, required),
{
}

/// Order sensitivity: the resolving policy matches the request, and no policy
/// before it on the same side with the same effect does.
pub proof fn lemma_first_match_resolves<Ident, Res, IdentPlc, ResPlc, Act>(
    identity: Ident,
    resource: Res,
    required: Seq<Act>,
    identity_policies: Seq<IdentPlc>,
    resource_policies: Seq<ResPlc>,
) where
    Ident: MatchContains,
    Res: MatchContains,
    IdentPlc: IdentityPolicySolver<Resource = Res, Action = Act>,
    ResPlc: ResourcePolicySolver<Identity = Ident, Action = Act>,
    Act: PartialEq + Eq,

    ensures
        match decider(identity, resource, required, identity_policies, resource_policies) {
            Decider::IdentityAt(k) => {
                &&& 0 <= k < identity_policies.len()
                &&& identity_policy_matches(resource, identity_policies[k], required)
                &&& forall|j: int|
                    0 <= j < k && (#[trigger] identity_policies[j]).spec_effect()
                        == identity_policies[k].spec_effect() ==> !identity_policy_matches(
                        resource,
                        identity_policies[j],
                        required,
                    )
            },
            Decider::ResourceAt(k) => {
                &&& 0 <= k < resource_policies.len()
                &&& resource_policy_matches(identity, resource_policies[k], required)
                &&& forall|j: int|
                    0 <= j < k && (#[trigger] resource_policies[j]).spec_effect()
                        == resource_policies[k].spec_effect() ==> !resource_policy_matches(
                        identity,
                        resource_policies[j],
                        required,
                    )
            },
            Decider::Default => true,
        },
{
    lemma_phases(identity, resource, required, identity_policies, resource_policies);
}

/// Phase tie-break: when an identity Deny policy matches, it resolves the
/// request, whatever resource policies match.
pub proof fn lemma_identity_deny_first<Ident, Res, IdentPlc, ResPlc, Act>(
    identity: Ident,
    resource: Res,
    required: Seq<Act>,
    identity_policies: Seq<IdentPlc>,
    resource_policies: Seq<ResPlc>,
    r: AccessResolution<ResPlc, IdentPlc>,
    i: int,
) where
    Ident: MatchContains,
    Res: MatchContains,
    IdentPlc: IdentityPolicySolver<Resource = Res, Action = Act> + Clone,
    ResPlc: ResourcePolicySolver<Identity = Ident, Action = Act> + Clone,
    Act: PartialEq + Eq,

    requires
        resolution_by(
            r,
            decider(identity, resource, required, identity_policies, resource_policies),
            identity_policies,
            resource_policies,
        ),
        0 <= i < identity_policies.len(),
        identity_policies[i].spec_effect() == Effect::Deny,
        identity_policy_matches(resource, identity_policies[i], required),
    ensures
        r.effect == Effect::Deny,
        r.policy is Identity,
        decider(identity, resource, required, identity_policies, resource_policies) is IdentityAt,
{
    lemma_phases(identity, resource, required, identity_policies, resource_policies);
    assert(identity_candidate::<IdentPlc>(resource, required, Effect::Deny)(identity_policies[i]));
}

/// A resource pattern with every field unset contains every resource path; a
/// pattern with every field set contains exactly the path equal to it.
pub proof fn lemma_resource_path_wildcard(pattern: ResourcePath, value: ResourcePath)
    ensures
        (pattern.account is None && pattern.context is None && pattern.resource_type is None
            && pattern.resource_id is None) ==> pattern.spec_match_contains(&value),
        (pattern.account is Some && pattern.context is Some && pattern.resource_type is Some
            && pattern.resource_id is Some) ==> (pattern.spec_match_contains(&value) <==> value
            == pattern),
{
}

/// An identity pattern with every field unset contains every identity path; a
/// pattern with every field set contains exactly the path equal to it.
pub proof fn lemma_identity_path_wildcard(pattern: IdentityPath, value: IdentityPath)
    ensures
        (pattern.account is None && pattern.identity_type is None && pattern.identity_id is None)
            ==> pattern.spec_match_contains(&value),
        (pattern.account is Some && pattern.identity_type is Some && pattern.identity_id is Some)
            ==> (pattern.spec_match_contains(&value) <==> value == pattern),
{
}

} // verus!
