use crate::common::{
    AccessResolution, Effect, IdentityPolicySolver, MatchContains, Repository, ResolutionPolicy,
    ResourcePolicySolver,
};
use vstd::prelude::*;
use vstd::std_specs::cmp::PartialEqSpec;

verus! {

/// `a` is equal (by its `PartialEq`) to some entry of `actions`.
pub open spec fn action_listed<A: PartialEq>(actions: Seq<A>, a: A) -> bool {
    exists|j: int| 0 <= j < actions.len() && (#[trigger] actions[j]).eq_spec(&a)
}

/// Every required action is listed: coverage is a conjunction over `required`.
pub open spec fn actions_cover<A: PartialEq>(actions: Seq<A>, required: Seq<A>) -> bool {
    forall|i: int| 0 <= i < required.len() ==> action_listed(actions, #[trigger] required[i])
}

/// Some pattern of the list contains `value`.
pub open spec fn pattern_listed<L: MatchContains>(patterns: Seq<L>, value: L) -> bool {
    exists|j: int| 0 <= j < patterns.len() && (#[trigger] patterns[j]).spec_match_contains(&value)
}

/// An identity policy matches a request on `resource` for `required`.
pub open spec fn identity_policy_matches<P: IdentityPolicySolver>(
    resource: P::Resource,
    policy: P,
    required: Seq<P::Action>,
) -> bool {
    actions_cover(policy.spec_actions(), required) && pattern_listed(policy.spec_resources(), resource)
}

/// A resource policy matches a request by `identity` for `required`.
pub open spec fn resource_policy_matches<P: ResourcePolicySolver>(
    identity: P::Identity,
    policy: P,
    required: Seq<P::Action>,
) -> bool {
    actions_cover(policy.spec_actions(), required) && pattern_listed(policy.spec_identities(), identity)
}

/// The position of the first element of `s` that satisfies `pred`, if any.
pub open spec fn first_index<T>(s: Seq<T>, pred: spec_fn(T) -> bool) -> Option<int> {
    if exists|i: int| 0 <= i < s.len() && pred(s[i]) {
        Some(
            choose|i: int|
                0 <= i < s.len() && pred(s[i]) && forall|j: int| 0 <= j < i ==> !pred(#[trigger] s[j]),
        )
    } else {
        None
    }
}

/// Identity policies with the given effect that match the request.
pub open spec fn identity_candidate<P: IdentityPolicySolver>(
    resource: P::Resource,
    required: Seq<P::Action>,
    effect: Effect,
) -> spec_fn(P) -> bool {
    |p: P| p.spec_effect() == effect && identity_policy_matches(resource, p, required)
}

/// Resource policies with the given effect that match the request.
pub open spec fn resource_candidate<P: ResourcePolicySolver>(
    identity: P::Identity,
    required: Seq<P::Action>,
    effect: Effect,
) -> spec_fn(P) -> bool {
    |p: P| p.spec_effect() == effect && resource_policy_matches(identity, p, required)
}

/// Which policy decides a request.
pub enum Decider {
    /// The identity policy at this position.
    IdentityAt(int),
    /// The resource policy at this position.
    ResourceAt(int),
    /// No policy matched: the default applies.
    Default,
}

/// The decision procedure: identity Deny, resource Deny, identity Allow,
/// resource Allow, each the first match in list order; else the default.
pub open spec fn decider<Ident, Res, IdentPlc, ResPlc, Act>(
    identity: Ident,
    resource: Res,
    required: Seq<Act>,
    identity_policies: Seq<IdentPlc>,
    resource_policies: Seq<ResPlc>,
) -> Decider where
    Ident: MatchContains,
    Res: MatchContains,
    IdentPlc: IdentityPolicySolver<Resource = Res, Action = Act>,
    ResPlc: ResourcePolicySolver<Identity = Ident, Action = Act>,
    Act: PartialEq + Eq,
 {
    match first_index(identity_policies, identity_candidate(resource, required, Effect::Deny)) {
        Some(i) => Decider::IdentityAt(i),
        None => match first_index(
            resource_policies,
            resource_candidate(identity, required, Effect::Deny),
        ) {
            Some(i) => Decider::ResourceAt(i),
            None => match first_index(
                identity_policies,
                identity_candidate(resource, required, Effect::Allow),
            ) {
                Some(i) => Decider::IdentityAt(i),
                None => match first_index(
                    resource_policies,
                    resource_candidate(identity, required, Effect::Allow),
                ) {
                    Some(i) => Decider::ResourceAt(i),
                    None => Decider::Default,
                },
            },
        },
    }
}

/// `r` is the resolution that `d` stands for: the deciding policy's effect and
/// a clone of that policy, or Deny with no policy.
pub open spec fn resolution_by<R: ResourcePolicySolver + Clone, I: IdentityPolicySolver + Clone>(
    r: AccessResolution<R, I>,
    d: Decider,
    identity_policies: Seq<I>,
    resource_policies: Seq<R>,
) -> bool {
    match d {
        Decider::IdentityAt(i) => {
            &&& 0 <= i < identity_policies.len()
            &&& r.effect == identity_policies[i].spec_effect()
            &&& r.policy is Identity
            &&& cloned(identity_policies[i], r.policy->Identity_0)
        },
        Decider::ResourceAt(i) => {
            &&& 0 <= i < resource_policies.len()
            &&& r.effect == resource_policies[i].spec_effect()
            &&& r.policy is Resource
            &&& cloned(resource_policies[i], r.policy->Resource_0)
        },
        Decider::Default => r.effect == Effect::Deny && r.policy is Unresolved,
    }
}

fn action_listed_in<Act: PartialEq + Eq>(actions: &[Act], action: &Act) -> (r: bool)
    requires
        Act::obeys_eq_spec(),
    ensures
        r == action_listed(actions@, *action),
{
    let mut j: usize = 0;
    while j < actions.len()
        invariant
            Act::obeys_eq_spec(),
            0 <= j <= actions@.len(),
            forall|k: int| 0 <= k < j ==> !(#[trigger] actions@[k]).eq_spec(action),
        decreases actions@.len() - j,
    {
        if actions[j].eq(action) {
            return true;
        }
        j += 1;
    }
    false
}

fn actions_covered<Act: PartialEq + Eq>(actions: &[Act], required_actions: &[Act]) -> (r: bool)
    requires
        Act::obeys_eq_spec(),
    ensures
        r == actions_cover(actions@, required_actions@),
{
    let mut i: usize = 0;
    while i < required_actions.len()
        invariant
            Act::obeys_eq_spec(),
            0 <= i <= required_actions@.len(),
            forall|k: int| 0 <= k < i ==> action_listed(actions@, #[trigger] required_actions@[k]),
        decreases required_actions@.len() - i,
    {
        if !action_listed_in(actions, &required_actions[i]) {
            return false;
        }
        i += 1;
    }
    true
}

fn pattern_listed_in<L: MatchContains>(patterns: &[L], value: &L) -> (r: bool)
    ensures
        r == pattern_listed(patterns@, *value),
{
    let mut j: usize = 0;
    while j < patterns.len()
        invariant
            0 <= j <= patterns@.len(),
            forall|k: int| 0 <= k < j ==> !(#[trigger] patterns@[k]).spec_match_contains(value),
        decreases patterns@.len() - j,
    {
        if patterns[j].match_contains(value) {
            return true;
        }
        j += 1;
    }
    false
}

/// Tests one identity policy against the request: every required action is
/// listed and some resource pattern contains the requested resource. On a
/// match the result carries the policy's effect and the policy; otherwise it
/// is Deny with no policy.
pub fn match_identity_policy<Res, ResPlc, IdentPlc, Act>(
    requested_resource: &Res,
    identity_policy: &IdentPlc,
    required_actions: &[Act],
) -> (r: AccessResolution<ResPlc, IdentPlc>) where
    Res: MatchContains,
    ResPlc: ResourcePolicySolver<Action = Act>,
    IdentPlc: IdentityPolicySolver<Resource = Res, Action = Act> + Clone,
    Act: PartialEq + Eq,

    requires
        Act::obeys_eq_spec(),
    ensures
        identity_policy_matches(*requested_resource, *identity_policy, required_actions@) ==> {
            &&& r.effect == identity_policy.spec_effect()
            &&& r.policy is Identity
            &&& cloned(*identity_policy, r.policy->Identity_0)
        },
        !identity_policy_matches(*requested_resource, *identity_policy, required_actions@) ==> {
            &&& r.effect == Effect::Deny
            &&& r.policy is Unresolved
        },
{
    let action_matched = actions_covered(identity_policy.actions(), required_actions);
    let resource_matched = pattern_listed_in(identity_policy.resources(), requested_resource);

    if action_matched && resource_matched {
        return AccessResolution {
            effect: identity_policy.effect(),
            policy: ResolutionPolicy::Identity(identity_policy.clone()),
        };
    }

    AccessResolution { effect: Effect::Deny, policy: ResolutionPolicy::Unresolved }
}

/// Tests one resource policy against the request: every required action is
/// listed and some identity pattern contains the requesting identity. On a
/// match the result carries the policy's effect and the policy; otherwise it
/// is Deny with no policy.
pub fn match_resource_policy<Ident, ResPlc, IdentPlc, Act>(
    requesting_identity: &Ident,
    resource_policy: &ResPlc,
    required_actions: &[Act],
) -> (r: AccessResolution<ResPlc, IdentPlc>) where
    Ident: MatchContains,
    ResPlc: ResourcePolicySolver<Identity = Ident, Action = Act> + Clone,
    IdentPlc: IdentityPolicySolver<Action = Act>,
    Act: PartialEq + Eq,

    requires
        Act::obeys_eq_spec(),
    ensures
        resource_policy_matches(*requesting_identity, *resource_policy, required_actions@) ==> {
            &&& r.effect == resource_policy.spec_effect()
            &&& r.policy is Resource
            &&& cloned(*resource_policy, r.policy->Resource_0)
        },
        !resource_policy_matches(*requesting_identity, *resource_policy, required_actions@) ==> {
            &&& r.effect == Effect::Deny
            &&& r.policy is Unresolved
        },
{
    let action_matched = actions_covered(resource_policy.actions(), required_actions);
    let identity_matched = pattern_listed_in(resource_policy.identities(), requesting_identity);

    if action_matched && identity_matched {
        return AccessResolution {
            effect: resource_policy.effect(),
            policy: ResolutionPolicy::Resource(resource_policy.clone()),
        };
    }

    AccessResolution { effect: Effect::Deny, policy: ResolutionPolicy::Unresolved }
}

proof fn lemma_minimal_witness<T>(s: Seq<T>, pred: spec_fn(T) -> bool, i: int)
    requires
        0 <= i < s.len(),
        pred(s[i]),
    ensures
        exists|k: int|
            0 <= k < s.len() && pred(s[k]) && forall|j: int| 0 <= j < k ==> !pred(#[trigger] s[j]),
    decreases i,
{
    if exists|j: int| 0 <= j < i && pred(s[j]) {
        let j = choose|j: int| 0 <= j < i && pred(s[j]);
        lemma_minimal_witness(s, pred, j);
    } else {
        assert(forall|j: int| 0 <= j < i ==> !pred(#[trigger] s[j]));
    }
}

/// `first_index` gives the least position whose element satisfies `pred`,
/// and `None` exactly when no element does.
pub proof fn lemma_first_index<T>(s: Seq<T>, pred: spec_fn(T) -> bool)
    ensures
        match first_index(s, pred) {
            Some(k) => {
                &&& 0 <= k < s.len()
                &&& pred(s[k])
                &&& forall|j: int| 0 <= j < k ==> !pred(#[trigger] s[j])
            },
            None => forall|j: int| 0 <= j < s.len() ==> !pred(#[trigger] s[j]),
        },
{
    if exists|i: int| 0 <= i < s.len() && pred(s[i]) {
        let i = choose|i: int| 0 <= i < s.len() && pred(s[i]);
        lemma_minimal_witness(s, pred, i);
    }
}

proof fn lemma_first_index_at<T>(s: Seq<T>, pred: spec_fn(T) -> bool, i: int)
    requires
        0 <= i < s.len(),
        pred(s[i]),
        forall|j: int| 0 <= j < i ==> !pred(#[trigger] s[j]),
    ensures
        first_index(s, pred) == Some(i),
{
    let c = choose|c: int|
        0 <= c < s.len() && pred(s[c]) && forall|j: int| 0 <= j < c ==> !pred(#[trigger] s[j]);
    if c < i {
        assert(!pred(s[c]));
    } else if c > i {
        assert(!pred(s[i]));
    }
}

proof fn lemma_first_index_none<T>(s: Seq<T>, pred: spec_fn(T) -> bool)
    requires
        forall|j: int| 0 <= j < s.len() ==> !pred(#[trigger] s[j]),
    ensures
        first_index(s, pred) is None,
{
}

/// One phase over identity policies: the first policy, in list order, with
/// the given effect that matches the request.
fn scan_identity_policies<Res, ResPlc, IdentPlc, Act>(
    requested_resource: &Res,
    identity_policies: &[IdentPlc],
    required_actions: &[Act],
    effect: Effect,
) -> (r: AccessResolution<ResPlc, IdentPlc>) where
    Res: MatchContains,
    ResPlc: ResourcePolicySolver<Action = Act>,
    IdentPlc: IdentityPolicySolver<Resource = Res, Action = Act> + Clone,
    Act: PartialEq + Eq,

    requires
        Act::obeys_eq_spec(),
    ensures
        match first_index(
            identity_policies@,
            identity_candidate(*requested_resource, required_actions@, effect),
        ) {
            Some(i) => {
                &&& 0 <= i < identity_policies@.len()
                &&& r.effect == effect
                &&& identity_policies@[i].spec_effect() == effect
                &&& r.policy is Identity
                &&& cloned(identity_policies@[i], r.policy->Identity_0)
            },
            None => r.effect == Effect::Deny && r.policy is Unresolved,
        },
{
    let ghost pred = identity_candidate::<IdentPlc>(*requested_resource, required_actions@, effect);
    let mut j: usize = 0;
    while j < identity_policies.len()
        invariant
            Act::obeys_eq_spec(),
            pred == identity_candidate::<IdentPlc>(*requested_resource, required_actions@, effect),
            0 <= j <= identity_policies@.len(),
            forall|k: int| 0 <= k < j ==> !pred(#[trigger] identity_policies@[k]),
        decreases identity_policies@.len() - j,
    {
        let identity_policy = &identity_policies[j];
        if identity_policy.effect() == effect {
            let resolution = match_identity_policy(
                requested_resource,
                identity_policy,
                required_actions,
            );
            match &resolution.policy {
                ResolutionPolicy::Identity(_) => {
                    proof {
                        lemma_first_index_at(identity_policies@, pred, j as int);
                    }
                    return resolution;
                },
                _ => {},
            }
        }
        j += 1;
    }
    proof {
        lemma_first_index_none(identity_policies@, pred);
    }
    AccessResolution { effect: Effect::Deny, policy: ResolutionPolicy::Unresolved }
}

/// One phase over resource policies: the first policy, in list order, with
/// the given effect that matches the request.
fn scan_resource_policies<Ident, ResPlc, IdentPlc, Act>(
    requesting_identity: &Ident,
    resource_policies: &[ResPlc],
    required_actions: &[Act],
    effect: Effect,
) -> (r: AccessResolution<ResPlc, IdentPlc>) where
    Ident: MatchContains,
    ResPlc: ResourcePolicySolver<Identity = Ident, Action = Act> + Clone,
    IdentPlc: IdentityPolicySolver<Action = Act>,
    Act: PartialEq + Eq,

    requires
        Act::obeys_eq_spec(),
    ensures
        match first_index(
            resource_policies@,
            resource_candidate(*requesting_identity, required_actions@, effect),
        ) {
            Some(i) => {
                &&& 0 <= i < resource_policies@.len()
                &&& r.effect == effect
                &&& resource_policies@[i].spec_effect() == effect
                &&& r.policy is Resource
                &&& cloned(resource_policies@[i], r.policy->Resource_0)
            },
            None => r.effect == Effect::Deny && r.policy is Unresolved,
        },
{
    let ghost pred = resource_candidate::<ResPlc>(*requesting_identity, required_actions@, effect);
    let mut j: usize = 0;
    while j < resource_policies.len()
        invariant
            Act::obeys_eq_spec(),
            pred == resource_candidate::<ResPlc>(*requesting_identity, required_actions@, effect),
            0 <= j <= resource_policies@.len(),
            forall|k: int| 0 <= k < j ==> !pred(#[trigger] resource_policies@[k]),
        decreases resource_policies@.len() - j,
    {
        let resource_policy = &resource_policies[j];
        if resource_policy.effect() == effect {
            let resolution = match_resource_policy(
                requesting_identity,
                resource_policy,
                required_actions,
            );
            match &resolution.policy {
                ResolutionPolicy::Resource(_) => {
                    proof {
                        lemma_first_index_at(resource_policies@, pred, j as int);
                    }
                    return resolution;
                },
                _ => {},
            }
        }
        j += 1;
    }
    proof {
        lemma_first_index_none(resource_policies@, pred);
    }
    AccessResolution { effect: Effect::Deny, policy: ResolutionPolicy::Unresolved }
}

/// Decides a request from the two policy lists: identity Deny, resource Deny,
/// identity Allow, resource Allow, each phase the first match in list order;
/// Deny with no policy where nothing matches.
pub fn resolve_access<Ident, Res, IdentPlc, ResPlc, Act>(
    requesting_identity: &Ident,
    requested_resource: &Res,
    required_actions: &[Act],
    identity_policies: &[IdentPlc],
    resource_policies: &[ResPlc],
) -> (r: AccessResolution<ResPlc, IdentPlc>) where
    Ident: MatchContains,
    Res: MatchContains,
    IdentPlc: IdentityPolicySolver<Resource = Res, Action = Act> + Clone,
    ResPlc: ResourcePolicySolver<Identity = Ident, Action = Act> + Clone,
    Act: PartialEq + Eq,

    requires
        Act::obeys_eq_spec(),
    ensures
        resolution_by(
            r,
            decider(
                *requesting_identity,
                *requested_resource,
                required_actions@,
                identity_policies@,
                resource_policies@,
            ),
            identity_policies@,
            resource_policies@,
        ),
{
    // Deny
    let resolution = scan_identity_policies(
        requested_resource,
        identity_policies,
        required_actions,
        Effect::Deny,
    );
    if let ResolutionPolicy::Identity(_) = &resolution.policy {
        return resolution;
    }
    let resolution = scan_resource_policies(
        requesting_identity,
        resource_policies,
        required_actions,
        Effect::Deny,
    );
    if let ResolutionPolicy::Resource(_) = &resolution.policy {
        return resolution;
    }
    // Allow
    let resolution = scan_identity_policies(
        requested_resource,
        identity_policies,
        required_actions,
        Effect::Allow,
    );
    if let ResolutionPolicy::Identity(_) = &resolution.policy {
        return resolution;
    }
    let resolution = scan_resource_policies(
        requesting_identity,
        resource_policies,
        required_actions,
        Effect::Allow,
    );
    if let ResolutionPolicy::Resource(_) = &resolution.policy {
        return resolution;
    }
    AccessResolution { effect: Effect::Deny, policy: ResolutionPolicy::Unresolved }
}

/// Loads the policies of the identity and of the resource from the
/// repository and decides the request from them. A failed load is returned
/// as it came; the resource policies are loaded only after the identity
/// policies were.
pub fn verify_access<Ident, Res, IdentPlc, ResPlc, Act, Repo>(
    requesting_identity: &Ident,
    requested_resource: &Res,
    required_actions: &[Act],
    repository: &Repo,
) -> (r: Result<AccessResolution<ResPlc, IdentPlc>, ()>) where
    Ident: MatchContains,
    Res: MatchContains,
    IdentPlc: IdentityPolicySolver<Resource = Res, Action = Act> + Clone,
    ResPlc: ResourcePolicySolver<Identity = Ident, Action = Act> + Clone,
    Act: PartialEq + Eq,
    Repo: Repository<
        IdentityID = Ident,
        ResourceID = Res,
        IdentityPolicy = IdentPlc,
        ResourcePolicy = ResPlc,
    >,

    requires
        Act::obeys_eq_spec(),
    ensures
        r is Ok ==> exists|ip: Vec<IdentPlc>, rp: Vec<ResPlc>|
            {
                &&& call_ensures(
                    Repo::load_identity_policies,
                    (repository, requesting_identity),
                    Ok::<Vec<IdentPlc>, ()>(ip),
                )
                &&& call_ensures(
                    Repo::load_resource_policies,
                    (repository, requested_resource),
                    Ok::<Vec<ResPlc>, ()>(rp),
                )
                &&& resolution_by(
                    r->Ok_0,
                    decider(
                        *requesting_identity,
                        *requested_resource,
                        required_actions@,
                        ip@,
                        rp@,
                    ),
                    ip@,
                    rp@,
                )
            },
        r is Err ==> {
            ||| call_ensures(
                Repo::load_identity_policies,
                (repository, requesting_identity),
                Err::<Vec<IdentPlc>, ()>(()),
            )
            ||| call_ensures(
                Repo::load_resource_policies,
                (repository, requested_resource),
                Err::<Vec<ResPlc>, ()>(()),
            )
        },
{
    let identity_policies = match repository.load_identity_policies(requesting_identity) {
        Ok(policies) => policies,
        Err(e) => return Err(e),
    };
    let resource_policies = match repository.load_resource_policies(requested_resource) {
        Ok(policies) => policies,
        Err(e) => return Err(e),
    };
    Ok(
        resolve_access(
            requesting_identity,
            requested_resource,
            required_actions,
            identity_policies.as_slice(),
            resource_policies.as_slice(),
        ),
    )
}

} // verus!
