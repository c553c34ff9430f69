use access_resolver::algorithm::{
    match_identity_policy, match_resource_policy, resolve_access, verify_access,
};
use access_resolver::data::{
    match_contains, Action, Condition, Context, IdentityPath, IdentityPolicy, IdentityType,
    Resource, ResourceAttribute, ResourcePath, ResourcePolicy,
};
use access_resolver::{AccessResolution, Effect, MatchContains, Repository, ResolutionPolicy};

struct TestRepository {
    identity_policies: Result<Vec<IdentityPolicy>, ()>,
    resource_policies: Result<Vec<ResourcePolicy>, ()>,
}

impl TestRepository {
    fn new(
        identity_policies: Vec<IdentityPolicy>,
        resource_policies: Vec<ResourcePolicy>,
    ) -> Self {
        Self {
            identity_policies: Ok(identity_policies),
            resource_policies: Ok(resource_policies),
        }
    }
}

impl Repository for TestRepository {
    type IdentityID = IdentityPath;
    type ResourceID = ResourcePath;
    type IdentityPolicy = IdentityPolicy;
    type ResourcePolicy = ResourcePolicy;

    fn load_identity_policies(
        &self,
        _: &Self::IdentityID,
    ) -> Result<Vec<Self::IdentityPolicy>, ()> {
        self.identity_policies.clone()
    }

    fn load_resource_policies(
        &self,
        _: &Self::ResourceID,
    ) -> Result<Vec<Self::ResourcePolicy>, ()> {
        self.resource_policies.clone()
    }
}

fn user_100_1() -> IdentityPath {
    IdentityPath {
        account: Some(100),
        identity_type: Some(IdentityType::User),
        identity_id: Some(1),
    }
}

fn channel_100_1() -> ResourcePath {
    ResourcePath {
        account: Some(100),
        context: Some(Context::Organization),
        resource_type: Some(Resource::OrganizationChannel),
        resource_id: Some(1),
    }
}

fn account_pattern(account: u64) -> ResourcePath {
    ResourcePath {
        account: Some(account),
        context: None,
        resource_type: None,
        resource_id: None,
    }
}

fn identity_policy(id: u128, effect: Effect, resources: Vec<ResourcePath>, actions: Vec<Action>) -> IdentityPolicy {
    IdentityPolicy {
        id,
        effect,
        resources,
        actions,
        conditions: vec![],
    }
}

fn resource_policy(id: u128, effect: Effect, identities: Vec<IdentityPath>, actions: Vec<Action>) -> ResourcePolicy {
    ResourcePolicy {
        id,
        effect,
        identities,
        actions,
        conditions: vec![],
    }
}

fn any_identity() -> IdentityPath {
    IdentityPath {
        account: None,
        identity_type: None,
        identity_id: None,
    }
}

#[test]
fn verify_identity_policy() {
    let resolution_policy = IdentityPolicy {
        id: 1,
        effect: Effect::Allow,
        resources: vec![ResourcePath {
            account: Some(100),
            context: None,
            resource_type: None,
            resource_id: None,
        }],
        actions: vec![Action::OrganizationDeleteChannel],
        conditions: vec![],
    };
    let repository = TestRepository::new(vec![resolution_policy.clone()], vec![]);

    let requesting_identity = IdentityPath {
        account: Some(100),
        identity_type: Some(IdentityType::User),
        identity_id: Some(1),
    };
    let requested_resource = ResourcePath {
        account: Some(100),
        context: Some(Context::Organization),
        resource_type: Some(Resource::OrganizationChannel),
        resource_id: Some(1),
    };

    let resolution = verify_access(
        &requesting_identity,
        &requested_resource,
        &[Action::OrganizationDeleteChannel],
        &repository,
    )
    .unwrap();

    assert_eq!(
        resolution,
        AccessResolution {
            effect: Effect::Allow,
            policy: ResolutionPolicy::Identity(resolution_policy)
        }
    )
}

#[test]
fn identity_deny_overrides_identity_allow() {
    let allow = identity_policy(1, Effect::Allow, vec![account_pattern(100)], vec![Action::OrganizationDeleteChannel]);
    let deny = identity_policy(2, Effect::Deny, vec![account_pattern(100)], vec![Action::OrganizationDeleteChannel]);
    let repository = TestRepository::new(vec![allow, deny.clone()], vec![]);
    let resolution = verify_access(
        &user_100_1(),
        &channel_100_1(),
        &[Action::OrganizationDeleteChannel],
        &repository,
    )
    .unwrap();
    assert_eq!(
        resolution,
        AccessResolution {
            effect: Effect::Deny,
            policy: ResolutionPolicy::Identity(deny)
        }
    );
}

#[test]
fn no_policies_default_deny() {
    let repository = TestRepository::new(vec![], vec![]);
    let resolution: AccessResolution<ResourcePolicy, IdentityPolicy> = verify_access(
        &user_100_1(),
        &channel_100_1(),
        &[Action::OrganizationDeleteChannel],
        &repository,
    )
    .unwrap();
    assert_eq!(
        resolution,
        AccessResolution {
            effect: Effect::Deny,
            policy: ResolutionPolicy::Unresolved
        }
    );
}

#[test]
fn partial_action_coverage_does_not_match() {
    let allow = identity_policy(1, Effect::Allow, vec![account_pattern(100)], vec![Action::IAMCreateUser]);
    let repository = TestRepository::new(vec![allow.clone()], vec![]);
    let resolution = verify_access(
        &user_100_1(),
        &channel_100_1(),
        &[Action::IAMCreateUser, Action::IAMDeleteUser],
        &repository,
    )
    .unwrap();
    assert_eq!(
        resolution,
        AccessResolution {
            effect: Effect::Deny,
            policy: ResolutionPolicy::Unresolved
        }
    );
    let direct: AccessResolution<ResourcePolicy, IdentityPolicy> = match_identity_policy(
        &channel_100_1(),
        &allow,
        &[Action::IAMCreateUser, Action::IAMDeleteUser],
    );
    assert_eq!(direct.policy, ResolutionPolicy::Unresolved);
    let covered: AccessResolution<ResourcePolicy, IdentityPolicy> =
        match_identity_policy(&channel_100_1(), &allow, &[Action::IAMCreateUser]);
    assert_eq!(covered.policy, ResolutionPolicy::Identity(allow));
}

#[test]
fn resource_policy_with_wildcard_account_matches_service() {
    let pattern = IdentityPath {
        account: None,
        identity_type: Some(IdentityType::Service),
        identity_id: None,
    };
    let policy = resource_policy(7, Effect::Allow, vec![pattern], vec![Action::IAMReadUser]);
    let service = IdentityPath {
        account: Some(200),
        identity_type: Some(IdentityType::Service),
        identity_id: Some(9),
    };
    let repository = TestRepository::new(vec![], vec![policy.clone()]);
    let resolution = verify_access(&service, &channel_100_1(), &[Action::IAMReadUser], &repository).unwrap();
    assert_eq!(
        resolution,
        AccessResolution {
            effect: Effect::Allow,
            policy: ResolutionPolicy::Resource(policy.clone())
        }
    );
    let user = IdentityPath {
        account: Some(200),
        identity_type: Some(IdentityType::User),
        identity_id: Some(9),
    };
    let other: AccessResolution<ResourcePolicy, IdentityPolicy> =
        match_resource_policy(&user, &policy, &[Action::IAMReadUser]);
    assert_eq!(other.policy, ResolutionPolicy::Unresolved);
    assert_eq!(other.effect, Effect::Deny);
}

#[test]
fn resource_load_error_is_returned() {
    let allow = identity_policy(1, Effect::Allow, vec![account_pattern(100)], vec![Action::OrganizationDeleteChannel]);
    let repository = TestRepository {
        identity_policies: Ok(vec![allow]),
        resource_policies: Err(()),
    };
    let result = verify_access(
        &user_100_1(),
        &channel_100_1(),
        &[Action::OrganizationDeleteChannel],
        &repository,
    );
    assert_eq!(result, Err(()));
}

#[test]
fn identity_load_error_is_returned() {
    let repository = TestRepository {
        identity_policies: Err(()),
        resource_policies: Ok(vec![]),
    };
    let result = verify_access(
        &user_100_1(),
        &channel_100_1(),
        &[Action::OrganizationDeleteChannel],
        &repository,
    );
    assert_eq!(result, Err(()));
}

#[test]
fn resource_deny_overrides_identity_allow() {
    let allow = identity_policy(1, Effect::Allow, vec![account_pattern(100)], vec![Action::OrganizationDeleteChannel]);
    let deny = resource_policy(2, Effect::Deny, vec![any_identity()], vec![Action::OrganizationDeleteChannel]);
    let repository = TestRepository::new(vec![allow], vec![deny.clone()]);
    let resolution = verify_access(
        &user_100_1(),
        &channel_100_1(),
        &[Action::OrganizationDeleteChannel],
        &repository,
    )
    .unwrap();
    assert_eq!(
        resolution,
        AccessResolution {
            effect: Effect::Deny,
            policy: ResolutionPolicy::Resource(deny)
        }
    );
}

#[test]
fn identity_deny_checked_before_resource_deny_and_allow() {
    let identity_deny = identity_policy(3, Effect::Deny, vec![account_pattern(100)], vec![Action::OrganizationDeleteChannel]);
    let resource_deny = resource_policy(4, Effect::Deny, vec![any_identity()], vec![Action::OrganizationDeleteChannel]);
    let resource_allow = resource_policy(5, Effect::Allow, vec![any_identity()], vec![Action::OrganizationDeleteChannel]);
    let resolution = resolve_access(
        &user_100_1(),
        &channel_100_1(),
        &[Action::OrganizationDeleteChannel],
        &[identity_deny.clone()],
        &[resource_allow.clone(), resource_deny],
    );
    assert_eq!(
        resolution,
        AccessResolution {
            effect: Effect::Deny,
            policy: ResolutionPolicy::Identity(identity_deny)
        }
    );
}

#[test]
fn identity_allow_checked_before_resource_allow() {
    let identity_allow = identity_policy(3, Effect::Allow, vec![account_pattern(100)], vec![Action::OrganizationDeleteChannel]);
    let resource_allow = resource_policy(5, Effect::Allow, vec![any_identity()], vec![Action::OrganizationDeleteChannel]);
    let resolution = resolve_access(
        &user_100_1(),
        &channel_100_1(),
        &[Action::OrganizationDeleteChannel],
        &[identity_allow.clone()],
        &[resource_allow],
    );
    assert_eq!(
        resolution,
        AccessResolution {
            effect: Effect::Allow,
            policy: ResolutionPolicy::Identity(identity_allow)
        }
    );
}

#[test]
fn first_matching_policy_in_order_resolves() {
    let skipped = identity_policy(1, Effect::Allow, vec![account_pattern(300)], vec![Action::OrganizationDeleteChannel]);
    let first = identity_policy(2, Effect::Allow, vec![account_pattern(300), account_pattern(100)], vec![Action::OrganizationDeleteChannel]);
    let second = identity_policy(3, Effect::Allow, vec![account_pattern(100)], vec![Action::OrganizationDeleteChannel]);
    let repository = TestRepository::new(vec![skipped, first.clone(), second], vec![]);
    let resolution = verify_access(
        &user_100_1(),
        &channel_100_1(),
        &[Action::OrganizationDeleteChannel],
        &repository,
    )
    .unwrap();
    assert_eq!(
        resolution,
        AccessResolution {
            effect: Effect::Allow,
            policy: ResolutionPolicy::Identity(first)
        }
    );
}

#[test]
fn empty_required_actions_need_only_a_pattern() {
    let allow = identity_policy(1, Effect::Allow, vec![account_pattern(100)], vec![]);
    let resolution: AccessResolution<ResourcePolicy, IdentityPolicy> =
        resolve_access(&user_100_1(), &channel_100_1(), &[], &[allow.clone()], &[]);
    assert_eq!(resolution.effect, Effect::Allow);
    assert_eq!(resolution.policy, ResolutionPolicy::Identity(allow));
}

#[test]
fn empty_pattern_list_never_matches() {
    let allow = identity_policy(1, Effect::Allow, vec![], vec![Action::OrganizationDeleteChannel]);
    let resolution: AccessResolution<ResourcePolicy, IdentityPolicy> = resolve_access(
        &user_100_1(),
        &channel_100_1(),
        &[Action::OrganizationDeleteChannel],
        &[allow],
        &[],
    );
    assert_eq!(resolution.effect, Effect::Deny);
    assert_eq!(resolution.policy, ResolutionPolicy::Unresolved);
}

#[test]
fn conditions_are_carried_not_evaluated() {
    let mut allow = identity_policy(1, Effect::Allow, vec![account_pattern(100)], vec![Action::OrganizationDeleteChannel]);
    allow.conditions = vec![
        Condition::IdentityMultiFactorAuthEnabled(true),
        Condition::ResourceMustHaveAttribute(ResourceAttribute::CreatedBy(5)),
    ];
    let resolution: AccessResolution<ResourcePolicy, IdentityPolicy> = resolve_access(
        &user_100_1(),
        &channel_100_1(),
        &[Action::OrganizationDeleteChannel],
        &[allow.clone()],
        &[],
    );
    assert_eq!(resolution.policy, ResolutionPolicy::Identity(allow));
}

#[test]
fn wildcard_resource_pattern_contains_every_path() {
    let wildcard = ResourcePath {
        account: None,
        context: None,
        resource_type: None,
        resource_id: None,
    };
    assert!(wildcard.match_contains(&channel_100_1()));
    assert!(wildcard.match_contains(&wildcard.clone()));
    assert!(channel_100_1().match_contains(&channel_100_1()));
    let other = ResourcePath {
        resource_id: Some(2),
        ..channel_100_1()
    };
    assert!(!channel_100_1().match_contains(&other));
    assert!(!channel_100_1().match_contains(&wildcard));
    assert!(account_pattern(100).match_contains(&other));
    assert!(!account_pattern(101).match_contains(&other));
}

#[test]
fn wildcard_identity_pattern_contains_every_path() {
    assert!(any_identity().match_contains(&user_100_1()));
    assert!(user_100_1().match_contains(&user_100_1()));
    let group = IdentityPath {
        identity_type: Some(IdentityType::Group),
        ..user_100_1()
    };
    assert!(!user_100_1().match_contains(&group));
    assert!(!user_100_1().match_contains(&any_identity()));
}

#[test]
fn field_containment() {
    assert!(match_contains::<u64>(None, None));
    assert!(match_contains(None, Some(&3u64)));
    assert!(!match_contains(Some(&3u64), None));
    assert!(match_contains(Some(&3u64), Some(&3u64)));
    assert!(!match_contains(Some(&3u64), Some(&4u64)));
    assert!(!match_contains(Some(&Context::IAM), Some(&Context::Organization)));
}

#[test]
fn deny_ranks_above_allow() {
    assert!(Effect::Deny > Effect::Allow);
}
