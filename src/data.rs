use crate::common::{Effect, IdentityPolicySolver, MatchContains, ResourcePolicySolver};
use vstd::prelude::*;
use vstd::std_specs::cmp::PartialEqSpec;

verus! {

pub type ID = u64;

/// Kinds of resource.
#[derive(Debug, Clone, Eq)]
pub enum Resource {
    IAMUser,
    IAMPolicy,
    OrganizationNamespace,
    OrganizationChannel,
}

impl PartialEq for Resource {
    fn eq(&self, other: &Resource) -> (r: bool) {
        match (self, other) {
            (Resource::IAMUser, Resource::IAMUser) => true,
            (Resource::IAMPolicy, Resource::IAMPolicy) => true,
            (Resource::OrganizationNamespace, Resource::OrganizationNamespace) => true,
            (Resource::OrganizationChannel, Resource::OrganizationChannel) => true,
            _ => false,
        }
    }
}

impl vstd::std_specs::cmp::PartialEqSpecImpl for Resource {
    open spec fn obeys_eq_spec() -> bool {
        true
    }

    open spec fn eq_spec(&self, other: &Resource) -> bool {
        *self == *other
    }
}

/// A condition a policy may carry; policies hold them as data only.
#[derive(Debug, Clone, PartialEq, Eq)]
pub enum Condition {
    IdentityMultiFactorAuthEnabled(bool),
    ResourceMustHaveAttribute(ResourceAttribute),
}

#[derive(Debug, Clone, PartialEq, Eq)]
pub enum ResourceAttribute {
    CreatedBy(ID),
}

#[derive(Debug, Clone, Eq)]
pub enum Context {
    IAM,
    Organization,
}

impl PartialEq for Context {
    fn eq(&self, other: &Context) -> (r: bool) {
        match (self, other) {
            (Context::IAM, Context::IAM) => true,
            (Context::Organization, Context::Organization) => true,
            _ => false,
        }
    }
}

impl vstd::std_specs::cmp::PartialEqSpecImpl for Context {
    open spec fn obeys_eq_spec() -> bool {
        true
    }

    open spec fn eq_spec(&self, other: &Context) -> bool {
        *self == *other
    }
}

#[derive(Debug, Clone, Eq)]
pub enum IdentityType {
    User,
    Group,
    Service,
}

impl PartialEq for IdentityType {
    fn eq(&self, other: &IdentityType) -> (r: bool) {
        match (self, other) {
            (IdentityType::User, IdentityType::User) => true,
            (IdentityType::Group, IdentityType::Group) => true,
            (IdentityType::Service, IdentityType::Service) => true,
            _ => false,
        }
    }
}

impl vstd::std_specs::cmp::PartialEqSpecImpl for IdentityType {
    open spec fn obeys_eq_spec() -> bool {
        true
    }

    open spec fn eq_spec(&self, other: &IdentityType) -> bool {
        *self == *other
    }
}

/// Actions an identity may request on a resource.
#[derive(Debug, Clone, Eq)]
pub enum Action {
    IAMCreateUser,
    IAMReadUser,
    IAMUpdateUser,
    IAMAttachUserPolice,
    IAMDeleteUser,
    OrganizationCreateNamespace,
    OrganizationDeleteNamespace,
    OrganizationCreateChannel,
    OrganizationDeleteChannel,
}

impl PartialEq for Action {
    fn eq(&self, other: &Action) -> (r: bool) {
        match (self, other) {
            (Action::IAMCreateUser, Action::IAMCreateUser) => true,
            (Action::IAMReadUser, Action::IAMReadUser) => true,
            (Action::IAMUpdateUser, Action::IAMUpdateUser) => true,
            (Action::IAMAttachUserPolice, Action::IAMAttachUserPolice) => true,
            (Action::IAMDeleteUser, Action::IAMDeleteUser) => true,
            (Action::OrganizationCreateNamespace, Action::OrganizationCreateNamespace) => true,
            (Action::OrganizationDeleteNamespace, Action::OrganizationDeleteNamespace) => true,
            (Action::OrganizationCreateChannel, Action::OrganizationCreateChannel) => true,
            (Action::OrganizationDeleteChannel, Action::OrganizationDeleteChannel) => true,
            _ => false,
        }
    }
}

impl vstd::std_specs::cmp::PartialEqSpecImpl for Action {
    open spec fn obeys_eq_spec() -> bool {
        true
    }

    open spec fn eq_spec(&self, other: &Action) -> bool {
        *self == *other
    }
}

/// A pattern field contains a value field: unset in the pattern matches any
/// value, set requires equality.
pub open spec fn field_contains<T>(matching: Option<T>, matched: Option<T>) -> bool {
    match matching {
        None => true,
        Some(m) => matched == Some(m),
    }
}

/// Field-wise containment of one optional value in another.
pub fn match_contains<T: PartialEq + Eq>(matching: Option<&T>, matched: Option<&T>) -> (r: bool)
    requires
        T::obeys_eq_spec(),
        forall|x: T, y: T| x.eq_spec(&y) <==> x == y,
    ensures
        r == field_contains(matching, matched),
{
    match (&matching, &matched) {
        (None, _) => true,
        (Some(_), None) => false,
        (Some(mting), Some(mted)) => mting.eq(mted),
    }
}

/// Resource path.
///
/// company:<account>:<context>:<resource-type>:<resource-id>
#[derive(Debug, Clone, PartialEq, Eq)]
pub struct ResourcePath {
    pub account: Option<ID>,
    pub context: Option<Context>,
    pub resource_type: Option<Resource>,
    pub resource_id: Option<ID>,
}

impl MatchContains for ResourcePath {
    open spec fn spec_match_contains(&self, other: &Self) -> bool {
        &&& field_contains(self.account, other.account)
        &&& field_contains(self.context, other.context)
        &&& field_contains(self.resource_type, other.resource_type)
        &&& field_contains(self.resource_id, other.resource_id)
    }

    fn match_contains(&self, other: &Self) -> (r: bool) {
        match_contains(self.account.as_ref(), other.account.as_ref())
            && match_contains(self.context.as_ref(), other.context.as_ref())
            && match_contains(self.resource_type.as_ref(), other.resource_type.as_ref())
            && match_contains(self.resource_id.as_ref(), other.resource_id.as_ref())
    }
}

/// Identity path.
///
/// company:<account>:<identity-type>:<identity-id>
#[derive(Debug, Clone, PartialEq, Eq)]
pub struct IdentityPath {
    pub account: Option<ID>,
    pub identity_type: Option<IdentityType>,
    pub identity_id: Option<ID>,
}

impl MatchContains for IdentityPath {
    open spec fn spec_match_contains(&self, other: &Self) -> bool {
        &&& field_contains(self.account, other.account)
        &&& field_contains(self.identity_type, other.identity_type)
        &&& field_contains(self.identity_id, other.identity_id)
    }

    fn match_contains(&self, other: &Self) -> (r: bool) {
        match_contains(self.account.as_ref(), other.account.as_ref())
            && match_contains(self.identity_type.as_ref(), other.identity_type.as_ref())
            && match_contains(self.identity_id.as_ref(), other.identity_id.as_ref())
    }
}

/// A policy attached to an identity.
#[derive(Debug, Clone, PartialEq, Eq)]
pub struct IdentityPolicy {
    pub id: u128,
    pub effect: Effect,
    pub resources: Vec<ResourcePath>,
    pub actions: Vec<Action>,
    pub conditions: Vec<Condition>,
}

impl IdentityPolicySolver for IdentityPolicy {
    type Resource = ResourcePath;
    type Action = Action;

    open spec fn spec_effect(&self) -> Effect {
        self.effect
    }

    open spec fn spec_actions(&self) -> Seq<Action> {
        self.actions@
    }

    open spec fn spec_resources(&self) -> Seq<ResourcePath> {
        self.resources@
    }

    fn effect(&self) -> (r: Effect) {
        self.effect
    }

    fn actions(&self) -> (r: &[Action]) {
        self.actions.as_slice()
    }

    fn resources(&self) -> (r: &[ResourcePath]) {
        self.resources.as_slice()
    }
}

/// A policy attached to a resource.
#[derive(Debug, Clone, PartialEq, Eq)]
pub struct ResourcePolicy {
    pub id: u128,
    pub effect: Effect,
    pub identities: Vec<IdentityPath>,
    pub actions: Vec<Action>,
    pub conditions: Vec<Condition>,
}

impl ResourcePolicySolver for ResourcePolicy {
    type Identity = IdentityPath;
    type Action = Action;

    open spec fn spec_effect(&self) -> Effect {
        self.effect
    }

    open spec fn spec_actions(&self) -> Seq<Action> {
        self.actions@
    }

    open spec fn spec_identities(&self) -> Seq<IdentityPath> {
        self.identities@
    }

    fn effect(&self) -> (r: Effect) {
        self.effect
    }

    fn identities(&self) -> (r: &[IdentityPath]) {
        self.identities.as_slice()
    }

    fn actions(&self) -> (r: &[Action]) {
        self.actions.as_slice()
    }
}

} // verus!
