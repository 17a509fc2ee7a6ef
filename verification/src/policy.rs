//! The policy engine: a rule-based evaluator over (subject, action,
//! resource) triples.
//!
//! A rule set is an immutable value, loaded once and evaluated read-only.
//! A decision is "allowed" exactly when some rule in the set matches the
//! triple; absence of a matching rule is denial, never implicit
//! permission. Field-level questions are answered independently per
//! field, by probing each candidate field name against the same rule set.

use crate::actions::{Action, UpdateUser};
use crate::fields::{FieldName, FieldSet};
use crate::role::UserRole;
use crate::user::{Subject, UserRecord};
use vstd::prelude::*;

verus! {

/// Which subjects a rule applies to, evaluated against the resource the
/// action targets.
#[derive(Clone, Copy, Debug, PartialEq, Eq, Structural)]
pub enum SubjectMatch {
    /// Any caller, the guest sentinel included.
    Anyone,
    /// Any authenticated user.
    AnyKnown,
    /// An authenticated user holding this role.
    HasRole(UserRole),
    /// An authenticated user whose id is the target resource's id: the
    /// profile owner.
    SelfUser,
}

/// Which role values a role-assignment rule covers.
#[derive(Clone, Copy, Debug, PartialEq, Eq, Structural)]
pub enum RoleMatch {
    AnyRole,
    Exactly(UserRole),
}

/// Which field names a field-level rule covers.
#[derive(Clone, Copy, Debug, PartialEq, Eq, Structural)]
pub enum FieldMatch {
    AnyField,
    Exactly(FieldName),
}

/// Which actions a rule permits.
#[derive(Clone, Copy, Debug, PartialEq, Eq, Structural)]
pub enum ActionMatch {
    /// Reading the resource as a whole.
    Read,
    /// Deleting the resource.
    Delete,
    /// Reading the covered fields of the resource.
    ReadField(FieldMatch),
    /// Changing the covered fields of the resource.
    UpdateField(FieldMatch),
    /// Assigning the covered role values to the resource. Distinct from
    /// a field update: permission to edit a profile's other fields never
    /// implies permission to change its role.
    AssignRole(RoleMatch),
}

/// One rule: the subjects it applies to and the action it permits them.
#[derive(Clone, Copy, Debug, PartialEq, Eq, Structural)]
pub struct Rule {
    pub subject: SubjectMatch,
    pub action: ActionMatch,
}

/// Whether `m` covers the caller `s` acting on `resource`.
pub open spec fn subject_matches(m: SubjectMatch, s: Subject, resource: UserRecord) -> bool {
    match m {
        SubjectMatch::Anyone => true,
        SubjectMatch::AnyKnown => s is KnownUser,
        SubjectMatch::HasRole(role) => s matches Subject::KnownUser(u) && u.role == role,
        SubjectMatch::SelfUser => s matches Subject::KnownUser(u) && u.id == resource.id,
    }
}

/// Whether `m` covers the requested action `a`.
pub open spec fn action_matches(m: ActionMatch, a: Action) -> bool {
    match (m, a) {
        (ActionMatch::Read, Action::Read) => true,
        (ActionMatch::Delete, Action::Delete) => true,
        (ActionMatch::ReadField(fm), Action::ReadField(f)) => field_match_covers(fm, f),
        (ActionMatch::UpdateField(fm), Action::UpdateField(f)) => field_match_covers(fm, f),
        (ActionMatch::AssignRole(rm), Action::AssignRole(r)) => role_match_covers(rm, r),
        _ => false,
    }
}

/// Whether `fm` covers the field name `f`.
pub open spec fn field_match_covers(fm: FieldMatch, f: FieldName) -> bool {
    match fm {
        FieldMatch::AnyField => true,
        FieldMatch::Exactly(g) => g == f,
    }
}

/// Whether `rm` covers the role value `r`.
pub open spec fn role_match_covers(rm: RoleMatch, r: UserRole) -> bool {
    match rm {
        RoleMatch::AnyRole => true,
        RoleMatch::Exactly(x) => x == r,
    }
}

/// Whether one rule matches the whole triple.
pub open spec fn rule_matches(rule: Rule, s: Subject, a: Action, resource: UserRecord) -> bool {
    subject_matches(rule.subject, s, resource) && action_matches(rule.action, a)
}

/// Whether some rule in `rules` matches the triple: the decision the
/// engine computes. No matching rule means denial.
pub open spec fn rule_set_allows(
    rules: Seq<Rule>,
    s: Subject,
    a: Action,
    resource: UserRecord,
) -> bool {
    exists|i: int| 0 <= i < rules.len() && rule_matches(#[trigger] rules[i], s, a, resource)
}

/// The two field-level questions: which fields a subject may see, and
/// which it may change.
#[derive(Clone, Copy, Debug, PartialEq, Eq, Structural)]
pub enum FieldAccess {
    Read,
    Update,
}

/// The per-field action probed for `f` under the access kind `k`.
pub open spec fn field_action(k: FieldAccess, f: FieldName) -> Action {
    match k {
        FieldAccess::Read => Action::ReadField(f),
        FieldAccess::Update => Action::UpdateField(f),
    }
}

/// The visibility set the engine computes: field by field, independently,
/// each name is in the set exactly when a rule permits its field action.
pub open spec fn authorized_fields_spec(
    rules: Seq<Rule>,
    s: Subject,
    k: FieldAccess,
    resource: UserRecord,
) -> FieldSet {
    FieldSet {
        id: rule_set_allows(rules, s, field_action(k, FieldName::Id), resource),
        created_at: rule_set_allows(rules, s, field_action(k, FieldName::CreatedAt), resource),
        updated_at: rule_set_allows(rules, s, field_action(k, FieldName::UpdatedAt), resource),
        name: rule_set_allows(rules, s, field_action(k, FieldName::Name), resource),
        email: rule_set_allows(rules, s, field_action(k, FieldName::Email), resource),
        role: rule_set_allows(rules, s, field_action(k, FieldName::Role), resource),
    }
}

/// Whether a proposed update is permitted: every change the changeset
/// carries must be permitted individually. Name and email changes are
/// field updates; a role change is gated by the dedicated role-assignment
/// check for the proposed role value.
pub open spec fn update_permitted_spec(
    rules: Seq<Rule>,
    s: Subject,
    changeset: UpdateUser,
    resource: UserRecord,
) -> bool {
    &&& changeset.name is Some ==> rule_set_allows(
        rules,
        s,
        Action::UpdateField(FieldName::Name),
        resource,
    )
    &&& changeset.email is Some ==> rule_set_allows(
        rules,
        s,
        Action::UpdateField(FieldName::Email),
        resource,
    )
    &&& changeset.role matches Some(r) ==> rule_set_allows(
        rules,
        s,
        Action::AssignRole(r),
        resource,
    )
}

/// An immutable rule set, loaded once at startup and evaluated read-only
/// thereafter.
#[derive(Debug)]
pub struct RuleSet {
    rules: Vec<Rule>,
}

impl RuleSet {
    /// The rules the set was loaded with.
    pub closed spec fn rules_seq(self) -> Seq<Rule> {
        self.rules@
    }

    /// Load a rule set.
    pub fn new(rules: Vec<Rule>) -> (r: RuleSet)
        ensures
            r.rules_seq() == rules@,
    {
        RuleSet { rules }
    }

    /// The empty rule set: it denies every request.
    pub fn empty() -> (r: RuleSet)
        ensures
            r.rules_seq() == Seq::<Rule>::empty(),
    {
        RuleSet { rules: Vec::new() }
    }

    /// Decide whether `s` may perform `a` on `resource`: true exactly
    /// when some rule in the set matches the triple.
    pub fn is_allowed(&self, s: &Subject, a: Action, resource: &UserRecord) -> (r: bool)
        ensures
            r == rule_set_allows(self.rules_seq(), *s, a, *resource),
    {
        let n = self.rules.len();
        let mut i: usize = 0;
        while i < n
            invariant
                n == self.rules@.len(),
                0 <= i <= n,
                forall|j: int| 0 <= j < i ==> !rule_matches(#[trigger] self.rules@[j], *s, a, *resource),
            decreases n - i,
        {
            if rule_applies(&self.rules[i], s, a, resource) {
                return true;
            }
            i += 1;
        }
        false
    }

    /// Compute the set of field names `s` may access under `k` on
    /// `resource`, probing each candidate field independently against the
    /// rule set.
    pub fn authorized_fields(&self, s: &Subject, k: FieldAccess, resource: &UserRecord) -> (r:
        FieldSet)
        ensures
            r == authorized_fields_spec(self.rules_seq(), *s, k, *resource),
    {
        FieldSet {
            id: self.is_allowed(s, probe(k, FieldName::Id), resource),
            created_at: self.is_allowed(s, probe(k, FieldName::CreatedAt), resource),
            updated_at: self.is_allowed(s, probe(k, FieldName::UpdatedAt), resource),
            name: self.is_allowed(s, probe(k, FieldName::Name), resource),
            email: self.is_allowed(s, probe(k, FieldName::Email), resource),
            role: self.is_allowed(s, probe(k, FieldName::Role), resource),
        }
    }

    /// Decide whether the proposed update `changeset` is permitted for
    /// `s` on `resource`: every requested change must be permitted
    /// individually, and a role change only through the dedicated
    /// role-assignment check.
    pub fn update_permitted(&self, s: &Subject, changeset: &UpdateUser, resource: &UserRecord) -> (r:
        bool)
        ensures
            r == update_permitted_spec(self.rules_seq(), *s, *changeset, *resource),
    {
        let name_ok = match &changeset.name {
            Some(_) => self.is_allowed(s, Action::UpdateField(FieldName::Name), resource),
            None => true,
        };
        let email_ok = match &changeset.email {
            Some(_) => self.is_allowed(s, Action::UpdateField(FieldName::Email), resource),
            None => true,
        };
        let role_ok = match &changeset.role {
            Some(r) => self.is_allowed(s, Action::AssignRole(*r), resource),
            None => true,
        };
        name_ok && email_ok && role_ok
    }
}

/// The executable mirror of [`field_action`].
fn probe(k: FieldAccess, f: FieldName) -> (a: Action)
    ensures
        a == field_action(k, f),
{
    match k {
        FieldAccess::Read => Action::ReadField(f),
        FieldAccess::Update => Action::UpdateField(f),
    }
}

/// Whether one rule matches the triple.
fn rule_applies(rule: &Rule, s: &Subject, a: Action, resource: &UserRecord) -> (r: bool)
    ensures
        r == rule_matches(*rule, *s, a, *resource),
{
    let subject_ok = match rule.subject {
        SubjectMatch::Anyone => true,
        SubjectMatch::AnyKnown => matches!(s, Subject::KnownUser(_)),
        SubjectMatch::HasRole(role) => match s {
            Subject::KnownUser(u) => u.role == role,
            Subject::Guest => false,
        },
        SubjectMatch::SelfUser => match s {
            Subject::KnownUser(u) => u.id == resource.id,
            Subject::Guest => false,
        },
    };
    if !subject_ok {
        return false;
    }
    match (rule.action, a) {
        (ActionMatch::Read, Action::Read) => true,
        (ActionMatch::Delete, Action::Delete) => true,
        (ActionMatch::ReadField(fm), Action::ReadField(f)) => field_covers(fm, f),
        (ActionMatch::UpdateField(fm), Action::UpdateField(f)) => field_covers(fm, f),
        (ActionMatch::AssignRole(rm), Action::AssignRole(r)) => role_covers(rm, r),
        _ => false,
    }
}

/// The executable mirror of [`field_match_covers`].
fn field_covers(fm: FieldMatch, f: FieldName) -> (r: bool)
    ensures
        r == field_match_covers(fm, f),
{
    match fm {
        FieldMatch::AnyField => true,
        FieldMatch::Exactly(g) => g == f,
    }
}

/// The executable mirror of [`role_match_covers`].
fn role_covers(rm: RoleMatch, r: UserRole) -> (res: bool)
    ensures
        res == role_match_covers(rm, r),
{
    match rm {
        RoleMatch::AnyRole => true,
        RoleMatch::Exactly(x) => x == r,
    }
}

/// Per-field independence: a field name is in the computed visibility
/// set exactly when the rule set allows that field's own probe action —
/// each field is decided on its own, never granted by a neighbour.
pub proof fn lemma_per_field_probe(
    rules: Seq<Rule>,
    s: Subject,
    k: FieldAccess,
    resource: UserRecord,
    f: FieldName,
)
    ensures
        authorized_fields_spec(rules, s, k, resource).contains(f) == rule_set_allows(
            rules,
            s,
            field_action(k, f),
            resource,
        ),
{
}

/// Default-deny: when no rule in the set matches the triple, the decision
/// is negative.
pub proof fn lemma_default_deny(rules: Seq<Rule>, s: Subject, a: Action, resource: UserRecord)
    requires
        forall|i: int| 0 <= i < rules.len() ==> !rule_matches(#[trigger] rules[i], s, a, resource),
    ensures
        !rule_set_allows(rules, s, a, resource),
{
}

/// Default-deny for field-level questions: when no rule matches any
/// per-field action, the computed visibility set is empty. In particular
/// the empty rule set denies every action and grants no field.
pub proof fn lemma_default_deny_fields(
    rules: Seq<Rule>,
    s: Subject,
    k: FieldAccess,
    resource: UserRecord,
)
    requires
        forall|i: int, f: FieldName|
            0 <= i < rules.len() ==> !#[trigger] rule_matches(
                rules[i],
                s,
                field_action(k, f),
                resource,
            ),
    ensures
        authorized_fields_spec(rules, s, k, resource) == FieldSet::empty_spec(),
{
}

} // verus!
