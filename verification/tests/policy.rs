//! Policy engine decisions: default-deny, field probing, the
//! role-assignment gate, and the projector round-trip.

use mixini::actions::{Action, Delete, Read, UpdateUser};
use mixini::credential::Credential;
use mixini::fields::{FieldName, FieldSet};
use mixini::policy::{
    ActionMatch, FieldAccess, FieldMatch, RoleMatch, Rule, RuleSet, SubjectMatch,
};
use mixini::project::project;
use mixini::role::UserRole;
use mixini::user::{Subject, UserInfo, UserRecord};

fn profile(id: u64) -> UserRecord {
    UserRecord {
        id,
        created_at: 11,
        updated_at: 22,
        name: String::from("alice"),
        email: String::from("alice@example.com"),
        role: UserRole::Member,
        password: Credential { hash: String::from("$argon2$"), scheme_version: 1 },
        verified: true,
    }
}

fn known(id: u64, role: UserRole) -> Subject {
    Subject::KnownUser(UserInfo { id, name: String::from("caller"), role, verified: true })
}

#[test]
fn default_deny_with_no_rules() {
    let rules = RuleSet::empty();
    let target = profile(1);
    let subject = known(1, UserRole::Admin);
    assert!(!rules.is_allowed(&subject, Read.as_action(), &target));
    assert!(!rules.is_allowed(&subject, Delete.as_action(), &target));
    assert!(!rules.is_allowed(&subject, Action::AssignRole(UserRole::Admin), &target));
    let fields = rules.authorized_fields(&subject, FieldAccess::Read, &target);
    assert_eq!(fields, FieldSet::empty());
}

#[test]
fn unmatched_action_is_denied_even_with_rules() {
    let rules = RuleSet::new(vec![
        Rule { subject: SubjectMatch::Anyone, action: ActionMatch::Read },
    ]);
    let target = profile(1);
    let subject = known(2, UserRole::Member);
    assert!(rules.is_allowed(&subject, Action::Read, &target));
    assert!(!rules.is_allowed(&subject, Action::Delete, &target));
    assert_eq!(
        rules.authorized_fields(&subject, FieldAccess::Update, &target),
        FieldSet::empty()
    );
}

#[test]
fn self_view_gets_email_guest_does_not() {
    // the profile owner may read the email field; anyone may read the name
    let rules = RuleSet::new(vec![
        Rule {
            subject: SubjectMatch::SelfUser,
            action: ActionMatch::ReadField(FieldMatch::Exactly(FieldName::Email)),
        },
        Rule {
            subject: SubjectMatch::Anyone,
            action: ActionMatch::ReadField(FieldMatch::Exactly(FieldName::Name)),
        },
    ]);
    let target = profile(7);
    let owner = known(7, UserRole::Member);
    let owner_fields = rules.authorized_fields(&owner, FieldAccess::Read, &target);
    assert!(owner_fields.email);
    assert!(owner_fields.name);

    let guest_fields = rules.authorized_fields(&Subject::Guest, FieldAccess::Read, &target);
    assert!(!guest_fields.email);
    assert!(guest_fields.name);

    let other = known(8, UserRole::Member);
    let other_fields = rules.authorized_fields(&other, FieldAccess::Read, &target);
    assert!(!other_fields.email);
}

#[test]
fn role_escalation_is_blocked_without_the_dedicated_rule() {
    // any known user may edit names; nobody may assign roles
    let rules = RuleSet::new(vec![
        Rule {
            subject: SubjectMatch::AnyKnown,
            action: ActionMatch::UpdateField(FieldMatch::Exactly(FieldName::Name)),
        },
    ]);
    let target = profile(7);
    let editor = known(8, UserRole::Member);

    // the role-assignment action itself is denied
    assert!(!rules.is_allowed(&editor, Action::AssignRole(UserRole::Admin), &target));

    // a changeset that only renames is permitted
    let rename = UpdateUser { name: Some(String::from("bob")), email: None, role: None };
    assert!(rules.update_permitted(&editor, &rename, &target));

    // the same changeset with a role escalation attached is rejected whole
    let escalate = UpdateUser {
        name: Some(String::from("bob")),
        email: None,
        role: Some(UserRole::Admin),
    };
    assert!(!rules.update_permitted(&editor, &escalate, &target));
}

#[test]
fn role_assignment_rule_covers_only_its_role() {
    let rules = RuleSet::new(vec![
        Rule {
            subject: SubjectMatch::HasRole(UserRole::Admin),
            action: ActionMatch::AssignRole(RoleMatch::Exactly(UserRole::Moderator)),
        },
    ]);
    let target = profile(7);
    let admin = known(1, UserRole::Admin);
    assert!(rules.is_allowed(&admin, Action::AssignRole(UserRole::Moderator), &target));
    assert!(!rules.is_allowed(&admin, Action::AssignRole(UserRole::Admin), &target));
    let member = known(2, UserRole::Member);
    assert!(!rules.is_allowed(&member, Action::AssignRole(UserRole::Moderator), &target));
}

#[test]
fn any_field_rule_grants_every_field() {
    let rules = RuleSet::new(vec![
        Rule {
            subject: SubjectMatch::HasRole(UserRole::Admin),
            action: ActionMatch::ReadField(FieldMatch::AnyField),
        },
    ]);
    let target = profile(7);
    let admin = known(1, UserRole::Admin);
    let fields = rules.authorized_fields(&admin, FieldAccess::Read, &target);
    assert_eq!(fields, FieldSet::all());
}

#[test]
fn projection_round_trip() {
    let target = profile(7);
    let full = project(&target, &FieldSet::all());
    assert_eq!(full.id, Some(7));
    assert_eq!(full.created_at, Some(11));
    assert_eq!(full.updated_at, Some(22));
    assert_eq!(full.name.as_deref(), Some("alice"));
    assert_eq!(full.email.as_deref(), Some("alice@example.com"));
    assert!(matches!(full.role, Some(UserRole::Member)));

    let none = project(&target, &FieldSet::empty());
    assert_eq!(none.id, None);
    assert_eq!(none.created_at, None);
    assert_eq!(none.updated_at, None);
    assert_eq!(none.name, None);
    assert_eq!(none.email, None);
    assert_eq!(none.role, None);
}

#[test]
fn projection_keeps_exactly_the_named_fields() {
    let target = profile(7);
    let visible = FieldSet {
        id: true,
        created_at: false,
        updated_at: false,
        name: true,
        email: false,
        role: false,
    };
    let view = project(&target, &visible);
    assert_eq!(view.id, Some(7));
    assert_eq!(view.name.as_deref(), Some("alice"));
    assert_eq!(view.email, None);
    assert_eq!(view.role, None);
}

#[test]
fn role_names_render_lowercase() {
    assert_eq!(UserRole::Admin.name(), "admin");
    assert_eq!(UserRole::Moderator.name(), "moderator");
    assert_eq!(UserRole::Member.name(), "member");
}
