//! The roles under which windows are remembered.

use crate::device::{IdentifierError, RoleKey};
use crate::text;
use crate::text::{bytes_precede, text_order_is_total, text_precedes};
use vstd::prelude::*;
use vstd::std_specs::cmp::PartialEqSpecImpl;
use vstd::utf8::encode_utf8;

verus! {

/// Spelling of the primary window's role.
pub open spec fn primary_role_name() -> Seq<char> {
    "window:primary"@
}

/// What the role of every managed window starts with.
pub open spec fn managed_role_prefix() -> Seq<char> {
    "window:managed:"@
}

/// The stable persistence role for the application's primary window.
pub fn primary_window_role() -> (result: Result<RoleKey, IdentifierError>)
    ensures
        result matches Ok(role) && role@ == primary_role_name(),
{
    proof {
        reveal_strlit("window:primary");
    }
    RoleKey::new("window:primary")
}

/// The stable persistence role for a managed window.
pub fn managed_window_role(name: &str) -> (result: Result<RoleKey, IdentifierError>)
    ensures
        result matches Ok(role) && role@ == managed_role_prefix() + name@,
{
    proof {
        reveal_strlit("window:managed:");
    }
    RoleKey::new(text::joined("window:managed:", name).as_str())
}

/// Keeps the primary window distinct from a managed window named `primary`.
#[derive(Debug)]
pub enum PersistedWindowRole {
    /// The application's primary window.
    Primary,
    /// A secondary managed window identified by its stable name.
    Managed(String),
}

/// A role that is neither the primary window's nor a managed window's.
#[derive(Clone, Copy, Debug, PartialEq, Eq, Structural)]
pub struct UnsupportedWindowRole;

/// The contents of a [`PersistedWindowRole`].
pub enum PersistedWindowRoleView {
    Primary,
    Managed(Seq<char>),
}

impl View for PersistedWindowRole {
    type V = PersistedWindowRoleView;

    open spec fn view(&self) -> PersistedWindowRoleView {
        match self {
            PersistedWindowRole::Primary => PersistedWindowRoleView::Primary,
            PersistedWindowRole::Managed(name) => PersistedWindowRoleView::Managed(name@),
        }
    }
}

impl PersistedWindowRoleView {
    /// The role key that this stands for.
    pub open spec fn role(self) -> Seq<char> {
        match self {
            PersistedWindowRoleView::Primary => primary_role_name(),
            PersistedWindowRoleView::Managed(name) => managed_role_prefix() + name,
        }
    }

    /// The primary window comes first; managed windows follow by name.
    pub open spec fn precedes(self, other: PersistedWindowRoleView) -> bool {
        match (self, other) {
            (PersistedWindowRoleView::Primary, PersistedWindowRoleView::Managed(_)) => true,
            (PersistedWindowRoleView::Managed(name), PersistedWindowRoleView::Managed(other_name)) =>
                text_precedes(name, other_name),
            _ => false,
        }
    }
}

/// What a role key stands for, unless it is neither the primary window's nor a managed window's.
pub open spec fn persisted_role(role: Seq<char>) -> Option<PersistedWindowRoleView> {
    if role == primary_role_name() {
        Some(PersistedWindowRoleView::Primary)
    } else if managed_role_prefix().is_prefix_of(role) {
        Some(PersistedWindowRoleView::Managed(role.skip(managed_role_prefix().len() as int)))
    } else {
        None
    }
}

impl PersistedWindowRole {
    /// What a role key stands for.
    pub fn try_from(role: &RoleKey) -> (result: Result<Self, UnsupportedWindowRole>)
        ensures
            match persisted_role(role@) {
                Some(view) => result matches Ok(persisted) && persisted@ == view,
                None => result is Err,
            },
    {
        let spelling: String = role.as_str().to_owned();
        if spelling == "window:primary".to_owned() {
            return Ok(PersistedWindowRole::Primary);
        }
        match text::without_prefix(role.as_str(), "window:managed:") {
            Some(name) => {
                proof {
                    let prefix = managed_role_prefix();
                    assert((prefix + name@).subrange(0, prefix.len() as int) =~= prefix);
                    assert((prefix + name@).skip(prefix.len() as int) =~= name@);
                }
                Ok(PersistedWindowRole::Managed(name))
            },
            None => Err(UnsupportedWindowRole),
        }
    }

    /// The role key that this stands for.
    pub fn role_key(&self) -> (result: Result<RoleKey, IdentifierError>)
        ensures
            result matches Ok(role) && role@ == self@.role(),
    {
        match self {
            PersistedWindowRole::Primary => primary_window_role(),
            PersistedWindowRole::Managed(name) => managed_window_role(name.as_str()),
        }
    }

    /// The role as text for a person.
    pub fn to_text(&self) -> (result: String)
        ensures
            result@ == match self@ {
                PersistedWindowRoleView::Primary => "primary"@,
                PersistedWindowRoleView::Managed(name) => name,
            },
    {
        match self {
            PersistedWindowRole::Primary => "primary".to_owned(),
            PersistedWindowRole::Managed(name) => name.clone(),
        }
    }

    /// Whether this role is written before `other`.
    pub fn precedes(&self, other: &PersistedWindowRole) -> (result: bool)
        ensures
            result == self@.precedes(other@),
    {
        match (self, other) {
            (PersistedWindowRole::Primary, PersistedWindowRole::Managed(_)) => true,
            (PersistedWindowRole::Managed(name), PersistedWindowRole::Managed(other_name)) =>
                text::precedes(name.as_str(), other_name.as_str()),
            _ => false,
        }
    }
}

impl Clone for PersistedWindowRole {
    fn clone(&self) -> (copy: Self)
        ensures
            copy == *self,
    {
        match self {
            PersistedWindowRole::Primary => PersistedWindowRole::Primary,
            PersistedWindowRole::Managed(name) => PersistedWindowRole::Managed(name.clone()),
        }
    }
}

impl PartialEq for PersistedWindowRole {
    fn eq(&self, other: &Self) -> (same: bool) {
        match (self, other) {
            (PersistedWindowRole::Primary, PersistedWindowRole::Primary) => true,
            (PersistedWindowRole::Managed(name), PersistedWindowRole::Managed(other_name)) => *name
                == *other_name,
            _ => false,
        }
    }
}

impl PartialEqSpecImpl for PersistedWindowRole {
    open spec fn obeys_eq_spec() -> bool {
        true
    }

    open spec fn eq_spec(&self, other: &Self) -> bool {
        self@ == other@
    }
}

impl Eq for PersistedWindowRole {

}

/// The two namespaces are kept apart: a role key and what it stands for determine each other, so
/// the primary window and a managed window called `primary` never share a record.
pub proof fn roles_and_their_keys_determine_each_other(
    role: Seq<char>,
    persisted: PersistedWindowRoleView,
)
    ensures
        persisted_role(persisted.role()) == Some(persisted),
        persisted_role(role) matches Some(view) ==> view.role() == role,
{
    reveal_strlit("window:primary");
    reveal_strlit("window:managed:");
    let prefix = managed_role_prefix();
    match persisted {
        PersistedWindowRoleView::Primary => {},
        PersistedWindowRoleView::Managed(name) => {
            assert((prefix + name)[7] == 'm');
            assert(primary_role_name()[7] == 'p');
            assert((prefix + name).subrange(0, prefix.len() as int) =~= prefix);
            assert((prefix + name).skip(prefix.len() as int) =~= name);
        },
    }
    if role != primary_role_name() && prefix.is_prefix_of(role) {
        assert(prefix + role.skip(prefix.len() as int) =~= role);
    }
}

/// The primary window's role is spelled `window:primary`, and that of a managed window is its name
/// behind `window:managed:`, so windows of different names have different roles.
pub proof fn roles_are_spelled_out(name: Seq<char>, other: Seq<char>)
    ensures
        PersistedWindowRoleView::Primary.role() == "window:primary"@,
        PersistedWindowRoleView::Managed(name).role() == "window:managed:"@ + name,
        PersistedWindowRoleView::Managed(name).role() != PersistedWindowRoleView::Primary.role(),
        name != other ==> PersistedWindowRoleView::Managed(name).role()
            != PersistedWindowRoleView::Managed(other).role(),
{
    let primary = PersistedWindowRoleView::Primary;
    let named = PersistedWindowRoleView::Managed(name);
    let another = PersistedWindowRoleView::Managed(other);
    roles_and_their_keys_determine_each_other(primary.role(), primary);
    roles_and_their_keys_determine_each_other(named.role(), named);
    roles_and_their_keys_determine_each_other(another.role(), another);
}

/// The primary window comes before every managed window, and nothing comes before it; of two managed
/// windows the one comes first whose name does.
pub proof fn the_primary_window_comes_first(
    role: PersistedWindowRoleView,
    name: Seq<char>,
    other: Seq<char>,
)
    ensures
        PersistedWindowRoleView::Primary.precedes(PersistedWindowRoleView::Managed(name)),
        !role.precedes(PersistedWindowRoleView::Primary),
        PersistedWindowRoleView::Managed(name).precedes(PersistedWindowRoleView::Managed(other))
            <==> bytes_precede(encode_utf8(name), encode_utf8(other)),
        !role.precedes(role),
{
    if let PersistedWindowRoleView::Managed(own) = role {
        text_order_is_total(own, own, own);
    }
}

} // verus!
