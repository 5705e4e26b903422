//! Roles of Plantbuddy users and their numeric codes on the server.

use vstd::prelude::*;

verus! {

/// The role of a user in the Plantbuddy application.
#[derive(Debug, Clone, Copy, PartialEq, Eq, Structural)]
pub enum PlantBuddyRole {
    Admin,
    User,
    NotLoggedIn,
}

/// The numeric code of a role on the server.
pub open spec fn role_code(role: PlantBuddyRole) -> u64 {
    match role {
        PlantBuddyRole::Admin => 0,
        PlantBuddyRole::User => 1,
        PlantBuddyRole::NotLoggedIn => 2,
    }
}

/// The role with the numeric code `value`, if there is one.
pub open spec fn role_of_code(value: u64) -> Option<PlantBuddyRole> {
    if value == 0 {
        Some(PlantBuddyRole::Admin)
    } else if value == 1 {
        Some(PlantBuddyRole::User)
    } else if value == 2 {
        Some(PlantBuddyRole::NotLoggedIn)
    } else {
        None
    }
}

/// The text shown for a role.
pub open spec fn role_text(role: PlantBuddyRole) -> Seq<char> {
    match role {
        PlantBuddyRole::Admin => "Admin"@,
        PlantBuddyRole::User => "User"@,
        PlantBuddyRole::NotLoggedIn => "LoginFailed"@,
    }
}

impl Default for PlantBuddyRole {
    fn default() -> (r: Self)
        ensures
            r == PlantBuddyRole::NotLoggedIn,
    {
        PlantBuddyRole::NotLoggedIn
    }
}

impl From<PlantBuddyRole> for u64 {
    fn from(role: PlantBuddyRole) -> (r: u64) {
        match role {
            PlantBuddyRole::Admin => 0,
            PlantBuddyRole::User => 1,
            PlantBuddyRole::NotLoggedIn => 2,
        }
    }
}

impl vstd::std_specs::convert::FromSpecImpl<PlantBuddyRole> for u64 {
    open spec fn obeys_from_spec() -> bool {
        true
    }

    open spec fn from_spec(role: PlantBuddyRole) -> u64 {
        role_code(role)
    }
}

impl TryFrom<u64> for PlantBuddyRole {
    type Error = &'static str;

    fn try_from(value: u64) -> (r: Result<Self, Self::Error>) {
        match value {
            0 => Ok(PlantBuddyRole::Admin),
            1 => Ok(PlantBuddyRole::User),
            2 => Ok(PlantBuddyRole::NotLoggedIn),
            _ => Err("Invalid role"),
        }
    }
}

impl vstd::std_specs::convert::TryFromSpecImpl<u64> for PlantBuddyRole {
    open spec fn obeys_try_from_spec() -> bool {
        true
    }

    open spec fn try_from_spec(value: u64) -> Result<Self, Self::Error> {
        match role_of_code(value) {
            Some(r) => Ok(r),
            None => Err("Invalid role"),
        }
    }
}

impl PlantBuddyRole {
    /// The numeric code of this role on the server.
    pub fn code(self) -> (r: u64)
        ensures
            r == role_code(self),
    {
        u64::from(self)
    }

    /// The role with the numeric code `value`; `None` for a code no role has.
    pub fn from_code(value: u64) -> (r: Option<PlantBuddyRole>)
        ensures
            r == role_of_code(value),
    {
        match PlantBuddyRole::try_from(value) {
            Ok(role) => Some(role),
            Err(_) => None,
        }
    }

    /// The text shown for this role.
    pub fn to_display_string(&self) -> (s: String)
        ensures
            s@ == role_text(*self),
    {
        match self {
            PlantBuddyRole::Admin => String::from_str("Admin"),
            PlantBuddyRole::User => String::from_str("User"),
            PlantBuddyRole::NotLoggedIn => String::from_str("LoginFailed"),
        }
    }
}

/// Every role survives the trip to its code and back.
pub proof fn lemma_role_code_round_trip(role: PlantBuddyRole)
    ensures
        role_of_code(role_code(role)) == Some(role),
{
}

/// A code names a role exactly when it is at most 2, and that role's code is
/// the code itself.
pub proof fn lemma_code_role_round_trip(value: u64)
    ensures
        role_of_code(value) is Some <==> value <= 2,
        role_of_code(value) matches Some(r) ==> role_code(r) == value,
{
}

/// Different roles have different codes.
pub proof fn lemma_role_code_injective(a: PlantBuddyRole, b: PlantBuddyRole)
    ensures
        role_code(a) == role_code(b) ==> a == b,
{
}

} // verus!
