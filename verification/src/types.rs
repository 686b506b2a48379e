use vstd::prelude::*;

verus! {

/// The closed set of roles a session can be created for. The role is carried
/// as a token claim and is the subject used for permission lookup.
#[derive(Clone, Copy, Debug, PartialEq, Eq, Structural)]
pub enum Role {
    User,
    Spec,
}

pub type AccountID = i64;

/// The string form of a role, as it is written into a token's `role` claim.
pub open spec fn spec_role_str(role: Role) -> Seq<char> {
    match role {
        Role::User => "User"@,
        Role::Spec => "Spec"@,
    }
}

impl Role {
    pub fn as_str(&self) -> (r: &str)
        ensures
            r@ == spec_role_str(*self),
    {
        match self {
            Role::User => "User",
            Role::Spec => "Spec",
        }
    }
}

} // verus!
