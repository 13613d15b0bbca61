//! What a user may do on the board.

use vstd::prelude::*;

verus! {

/// The role of a signed-in user.
#[derive(Debug, Clone, Copy, PartialEq, Eq, Structural)]
pub enum Role {
    /// An ordinary member: may change only what they wrote.
    User,
    /// An administrator: may change anything.
    Admin,
}

/// The role that an account's stored role name stands for: `admin` is an
/// administrator, any other name an ordinary member.
pub open spec fn role_named(name: Seq<char>) -> Role {
    if name == "admin"@ {
        Role::Admin
    } else {
        Role::User
    }
}

/// The role that the stored role name `name` stands for.
pub fn role_of(name: &str) -> (r: Role)
    ensures
        r == role_named(name@),
{
    let admin = "admin".to_owned();
    let given = name.to_owned();
    if given == admin {
        Role::Admin
    } else {
        Role::User
    }
}

} // verus!
