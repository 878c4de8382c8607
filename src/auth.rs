//! Operator roles and the rules that decide who may do what.
use crate::text::same_text;
use vstd::prelude::*;

verus! {

/// What an operator may do: an admin or an operator may submit jobs; anyone
/// signed in may read.
#[derive(Clone, Copy, Debug, PartialEq, Eq, Structural)]
pub enum Role {
    Admin,
    Operator,
    Viewer,
}

/// A signed-in operator.
#[derive(Clone, Debug)]
pub struct Session {
    pub username: String,
    pub role: Role,
}

/// Credentials offered to sign in.
#[derive(Clone, Debug)]
pub struct LoginRequest {
    pub username: String,
    pub password: String,
}

/// The answer to a successful sign-in: the session token and its role.
#[derive(Clone, Debug)]
pub struct LoginResponse {
    pub token: String,
    pub role: Role,
}

impl Role {
    pub open spec fn text(self) -> Seq<char> {
        match self {
            Role::Admin => "admin"@,
            Role::Operator => "operator"@,
            Role::Viewer => "viewer"@,
        }
    }

    /// The lower-case name of the role.
    pub fn as_str(&self) -> (r: &'static str)
        ensures
            r@ == self.text(),
    {
        match self {
            Role::Admin => "admin",
            Role::Operator => "operator",
            Role::Viewer => "viewer",
        }
    }
}

/// The demonstration accounts: each user name with its password and role.
pub open spec fn account_role(username: Seq<char>, password: Seq<char>) -> Option<Role> {
    if username == "admin"@ && password == "admin123"@ {
        Some(Role::Admin)
    } else if username == "operator"@ && password == "operator123"@ {
        Some(Role::Operator)
    } else if username == "viewer"@ && password == "viewer123"@ {
        Some(Role::Viewer)
    } else {
        None
    }
}

/// The role that the credentials sign in as, if they are valid.
pub fn role_for_credentials(username: &str, password: &str) -> (r: Option<Role>)
    ensures
        r == account_role(username@, password@),
{
    if same_text(username, "admin") && same_text(password, "admin123") {
        Some(Role::Admin)
    } else if same_text(username, "operator") && same_text(password, "operator123") {
        Some(Role::Operator)
    } else if same_text(username, "viewer") && same_text(password, "viewer123") {
        Some(Role::Viewer)
    } else {
        None
    }
}

/// `role` is one of `allowed`.
pub fn role_allowed(role: Role, allowed: &Vec<Role>) -> (r: bool)
    ensures
        r == allowed@.contains(role),
{
    let mut i: usize = 0;
    while i < allowed.len()
        invariant
            i <= allowed.len(),
            forall|j: int| 0 <= j < i ==> allowed@[j] != role,
        decreases allowed.len() - i,
    {
        if allowed[i] == role {
            return true;
        }
        i = i + 1;
    }
    false
}

/// `role` may submit scan jobs.
pub open spec fn may_submit(role: Role) -> bool {
    role == Role::Admin || role == Role::Operator
}

/// The token of an `Authorization` header value of the form `Bearer <token>`.
pub fn bearer_token(header: &str) -> (r: Option<String>)
    ensures
        r matches Some(t) <==> header@.len() >= 7 && header@.take(7) == "Bearer "@,
        r matches Some(t) ==> t@ == header@.skip(7),
{
    let prefix = "Bearer ";
    proof {
        reveal_strlit("Bearer ");
    }
    let n = header.unicode_len();
    if n < 7 {
        return None;
    }
    let head = header.substring_char(0, 7);
    if !same_text(head, prefix) {
        return None;
    }
    let rest = header.substring_char(7, n);
    assert(rest@ =~= header@.skip(7));
    Some(rest.to_string())
}

} // verus!
