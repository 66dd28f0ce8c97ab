use vstd::prelude::*;

use crate::text::text_is;

verus! {

/// Privilege levels, ordered `User < Bot < Maintainer < Admin`.
#[derive(Clone, Copy, Debug, PartialEq, Eq, Structural)]
pub enum Role {
    User,
    Bot,
    Maintainer,
    Admin,
}

/// The role a lower-case name stands for.
pub open spec fn role_named(name: Seq<char>) -> Option<Role> {
    if name == "user"@ {
        Some(Role::User)
    } else if name == "bot"@ {
        Some(Role::Bot)
    } else if name == "maintainer"@ {
        Some(Role::Maintainer)
    } else if name == "admin"@ {
        Some(Role::Admin)
    } else {
        None
    }
}

impl Role {
    /// The numeric rank of a role; access decisions compare ranks.
    pub open spec fn rank(self) -> nat {
        match self {
            Role::User => 0,
            Role::Bot => 1,
            Role::Maintainer => 2,
            Role::Admin => 3,
        }
    }

    /// The rank as an integer.
    pub fn level(&self) -> (r: u8)
        ensures
            r as nat == self.rank(),
    {
        match self {
            Role::User => 0,
            Role::Bot => 1,
            Role::Maintainer => 2,
            Role::Admin => 3,
        }
    }

    /// The role a lower-case name (`user`, `bot`, `maintainer`, `admin`)
    /// stands for.
    pub fn from_name(name: &str) -> (r: Option<Role>)
        ensures
            r == role_named(name@),
    {
        if text_is(name, "user") {
            Some(Role::User)
        } else if text_is(name, "bot") {
            Some(Role::Bot)
        } else if text_is(name, "maintainer") {
            Some(Role::Maintainer)
        } else if text_is(name, "admin") {
            Some(Role::Admin)
        } else {
            None
        }
    }

    /// Whether this role satisfies a requirement of `required`.
    pub fn at_least(&self, required: &Role) -> (r: bool)
        ensures
            r == (self.rank() >= required.rank()),
    {
        self.level() >= required.level()
    }
}

} // verus!
