use vstd::prelude::*;

use crate::error::AuthError;
use crate::role::Role;

verus! {

/// A local user. `email` is known for users that came through the OAuth
/// provider. `external_id` is the stable identity that an identity
/// provider reports for the person; `balance` is kept in hundredths.
#[derive(Debug)]
pub struct User {
    pub id: u32,
    pub name: Option<String>,
    pub email: Option<String>,
    pub external_id: String,
    pub role: Role,
    pub balance: i64,
    pub on_leaderboard: bool,
    pub private_transactions: bool,
}

/// The user that creating one on `users` adds: the very first user gets the
/// highest role, every later one the default role.
pub open spec fn new_user(users: Seq<User>, name: Option<String>, email: Option<String>, external_id: String) -> User {
    User {
        id: (users.len() + 1) as u32,
        name,
        email,
        external_id,
        role: if users.len() == 0 {
            Role::Admin
        } else {
            Role::User
        },
        balance: 0,
        on_leaderboard: false,
        private_transactions: false,
    }
}

/// Whether `i` is the first position of a user with `external_id`.
pub open spec fn is_first_with_external(users: Seq<User>, external_id: Seq<char>, i: int) -> bool {
    &&& 0 <= i < users.len()
    &&& users[i].external_id@ == external_id
    &&& forall|j: int| 0 <= j < i ==> users[j].external_id@ != external_id
}

/// Whether some user has `external_id`.
pub open spec fn has_external(users: Seq<User>, external_id: Seq<char>) -> bool {
    exists|i: int| 0 <= i < users.len() && users[i].external_id@ == external_id
}

/// The number of the first user with `external_id`, if there is one.
pub open spec fn lookup_external(users: Seq<User>, external_id: Seq<char>) -> Option<u32> {
    if has_external(users, external_id) {
        Some((1 + choose|i: int| is_first_with_external(users, external_id, i)) as u32)
    } else {
        None
    }
}

/// The number that finding or creating the user with `external_id` gives,
/// or the failure once every number is taken.
pub open spec fn lookup_or_next(users: Seq<User>, external_id: Seq<char>) -> Result<u32, AuthError> {
    match lookup_external(users, external_id) {
        Some(id) => Ok(id),
        None => if users.len() < u32::MAX {
            Ok((users.len() + 1) as u32)
        } else {
            Err(AuthError::Persistence)
        },
    }
}

/// What finding or creating the user with `external_id` does to `before`:
/// the directory `after` and the result `r`.
pub open spec fn get_or_create_outcome(
    before: Seq<User>,
    after: Seq<User>,
    name: Option<String>,
    email: Option<String>,
    external_id: String,
    r: Result<u32, AuthError>,
) -> bool {
    match lookup_external(before, external_id@) {
        Some(id) => r == Ok::<u32, AuthError>(id) && after == before,
        None => if before.len() < u32::MAX {
            &&& r == Ok::<u32, AuthError>((before.len() + 1) as u32)
            &&& after == before.push(new_user(before, name, email, external_id))
        } else {
            r == Err::<u32, AuthError>(AuthError::Persistence) && after == before
        },
    }
}

/// `users` with the email and external identity of number `id` replaced.
pub open spec fn with_identity(users: Seq<User>, id: u32, email: String, external_id: String) -> Seq<
    User,
> {
    users.update(id - 1, User { email: Some(email), external_id, ..users[id - 1] })
}

proof fn lemma_first_unique(users: Seq<User>, external_id: Seq<char>, i: int, j: int)
    requires
        is_first_with_external(users, external_id, i),
        is_first_with_external(users, external_id, j),
    ensures
        i == j,
{
    if i < j {
        assert(users[i].external_id@ != external_id);
    } else if j < i {
        assert(users[j].external_id@ != external_id);
    }
}

/// The users, numbered from 1 in the order they were created.
pub struct UserDirectory {
    users: Vec<User>,
}

impl View for UserDirectory {
    type V = Seq<User>;

    closed spec fn view(&self) -> Seq<User> {
        self.users@
    }
}

impl UserDirectory {
    /// Each user's number is its position plus one, and numbers fit a `u32`.
    pub open spec fn wf(&self) -> bool {
        &&& self@.len() <= u32::MAX
        &&& forall|i: int| 0 <= i < self@.len() ==> (#[trigger] self@[i]).id == i + 1
    }

    /// A directory with no user.
    pub fn new() -> (d: UserDirectory)
        ensures
            d@ == Seq::<User>::empty(),
            d.wf(),
    {
        UserDirectory { users: Vec::new() }
    }

    /// The number of users.
    pub fn len(&self) -> (r: usize)
        ensures
            r == self@.len(),
    {
        self.users.len()
    }

    /// The user with number `id`, if there is one.
    pub fn get(&self, id: u32) -> (r: Option<&User>)
        requires
            self.wf(),
        ensures
            r matches Some(u) ==> 1 <= id <= self@.len() && *u == self@[id - 1],
            r is None ==> !(1 <= id <= self@.len()),
    {
        if id >= 1 && (id as usize) <= self.users.len() {
            Some(&self.users[(id - 1) as usize])
        } else {
            None
        }
    }

    /// The number of the first user whose external identity is `external_id`.
    pub fn find_by_external_id(&self, external_id: &String) -> (r: Option<u32>)
        requires
            self.wf(),
        ensures
            r == lookup_external(self@, external_id@),
    {
        let mut i: usize = 0;
        while i < self.users.len()
            invariant
                self.wf(),
                0 <= i <= self@.len(),
                forall|j: int| 0 <= j < i ==> self@[j].external_id@ != external_id@,
            decreases self@.len() - i,
        {
            if self.users[i].external_id == *external_id {
                proof {
                    assert(is_first_with_external(self@, external_id@, i as int));
                    assert(has_external(self@, external_id@));
                    let k = choose|k: int| is_first_with_external(self@, external_id@, k);
                    lemma_first_unique(self@, external_id@, i as int, k);
                }
                return Some((i + 1) as u32);
            }
            i = i + 1;
        }
        None
    }

    /// Adds a user; the first ever gets the highest role. Fails with
    /// `Persistence`, changing nothing, once every number is taken.
    pub fn create_user(&mut self, name: Option<String>, email: Option<String>, external_id: String) -> (r: Result<u32, AuthError>)
        requires
            old(self).wf(),
        ensures
            final(self).wf(),
            r is Ok <==> old(self)@.len() < u32::MAX,
            r matches Ok(id) ==> {
                &&& id == old(self)@.len() + 1
                &&& final(self)@ == old(self)@.push(new_user(old(self)@, name, email, external_id))
            },
            r matches Err(e) ==> e == AuthError::Persistence && final(self)@ == old(self)@,
    {
        let n: usize = self.users.len();
        if n >= u32::MAX as usize {
            return Err(AuthError::Persistence);
        }
        let role = if n == 0 {
            Role::Admin
        } else {
            Role::User
        };
        let id: u32 = (n + 1) as u32;
        let user = User {
            id,
            name,
            email,
            external_id,
            role,
            balance: 0,
            on_leaderboard: false,
            private_transactions: false,
        };
        self.users.push(user);
        Ok(id)
    }

    /// The first user with `external_id`, created with `name` and `email` if
    /// there is none.
    pub fn get_or_create_user(&mut self, name: Option<String>, email: Option<String>, external_id: String) -> (r: Result<u32, AuthError>)
        requires
            old(self).wf(),
        ensures
            final(self).wf(),
            get_or_create_outcome(old(self)@, final(self)@, name, email, external_id, r),
    {
        match self.find_by_external_id(&external_id) {
            Some(id) => Ok(id),
            None => self.create_user(name, email, external_id),
        }
    }

    /// Gives user `id` a new email and external identity.
    pub fn replace_identity(&mut self, id: u32, email: String, external_id: String)
        requires
            old(self).wf(),
            1 <= id <= old(self)@.len(),
        ensures
            final(self).wf(),
            final(self)@ == with_identity(old(self)@, id, email, external_id),
    {
        let i: usize = (id - 1) as usize;
        self.users[i].email = Some(email);
        self.users[i].external_id = external_id;
        assert(self@ =~= with_identity(old(self)@, id, email, external_id));
    }
}

} // verus!
