use vstd::prelude::*;
use vstd::hash_map::StringHashMap;

use crate::role::Role;

verus! {

/// Whether `role` may reach `path` under `table`: a path the table does not
/// mention is open to everyone; a listed path asks for at least its role.
pub open spec fn access_allowed(table: Map<Seq<char>, Role>, role: Role, path: Seq<char>) -> bool {
    table.contains_key(path) ==> role.rank() >= table[path].rank()
}

/// The route table: each listed path with the least role that may reach it.
/// It is loaded once and then only read.
pub struct PermissionTable {
    routes: StringHashMap<Role>,
}

impl View for PermissionTable {
    type V = Map<Seq<char>, Role>;

    closed spec fn view(&self) -> Map<Seq<char>, Role> {
        self.routes@
    }
}

impl PermissionTable {
    /// A table that lists no path.
    pub fn new() -> (t: PermissionTable)
        ensures
            t@ == Map::<Seq<char>, Role>::empty(),
    {
        PermissionTable { routes: StringHashMap::new() }
    }

    /// Lists `path` with the least role `required`; a second entry for the
    /// same path replaces the first.
    pub fn insert(&mut self, path: String, required: Role)
        ensures
            final(self)@ == old(self)@.insert(path@, required),
    {
        self.routes.insert(path, required);
    }

    /// Whether the table mentions `path`.
    pub fn contains(&self, path: &str) -> (r: bool)
        ensures
            r == self@.contains_key(path@),
    {
        self.routes.contains_key(path)
    }

    /// The least role that `path` asks for, if the table lists it.
    pub fn required_role(&self, path: &str) -> (r: Option<Role>)
        ensures
            r == (if self@.contains_key(path@) { Some(self@[path@]) } else { None::<Role> }),
    {
        match self.routes.get(path) {
            Some(role) => Some(*role),
            None => None,
        }
    }

    /// Whether `role` may reach `path`.
    pub fn check_access(&self, role: Role, path: &str) -> (r: bool)
        ensures
            r == access_allowed(self@, role, path@),
    {
        match self.routes.get(path) {
            Some(required) => role.at_least(required),
            None => true,
        }
    }
}

/// Access is monotonic in the role: whatever a role may reach, every role
/// ranked above it may reach too.
pub proof fn lemma_access_monotonic(table: &PermissionTable, path: Seq<char>, low: Role, high: Role)
    requires
        access_allowed(table@, low, path),
        low.rank() <= high.rank(),
    ensures
        access_allowed(table@, high, path),
{
}

/// A path that the table does not list is open to every role.
pub proof fn lemma_unlisted_path_open(table: &PermissionTable, path: Seq<char>, role: Role)
    requires
        !table@.contains_key(path),
    ensures
        access_allowed(table@, role, path),
{
}

} // verus!
