//! The users of a host and their credentials.
//!
//! The registry lives in memory. Where it is configured with a path, the
//! caller writes it there after every change; the registry itself touches no
//! file.

use vstd::prelude::*;
use vstd::string::*;
use crate::clock::unix_millis;
use crate::keyed::{
    as_map, distinct_keys, has_key, index_of, lemma_as_map_at, lemma_as_map_empty,
    lemma_as_map_push, lemma_as_map_remove, lemma_as_map_update, position, Keyed,
};
use crate::text::{clone_opt, str_eq};

verus! {

/// What a user may do on the host.
#[derive(Debug, Clone, Copy, PartialEq, Eq, Structural)]
pub enum UserRole {
    Admin,
    User,
}

impl UserRole {
    /// The name of the role as tokens and messages carry it.
    pub open spec fn name(self) -> Seq<char> {
        match self {
            UserRole::Admin => "admin"@,
            UserRole::User => "user"@,
        }
    }

    /// The name of the role as tokens and messages carry it.
    pub fn as_str(&self) -> (r: &'static str)
        ensures
            r@ == self.name(),
    {
        match self {
            UserRole::Admin => "admin",
            UserRole::User => "user",
        }
    }

    /// The name of the role, owned.
    pub fn to_string(&self) -> (r: String)
        ensures
            r@ == self.name(),
    {
        self.as_str().to_owned()
    }

    /// The role that a name stands for: `admin` or `user`, and no other.
    pub fn parse(name: &str) -> (r: Option<UserRole>)
        ensures
            r == role_named(name@),
    {
        if str_eq(name, "admin") {
            Some(UserRole::Admin)
        } else if str_eq(name, "user") {
            Some(UserRole::User)
        } else {
            None
        }
    }
}

/// The role that a name stands for.
pub open spec fn role_named(name: Seq<char>) -> Option<UserRole> {
    if name == "admin"@ {
        Some(UserRole::Admin)
    } else if name == "user"@ {
        Some(UserRole::User)
    } else {
        None
    }
}

/// A user account.
#[derive(Debug)]
pub struct User {
    pub id: String,
    pub display_name: String,
    pub username: String,
    pub password_hash: String,
    pub role: UserRole,
    pub created_at: u64,
    pub last_login_at: Option<u64>,
}

impl Clone for User {
    fn clone(&self) -> (r: Self)
        ensures
            r == *self,
    {
        User {
            id: self.id.clone(),
            display_name: self.display_name.clone(),
            username: self.username.clone(),
            password_hash: self.password_hash.clone(),
            role: self.role,
            created_at: self.created_at,
            last_login_at: self.last_login_at,
        }
    }
}

impl Keyed for User {
    open spec fn key(&self) -> Seq<char> {
        self.id@
    }

    fn key_str(&self) -> (r: &str) {
        self.id.as_str()
    }
}

/// Some user of `users` has the name `username`.
pub open spec fn name_taken(users: Map<Seq<char>, User>, username: Seq<char>) -> bool {
    exists|id: Seq<char>| users.contains_key(id) && (#[trigger] users[id]).username@ == username
}

/// No two users of `users` have the same name.
pub open spec fn names_unique(users: Map<Seq<char>, User>) -> bool {
    forall|a: Seq<char>, b: Seq<char>|
        users.contains_key(a) && users.contains_key(b) && a != b ==> (#[trigger] users[a]).username@
            != (#[trigger] users[b]).username@
}

/// The users after `id` has logged in at `now`.
pub open spec fn users_after_login(users: Map<Seq<char>, User>, id: Seq<char>, now: u64) -> Map<
    Seq<char>,
    User,
> {
    if users.contains_key(id) {
        users.insert(id, User { last_login_at: Some(now), ..users[id] })
    } else {
        users
    }
}

/// The users after the role of `id` has been set.
pub open spec fn users_with_role(users: Map<Seq<char>, User>, id: Seq<char>, role: UserRole) -> Map<
    Seq<char>,
    User,
> {
    users.insert(id, User { role, ..users[id] })
}

/// The users after the credential of `id` has been replaced.
pub open spec fn users_with_hash(
    users: Map<Seq<char>, User>,
    id: Seq<char>,
    password_hash: String,
) -> Map<Seq<char>, User> {
    users.insert(id, User { password_hash, ..users[id] })
}

/// The users that a stored list stands for: each under its id, a later one
/// replacing an earlier one with the same id.
pub open spec fn loaded_users(stored: Seq<User>) -> Map<Seq<char>, User>
    decreases stored.len(),
{
    if stored.len() == 0 {
        Map::empty()
    } else {
        loaded_users(stored.drop_last()).insert(stored.last().id@, stored.last())
    }
}

/// The registry of users.
pub struct UserStore {
    users: Vec<User>,
    persist_path: Option<String>,
}

impl View for UserStore {
    type V = Map<Seq<char>, User>;

    closed spec fn view(&self) -> Map<Seq<char>, User> {
        as_map(self.users@)
    }
}

impl UserStore {
    /// No id occurs twice in the registry.
    pub closed spec fn wf(&self) -> bool {
        distinct_keys(self.users@)
    }

    /// Where the registry is written to after a change, if anywhere.
    pub closed spec fn path(&self) -> Option<String> {
        self.persist_path
    }

    /// Every user of a well-formed registry stands under its own id.
    pub proof fn lemma_users_keyed(&self)
        requires
            self.wf(),
        ensures
            forall|id: Seq<char>| #[trigger] self@.contains_key(id) ==> self@[id].id@ == id,
    {
        assert forall|id: Seq<char>| #[trigger] self@.contains_key(id) implies self@[id].id@
            == id by {
            let i = index_of(self.users@, id);
            lemma_as_map_at(self.users@, i);
        }
    }

    /// A registry without users that is written nowhere.
    pub fn new() -> (r: Self)
        ensures
            r.wf(),
            r@ == Map::<Seq<char>, User>::empty(),
            r.path() is None,
    {
        proof {
            lemma_as_map_empty::<User>();
        }
        UserStore { users: Vec::new(), persist_path: None }
    }

    /// A registry that is written to `path`, holding the users that were
    /// found there.
    pub fn with_persistence(path: String, stored: &Vec<User>) -> (r: Self)
        ensures
            r.wf(),
            r@ == loaded_users(stored@),
            r.path() == Some(path),
    {
        let mut r = UserStore { users: Vec::new(), persist_path: Some(path) };
        proof {
            lemma_as_map_empty::<User>();
        }
        let mut i: usize = 0;
        assert(stored@.take(0) =~= Seq::<User>::empty());
        while i < stored.len()
            invariant
                i <= stored.len(),
                r.wf(),
                r.path() == Some(path),
                r@ == loaded_users(stored@.take(i as int)),
            decreases stored.len() - i,
        {
            assert(stored@.take(i + 1).drop_last() =~= stored@.take(i as int));
            assert(stored@.take(i + 1).last() == stored@[i as int]);
            r.put(stored[i].clone());
            i += 1;
        }
        assert(stored@.take(stored.len() as int) =~= stored@);
        r
    }

    /// Where the registry is written to after a change, if anywhere.
    pub fn persist_path(&self) -> (r: Option<String>)
        ensures
            r == self.path(),
    {
        clone_opt(&self.persist_path)
    }

    /// Puts a user under its id, in place of whoever stood there.
    fn put(&mut self, user: User)
        requires
            old(self).wf(),
        ensures
            final(self).wf(),
            final(self)@ == old(self)@.insert(user.id@, user),
            final(self).path() == old(self).path(),
    {
        let ghost before = self.users@;
        match position(&self.users, user.id.as_str()) {
            Some(i) => {
                proof {
                    lemma_as_map_update(before, i as int, user);
                }
                self.users[i] = user;
                assert(self.users@ =~= before.update(i as int, user));
            },
            None => {
                proof {
                    lemma_as_map_push(before, user);
                }
                self.users.push(user);
            },
        }
    }

    /// The position of a user with the name `username`, if there is one.
    fn position_by_name(&self, username: &str) -> (r: Option<usize>)
        requires
            self.wf(),
        ensures
            match r {
                Some(i) => i < self.users@.len() && self.users@[i as int].username@ == username@,
                None => !name_taken(self@, username@),
            },
    {
        let mut i: usize = 0;
        while i < self.users.len()
            invariant
                i <= self.users.len(),
                forall|j: int| 0 <= j < i ==> self.users@[j].username@ != username@,
            decreases self.users.len() - i,
        {
            if str_eq(self.users[i].username.as_str(), username) {
                return Some(i);
            }
            i += 1;
        }
        proof {
            if name_taken(self@, username@) {
                let id = choose|id: Seq<char>|
                    self@.contains_key(id) && (#[trigger] self@[id]).username@ == username@;
                let j = index_of(self.users@, id);
                lemma_as_map_at(self.users@, j);
                assert(false);
            }
        }
        None
    }

    /// Adds a user. Fails where the user's name is already taken; else the
    /// user stands under its id afterwards.
    pub fn add_user(&mut self, user: User) -> (r: Result<(), String>)
        requires
            old(self).wf(),
        ensures
            final(self).wf(),
            final(self).path() == old(self).path(),
            match r {
                Ok(_) => !name_taken(old(self)@, user.username@) && final(self)@
                    == old(self)@.insert(
                    user.id@,
                    user,
                ),
                Err(e) => name_taken(old(self)@, user.username@) && final(self)@ == old(self)@
                    && e@ == "Username already exists"@,
            },
            names_unique(old(self)@) ==> names_unique(final(self)@),
    {
        match self.position_by_name(user.username.as_str()) {
            Some(i) => {
                proof {
                    lemma_as_map_at(self.users@, i as int);
                }
                Err("Username already exists".to_owned())
            },
            None => {
                self.put(user);
                Ok(())
            },
        }
    }

    /// The user with the id `id`.
    pub fn get_user(&self, id: &str) -> (r: Option<User>)
        requires
            self.wf(),
        ensures
            match r {
                Some(u) => self@.contains_key(id@) && u == self@[id@],
                None => !self@.contains_key(id@),
            },
    {
        match position(&self.users, id) {
            Some(i) => {
                proof {
                    lemma_as_map_at(self.users@, i as int);
                }
                Some(self.users[i].clone())
            },
            None => None,
        }
    }

    /// A user with the name `username`.
    pub fn get_user_by_username(&self, username: &str) -> (r: Option<User>)
        requires
            self.wf(),
        ensures
            match r {
                Some(u) => u.username@ == username@ && self@.contains_key(u.id@) && self@[u.id@]
                    == u,
                None => !name_taken(self@, username@),
            },
    {
        match self.position_by_name(username) {
            Some(i) => {
                proof {
                    lemma_as_map_at(self.users@, i as int);
                }
                Some(self.users[i].clone())
            },
            None => None,
        }
    }

    /// Records that the user `id` has logged in at `now`, in milliseconds.
    /// Returns whether there is such a user.
    pub fn update_last_login_at(&mut self, id: &str, now: u64) -> (found: bool)
        requires
            old(self).wf(),
        ensures
            final(self).wf(),
            final(self).path() == old(self).path(),
            final(self)@ == users_after_login(old(self)@, id@, now),
            found == old(self)@.contains_key(id@),
            names_unique(old(self)@) ==> names_unique(final(self)@),
    {
        match position(&self.users, id) {
            Some(i) => {
                let ghost before = self.users@;
                proof {
                    lemma_as_map_at(before, i as int);
                }
                let mut user = self.users[i].clone();
                user.last_login_at = Some(now);
                proof {
                    lemma_as_map_update(before, i as int, user);
                }
                self.users[i] = user;
                assert(self.users@ =~= before.update(i as int, user));
                true
            },
            None => false,
        }
    }

    /// Records that the user `id` has logged in now. Returns whether there
    /// is such a user.
    pub fn update_last_login(&mut self, id: &str) -> (found: bool)
        requires
            old(self).wf(),
        ensures
            final(self).wf(),
            final(self).path() == old(self).path(),
            exists|now: u64| final(self)@ == users_after_login(old(self)@, id@, now),
            found == old(self)@.contains_key(id@),
            names_unique(old(self)@) ==> names_unique(final(self)@),
    {
        let now = unix_millis();
        self.update_last_login_at(id, now)
    }

    /// Sets the role of a user. Fails where there is no such user.
    pub fn update_user_role(&mut self, id: &str, role: UserRole) -> (r: Result<(), String>)
        requires
            old(self).wf(),
        ensures
            final(self).wf(),
            final(self).path() == old(self).path(),
            match r {
                Ok(_) => old(self)@.contains_key(id@) && final(self)@ == users_with_role(
                    old(self)@,
                    id@,
                    role,
                ),
                Err(e) => !old(self)@.contains_key(id@) && final(self)@ == old(self)@ && e@
                    == "User not found"@,
            },
            names_unique(old(self)@) ==> names_unique(final(self)@),
    {
        match position(&self.users, id) {
            Some(i) => {
                let ghost before = self.users@;
                proof {
                    lemma_as_map_at(before, i as int);
                }
                let mut user = self.users[i].clone();
                user.role = role;
                proof {
                    lemma_as_map_update(before, i as int, user);
                }
                self.users[i] = user;
                assert(self.users@ =~= before.update(i as int, user));
                Ok(())
            },
            None => Err("User not found".to_owned()),
        }
    }

    /// Replaces the credential of a user. Fails where there is no such user.
    pub fn update_user_password(&mut self, id: &str, password_hash: String) -> (r: Result<
        (),
        String,
    >)
        requires
            old(self).wf(),
        ensures
            final(self).wf(),
            final(self).path() == old(self).path(),
            match r {
                Ok(_) => old(self)@.contains_key(id@) && final(self)@ == users_with_hash(
                    old(self)@,
                    id@,
                    password_hash,
                ),
                Err(e) => !old(self)@.contains_key(id@) && final(self)@ == old(self)@ && e@
                    == "User not found"@,
            },
            names_unique(old(self)@) ==> names_unique(final(self)@),
    {
        match position(&self.users, id) {
            Some(i) => {
                let ghost before = self.users@;
                proof {
                    lemma_as_map_at(before, i as int);
                }
                let mut user = self.users[i].clone();
                user.password_hash = password_hash;
                proof {
                    lemma_as_map_update(before, i as int, user);
                }
                self.users[i] = user;
                assert(self.users@ =~= before.update(i as int, user));
                Ok(())
            },
            None => Err("User not found".to_owned()),
        }
    }

    /// Removes a user. Returns whether there was one to remove.
    pub fn remove_user(&mut self, id: &str) -> (removed: bool)
        requires
            old(self).wf(),
        ensures
            final(self).wf(),
            final(self).path() == old(self).path(),
            final(self)@ == old(self)@.remove(id@),
            removed == old(self)@.contains_key(id@),
            names_unique(old(self)@) ==> names_unique(final(self)@),
    {
        let ghost before = self.users@;
        match position(&self.users, id) {
            Some(i) => {
                proof {
                    lemma_as_map_remove(before, i as int);
                }
                self.users.remove(i);
                true
            },
            None => {
                assert(self@ =~= old(self)@.remove(id@));
                false
            },
        }
    }

    /// All users, each once.
    pub fn list_users(&self) -> (r: Vec<User>)
        requires
            self.wf(),
        ensures
            distinct_keys(r@),
            as_map(r@) == self@,
    {
        let mut r: Vec<User> = Vec::new();
        let mut i: usize = 0;
        while i < self.users.len()
            invariant
                i <= self.users.len(),
                r@ == self.users@.take(i as int),
            decreases self.users.len() - i,
        {
            r.push(self.users[i].clone());
            assert(self.users@.take(i + 1) =~= self.users@.take(i as int).push(
                self.users@[i as int],
            ));
            i += 1;
        }
        assert(self.users@.take(self.users.len() as int) =~= self.users@);
        r
    }

    /// Whether there is any user.
    pub fn has_users(&self) -> (r: bool)
        ensures
            r == (self@ != Map::<Seq<char>, User>::empty()),
    {
        proof {
            if self.users@.len() > 0 {
                assert(has_key(self.users@, self.users@[0].key()));
                assert(self@.contains_key(self.users@[0].key()));
            } else {
                assert(self@ =~= Map::<Seq<char>, User>::empty());
            }
        }
        self.users.len() > 0
    }
}

} // verus!
