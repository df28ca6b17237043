//! A small user registry: roles, users with self-validation, and an
//! id-keyed store that assigns ids from a monotone counter.

use crate::text::str_contains_char;
use crate::text::str_eq;
use vstd::prelude::*;
use vstd::string::StringExecFns;

verus! {

/// A user's role; administrators carry their permission names.
#[derive(Debug, Clone, PartialEq)]
pub enum UserRole {
    Admin { permissions: Vec<String> },
    Moderator { level: u8 },
    User,
    Guest,
}

/// A registered user. A fresh user is active and carries the placeholder
/// id 0 until a store assigns one.
#[derive(Debug, Clone)]
pub struct User {
    pub id: u64,
    pub name: String,
    pub email: String,
    pub role: UserRole,
    pub active: bool,
}

/// Credential checks a user type may offer.
pub trait Authenticable {
    fn authenticate(&self, password: &str) -> bool;

    fn has_permission(&self, permission: &str) -> bool;
}

/// Why a value failed validation.
#[derive(Debug)]
pub enum ValidationError {
    EmptyName,
    InvalidEmail,
    UnknownError(String),
}

impl ValidationError {
    /// The human-readable text of this error.
    pub open spec fn message_spec(self) -> Seq<char> {
        match self {
            ValidationError::EmptyName => "Name cannot be empty"@,
            ValidationError::InvalidEmail => "Invalid email format"@,
            ValidationError::UnknownError(msg) => "Error: "@ + msg@,
        }
    }

    /// Renders the error for a reader.
    pub fn message(&self) -> (msg: String)
        ensures
            msg@ == self.message_spec(),
    {
        match self {
            ValidationError::EmptyName => "Name cannot be empty".to_owned(),
            ValidationError::InvalidEmail => "Invalid email format".to_owned(),
            ValidationError::UnknownError(detail) => {
                let mut msg = "Error: ".to_owned();
                msg.append(detail.as_str());
                msg
            },
        }
    }
}

/// Self-validation against a value-level description of the outcome.
pub trait Validator {
    /// The outcome `validate` owes.
    spec fn validate_spec(&self) -> Result<(), ValidationError>;

    /// Checks `self`, returning exactly the owed outcome.
    fn validate(&self) -> (result: Result<(), ValidationError>)
        ensures
            result == self.validate_spec(),
    ;
}

impl User {
    /// A fresh, active user with the placeholder id 0.
    pub fn new(name: String, email: String, role: UserRole) -> (user: User)
        ensures
            user.id == 0,
            user.name == name,
            user.email == email,
            user.role == role,
            user.active,
    {
        User { id: 0, name, email, role, active: true }
    }

    /// Whether the user's role is `Admin`.
    pub fn is_admin(&self) -> (admin: bool)
        ensures
            admin == (self.role is Admin),
    {
        match &self.role {
            UserRole::Admin { .. } => true,
            _ => false,
        }
    }

    /// Marks the user inactive; everything else is kept.
    pub fn deactivate(&mut self)
        ensures
            !final(self).active,
            final(self).id == old(self).id,
            final(self).name == old(self).name,
            final(self).email == old(self).email,
            final(self).role == old(self).role,
    {
        self.active = false;
    }

    /// An email is plausible when it mentions both '@' and '.'.
    fn validate_email(email: &str) -> (plausible: bool)
        ensures
            plausible == (email@.contains('@') && email@.contains('.')),
    {
        str_contains_char(email, '@') && str_contains_char(email, '.')
    }
}

impl Validator for User {
    /// A user validates unless the name is empty (reported first) or the
    /// email is implausible.
    open spec fn validate_spec(&self) -> Result<(), ValidationError> {
        if self.name@.len() == 0 {
            Err(ValidationError::EmptyName)
        } else if !(self.email@.contains('@') && self.email@.contains('.')) {
            Err(ValidationError::InvalidEmail)
        } else {
            Ok(())
        }
    }

    fn validate(&self) -> (result: Result<(), ValidationError>) {
        if self.name.as_str().is_empty() {
            return Err(ValidationError::EmptyName);
        }
        if !Self::validate_email(self.email.as_str()) {
            return Err(ValidationError::InvalidEmail);
        }
        Ok(())
    }
}

/// An id-keyed store of users. Ids are assigned from `next_id`, which
/// starts at 1 and grows by one per added user, so stored ids are pairwise
/// distinct and below the counter.
#[derive(Debug)]
pub struct UserManager {
    pub users: Vec<User>,
    pub next_id: u64,
}

impl UserManager {
    /// The store's invariant: every stored id is below the counter, and no
    /// two stored users share an id.
    pub open spec fn wf(self) -> bool {
        &&& 1 <= self.next_id
        &&& forall|i: int|
            0 <= i < self.users@.len() ==> (#[trigger] self.users@[i]).id < self.next_id
        &&& forall|i: int, j: int|
            0 <= i < j < self.users@.len() ==> self.users@[i].id != self.users@[j].id
    }

    /// Whether some stored user carries `id`.
    pub open spec fn has_id(self, id: u64) -> bool {
        exists|i: int| 0 <= i < self.users@.len() && (#[trigger] self.users@[i]).id == id
    }

    /// An empty store; the first assigned id is 1.
    pub fn new() -> (store: UserManager)
        ensures
            store.users@.len() == 0,
            store.next_id == 1,
            store.wf(),
    {
        UserManager { users: Vec::new(), next_id: 1 }
    }

    /// Stores the user under a fresh id, the counter's value, and returns
    /// that id.
    pub fn add_user(&mut self, user: User) -> (id: u64)
        requires
            old(self).next_id < u64::MAX,
        ensures
            id == old(self).next_id,
            final(self).next_id == old(self).next_id + 1,
            final(self).users@ == old(self).users@.push(
                (User {
                    id,
                    name: user.name,
                    email: user.email,
                    role: user.role,
                    active: user.active,
                }),
            ),
            old(self).wf() ==> final(self).wf() && !old(self).has_id(id),
    {
        let id = self.next_id;
        let mut user = user;
        user.id = id;
        self.users.push(user);
        self.next_id = self.next_id + 1;
        id
    }

    /// Looks up a user by id.
    pub fn get_user(&self, id: u64) -> (found: Option<&User>)
        ensures
            match found {
                Some(user) => exists|i: int|
                    0 <= i < self.users@.len() && (#[trigger] self.users@[i]).id == id && *user
                        == self.users@[i],
                None => !self.has_id(id),
            },
    {
        let count = self.users.len();
        let mut i: usize = 0;
        while i < count
            invariant
                i <= count,
                count == self.users@.len(),
                forall|j: int| 0 <= j < i ==> (#[trigger] self.users@[j]).id != id,
            decreases count - i,
        {
            if self.users[i].id == id {
                return Some(&self.users[i]);
            }
            i += 1;
        }
        None
    }

    /// Mutable lookup by id; the store afterwards holds whatever the caller
    /// leaves behind the returned reference.
    pub fn get_user_mut(&mut self, id: u64) -> (found: Option<&mut User>)
        ensures
            final(self).next_id == old(self).next_id,
            !old(self).has_id(id) ==> found.is_none() && *final(self) == *old(self),
            old(self).has_id(id) ==> found.is_some() && (exists|i: int|
                0 <= i < old(self).users@.len() && (#[trigger] old(self).users@[i]).id == id
                    && *found.unwrap() == old(self).users@[i] && final(self).users@ == old(
                self,
            ).users@.update(i, *final(found.unwrap()))),
    {
        let count = self.users.len();
        let mut i: usize = 0;
        while i < count && self.users[i].id != id
            invariant
                i <= count,
                count == self.users@.len(),
                forall|j: int| 0 <= j < i ==> (#[trigger] self.users@[j]).id != id,
                *self == *old(self),
            decreases count - i,
        {
            i += 1;
        }
        if i < count {
            Some(&mut self.users[i])
        } else {
            None
        }
    }

    /// Removes and returns the user stored under `id`.
    pub fn remove_user(&mut self, id: u64) -> (removed: Option<User>)
        ensures
            final(self).next_id == old(self).next_id,
            !old(self).has_id(id) ==> removed.is_none() && *final(self) == *old(self),
            old(self).has_id(id) ==> removed.is_some() && (exists|i: int|
                0 <= i < old(self).users@.len() && (#[trigger] old(self).users@[i]).id == id
                    && removed == Some(old(self).users@[i]) && final(self).users@ == old(
                self,
            ).users@.remove(i)),
            old(self).wf() ==> final(self).wf(),
    {
        let count = self.users.len();
        let mut i: usize = 0;
        while i < count && self.users[i].id != id
            invariant
                i <= count,
                count == self.users@.len(),
                forall|j: int| 0 <= j < i ==> (#[trigger] self.users@[j]).id != id,
                *self == *old(self),
            decreases count - i,
        {
            i += 1;
        }
        if i < count {
            let removed = self.users.remove(i);
            proof {
                if old(self).wf() {
                    assert forall|p: int, q: int|
                        0 <= p < q < self.users@.len() implies self.users@[p].id
                        != self.users@[q].id by {
                        assert(self.users@[p] == if p < i {
                            old(self).users@[p]
                        } else {
                            old(self).users@[p + 1]
                        });
                        assert(self.users@[q] == if q < i {
                            old(self).users@[q]
                        } else {
                            old(self).users@[q + 1]
                        });
                    }
                }
            }
            Some(removed)
        } else {
            None
        }
    }

    /// Every stored user named `name`, in insertion order.
    pub fn find_by_name(&self, name: &str) -> (found: Vec<&User>)
        ensures
            found@.map_values(|u: &User| *u) == self.users@.filter(|u: User| u.name@ == name@),
    {
        let mut found: Vec<&User> = Vec::new();
        let count = self.users.len();
        let mut i: usize = 0;
        while i < count
            invariant
                i <= count,
                count == self.users@.len(),
                found@.map_values(|u: &User| *u) == self.users@.subrange(0, i as int).filter(
                    |u: User| u.name@ == name@,
                ),
            decreases count - i,
        {
            let ghost prev_refs = found@;
            let user = &self.users[i];
            if str_eq(user.name.as_str(), name) {
                found.push(user);
                proof {
                    lemma_map_values_push(prev_refs, |u: &User| *u, user);
                }
            }
            proof {
                lemma_filter_grows_by_one(self.users@, |u: User| u.name@ == name@, i as int);
            }
            i += 1;
        }
        proof {
            assert(self.users@.subrange(0, count as int) =~= self.users@);
        }
        found
    }

    /// Every active user, in insertion order.
    pub fn active_users(&self) -> (found: Vec<&User>)
        ensures
            found@.map_values(|u: &User| *u) == self.users@.filter(|u: User| u.active),
    {
        let mut found: Vec<&User> = Vec::new();
        let count = self.users.len();
        let mut i: usize = 0;
        while i < count
            invariant
                i <= count,
                count == self.users@.len(),
                found@.map_values(|u: &User| *u) == self.users@.subrange(0, i as int).filter(
                    |u: User| u.active,
                ),
            decreases count - i,
        {
            let ghost prev_refs = found@;
            let user = &self.users[i];
            if user.active {
                found.push(user);
                proof {
                    lemma_map_values_push(prev_refs, |u: &User| *u, user);
                }
            }
            proof {
                lemma_filter_grows_by_one(self.users@, |u: User| u.active, i as int);
            }
            i += 1;
        }
        proof {
            assert(self.users@.subrange(0, count as int) =~= self.users@);
        }
        found
    }
}

impl Default for UserManager {
    /// An empty store, exactly as `UserManager::new` builds one.
    fn default() -> (store: UserManager)
        ensures
            store.users@.len() == 0,
            store.next_id == 1,
            store.wf(),
    {
        UserManager::new()
    }
}

/// Mapping a value function over a sequence commutes with `push`.
proof fn lemma_map_values_push<A, B>(s: Seq<A>, f: spec_fn(A) -> B, x: A)
    ensures
        s.push(x).map_values(f) =~= s.map_values(f).push(f(x)),
{
    assert forall|k: int| 0 <= k < s.push(x).len() implies s.push(x).map_values(f)[k] == s
        .map_values(f).push(f(x))[k] by {
        if k < s.len() {
            assert(s.push(x)[k] == s[k]);
        } else {
            assert(s.push(x)[k] == x);
        }
    }
}

/// Filtering one element more of `s` appends that element when the
/// predicate holds of it and changes nothing otherwise.
proof fn lemma_filter_grows_by_one(s: Seq<User>, pred: spec_fn(User) -> bool, i: int)
    requires
        0 <= i < s.len(),
    ensures
        s.subrange(0, i + 1).filter(pred) == if pred(s[i]) {
            s.subrange(0, i).filter(pred).push(s[i])
        } else {
            s.subrange(0, i).filter(pred)
        },
{
    assert(s.subrange(0, i + 1).drop_last() =~= s.subrange(0, i));
    reveal_with_fuel(Seq::filter, 2);
    assert(s.subrange(0, i + 1).last() == s[i]);
}

} // verus!
