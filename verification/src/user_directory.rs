//! The user directory: the repository of user records that the
//! authentication core resolves subjects against. It offers the
//! conventional repository interface — find, exists, insert, update,
//! delete — with records keyed both by a numeric id and by a unique
//! email.

use vstd::prelude::*;

use crate::errors::BackendError;

verus! {

/// One user record: identity, display name, unique email, password
/// digest and role rank.
pub struct User {
    pub id: u64,
    pub username: String,
    pub email: String,
    pub password: String,
    pub role: u8,
}

/// The mathematical image of a record: strings as character sequences.
pub ghost struct UserView {
    pub id: u64,
    pub username: Seq<char>,
    pub email: Seq<char>,
    pub password: Seq<char>,
    pub role: u8,
}

impl View for User {
    type V = UserView;

    open spec fn view(&self) -> UserView {
        UserView {
            id: self.id,
            username: self.username@,
            email: self.email@,
            password: self.password@,
            role: self.role,
        }
    }
}

impl Clone for User {
    fn clone(&self) -> (r: Self)
        ensures
            r == *self,
    {
        User {
            id: self.id,
            username: self.username.clone(),
            email: self.email.clone(),
            password: self.password.clone(),
            role: self.role,
        }
    }
}

/// String comparison stated over views.
pub fn str_eq(a: &str, b: &str) -> (r: bool)
    ensures
        r == (a@ == b@),
{
    a.to_owned() == b.to_owned()
}

pub open spec fn has_email(users: Seq<UserView>, email: Seq<char>) -> bool {
    exists|i: int| 0 <= i < users.len() && (#[trigger] users[i]).email == email
}

pub open spec fn has_id(users: Seq<UserView>, id: u64) -> bool {
    exists|i: int| 0 <= i < users.len() && (#[trigger] users[i]).id == id
}

/// Index of the record with the given email; meaningful under
/// `unique_keys` together with `has_email`.
pub open spec fn index_of_email(users: Seq<UserView>, email: Seq<char>) -> int {
    choose|i: int| 0 <= i < users.len() && (#[trigger] users[i]).email == email
}

/// Index of the record with the given id; meaningful under `unique_keys`
/// together with `has_id`.
pub open spec fn index_of_id(users: Seq<UserView>, id: u64) -> int {
    choose|i: int| 0 <= i < users.len() && (#[trigger] users[i]).id == id
}

/// The record with the given email.
pub open spec fn user_with_email(users: Seq<UserView>, email: Seq<char>) -> UserView {
    users[index_of_email(users, email)]
}

/// The record with the given id.
pub open spec fn user_with_id(users: Seq<UserView>, id: u64) -> UserView {
    users[index_of_id(users, id)]
}

/// Some record other than the one with id `id` already holds `email`.
pub open spec fn email_taken_by_other(users: Seq<UserView>, id: u64, email: Seq<char>) -> bool {
    exists|i: int|
        0 <= i < users.len() && (#[trigger] users[i]).email == email && users[i].id != id
}

/// Both keys are unique across the directory.
pub open spec fn unique_keys(users: Seq<UserView>) -> bool {
    forall|i: int, j: int|
        #![trigger users[i], users[j]]
        0 <= i < users.len() && 0 <= j < users.len() && i != j ==> users[i].id != users[j].id
            && users[i].email != users[j].email
}

/// The directory: a collection of records plus the id the next insertion
/// will receive.
pub struct UserDirectory {
    users: Vec<User>,
    next_id: u64,
}

impl View for UserDirectory {
    type V = Seq<UserView>;

    closed spec fn view(&self) -> Seq<UserView> {
        self.users@.map(|i: int, u: User| u@)
    }
}

impl UserDirectory {
    /// Ids already handed out stay below the next one, and ids start
    /// at 1.
    pub closed spec fn ids_bounded(&self) -> bool {
        &&& self.next_id >= 1
        &&& forall|i: int|
            0 <= i < self@.len() ==> 1 <= (#[trigger] self@[i]).id < self.next_id
    }

    /// Directory well-formedness: unique keys and bounded ids.
    pub open spec fn wf(&self) -> bool {
        unique_keys(self@) && self.ids_bounded()
    }

    /// No fresh id is left to hand out, so an insertion must fail with a
    /// storage error.
    pub closed spec fn ids_exhausted(&self) -> bool {
        self.next_id == u64::MAX
    }

    /// An empty directory.
    pub fn new() -> (directory: UserDirectory)
        ensures
            directory@ == Seq::<UserView>::empty(),
            directory.wf(),
    {
        let directory = UserDirectory { users: Vec::new(), next_id: 1 };
        proof {
            assert(directory@ =~= Seq::<UserView>::empty());
        }
        directory
    }

    pub fn len(&self) -> (n: usize)
        ensures
            n == self@.len(),
    {
        self.users.len()
    }

    /// The record at a position, for enumeration.
    pub fn user_at(&self, i: usize) -> (user: &User)
        requires
            i < self@.len(),
        ensures
            user@ == self@[i as int],
    {
        &self.users[i]
    }

    /// Position of the record holding `email`, if any.
    pub fn find_index_by_email(&self, email: &str) -> (r: Option<usize>)
        requires
            self.wf(),
        ensures
            match r {
                Some(i) => has_email(self@, email@) && i == index_of_email(self@, email@) && i
                    < self@.len() && self@[i as int].email == email@,
                None => !has_email(self@, email@),
            },
    {
        let n = self.users.len();
        let mut i: usize = 0;
        while i < n
            invariant
                n == self@.len(),
                0 <= i <= n,
                self.wf(),
                forall|j: int| 0 <= j < i ==> (#[trigger] self@[j]).email != email@,
            decreases n - i,
        {
            if str_eq(self.users[i].email.as_str(), email) {
                proof {
                    assert(self@[i as int].email == email@);
                    let k = index_of_email(self@, email@);
                    assert(self@[k].email == email@);
                    assert(k == i as int);
                }
                return Some(i);
            }
            i += 1;
        }
        None
    }

    /// Position of the record with id `id`, if any.
    pub fn find_index_by_id(&self, id: u64) -> (r: Option<usize>)
        requires
            self.wf(),
        ensures
            match r {
                Some(i) => has_id(self@, id) && i == index_of_id(self@, id) && i < self@.len()
                    && self@[i as int].id == id,
                None => !has_id(self@, id),
            },
    {
        let n = self.users.len();
        let mut i: usize = 0;
        while i < n
            invariant
                n == self@.len(),
                0 <= i <= n,
                self.wf(),
                forall|j: int| 0 <= j < i ==> (#[trigger] self@[j]).id != id,
            decreases n - i,
        {
            if self.users[i].id == id {
                proof {
                    assert(self@[i as int].id == id);
                    let k = index_of_id(self@, id);
                    assert(self@[k].id == id);
                    assert(k == i as int);
                }
                return Some(i);
            }
            i += 1;
        }
        None
    }

    /// The record holding `email`, if any.
    pub fn find_by_email(&self, email: &str) -> (r: Option<&User>)
        requires
            self.wf(),
        ensures
            match r {
                Some(user) => has_email(self@, email@) && user@ == user_with_email(self@, email@)
                    && user@.email == email@,
                None => !has_email(self@, email@),
            },
    {
        match self.find_index_by_email(email) {
            Some(i) => Some(&self.users[i]),
            None => None,
        }
    }

    /// The record with id `id`, if any.
    pub fn find_by_id(&self, id: u64) -> (r: Option<&User>)
        requires
            self.wf(),
        ensures
            match r {
                Some(user) => has_id(self@, id) && user@ == user_with_id(self@, id) && user@.id
                    == id,
                None => !has_id(self@, id),
            },
    {
        match self.find_index_by_id(id) {
            Some(i) => Some(&self.users[i]),
            None => None,
        }
    }

    pub fn exists_by_email(&self, email: &str) -> (r: bool)
        requires
            self.wf(),
        ensures
            r == has_email(self@, email@),
    {
        match self.find_index_by_email(email) {
            Some(_) => true,
            None => false,
        }
    }

    pub fn exists_by_id(&self, id: u64) -> (r: bool)
        requires
            self.wf(),
        ensures
            r == has_id(self@, id),
    {
        match self.find_index_by_id(id) {
            Some(_) => true,
            None => false,
        }
    }

    /// Inserts a new record under a fresh id. Fails when the email is
    /// already taken, or — with a storage error — when the id space is
    /// exhausted.
    pub fn insert(
        &mut self,
        username: String,
        email: String,
        password: String,
        role: u8,
    ) -> (r: Result<u64, BackendError>)
        requires
            old(self).wf(),
        ensures
            final(self).wf(),
            match r {
                Ok(id) => !has_email(old(self)@, email@) && !has_id(old(self)@, id)
                    && final(self)@ == old(self)@.push(
                    UserView {
                        id,
                        username: username@,
                        email: email@,
                        password: password@,
                        role,
                    },
                ),
                Err(e) => final(self)@ == old(self)@ && (e
                    == BackendError::ResourceAlreadyInsertedError || e
                    == BackendError::DatabaseError),
            },
            (r == Err::<u64, BackendError>(BackendError::ResourceAlreadyInsertedError))
                == has_email(
                old(self)@,
                email@,
            ),
            (r == Err::<u64, BackendError>(BackendError::DatabaseError)) == (!has_email(
                old(self)@,
                email@,
            ) && old(self).ids_exhausted()),
    {
        if self.exists_by_email(email.as_str()) {
            return Err(BackendError::ResourceAlreadyInsertedError);
        }
        if self.next_id == u64::MAX {
            return Err(BackendError::DatabaseError);
        }
        let id = self.next_id;
        self.next_id = self.next_id + 1;
        let ghost old_view = self@;
        let user = User { id, username, email, password, role };
        let ghost user_view = user@;
        self.users.push(user);
        proof {
            assert(self@ =~= old_view.push(user_view));
            assert forall|i: int| 0 <= i < old_view.len() implies (#[trigger] old_view[i]).id
                != id by {}
            assert(!has_id(old_view, id));
            assert(unique_keys(self@));
        }
        Ok(id)
    }

    /// Replaces the record whose id matches `user.id`. Fails when no
    /// record has that id, or when the new email belongs to a different
    /// record.
    pub fn update(&mut self, user: User) -> (r: Result<(), BackendError>)
        requires
            old(self).wf(),
        ensures
            final(self).wf(),
            (r == Err::<(), BackendError>(BackendError::ResourceNotFoundError)) == !has_id(
                old(self)@,
                user@.id,
            ),
            (r == Err::<(), BackendError>(BackendError::ResourceConflitUpdateError)) == (has_id(
                old(self)@,
                user@.id,
            ) && email_taken_by_other(old(self)@, user@.id, user@.email)),
            (r is Ok) == (has_id(old(self)@, user@.id) && !email_taken_by_other(
                old(self)@,
                user@.id,
                user@.email,
            )),
            r is Ok ==> final(self)@ == old(self)@.update(index_of_id(old(self)@, user@.id), user@),
            r is Err ==> final(self)@ == old(self)@,
    {
        let ghost old_view = self@;
        let index = match self.find_index_by_id(user.id) {
            Some(i) => i,
            None => {
                return Err(BackendError::ResourceNotFoundError);
            },
        };
        match self.find_index_by_email(user.email.as_str()) {
            Some(j) => {
                if self.users[j].id != user.id {
                    proof {
                        assert(email_taken_by_other(old_view, user@.id, user@.email));
                    }
                    return Err(BackendError::ResourceConflitUpdateError);
                }
            },
            None => {},
        }
        proof {
            if email_taken_by_other(old_view, user@.id, user@.email) {
                let k = choose|i: int|
                    0 <= i < old_view.len() && (#[trigger] old_view[i]).email == user@.email
                        && old_view[i].id != user@.id;
                let m = index_of_email(old_view, user@.email);
                assert(old_view[m].email == user@.email);
                assert(m == k);
                assert(false);
            }
        }
        let ghost old_entry = old_view[index as int];
        self.users[index] = user;
        proof {
            assert(self@ =~= old_view.update(index as int, user@));
            assert(user@.id == old_entry.id);
            assert forall|i: int, j: int|
                #![trigger self@[i], self@[j]]
                0 <= i < self@.len() && 0 <= j < self@.len() && i != j implies self@[i].id
                != self@[j].id && self@[i].email != self@[j].email by {
                if i != index as int && j != index as int {
                    assert(old_view[i].id != old_view[j].id);
                }
            }
        }
        Ok(())
    }

    /// Removes the record with id `id`. Fails when no record has it.
    pub fn delete_by_id(&mut self, id: u64) -> (r: Result<(), BackendError>)
        requires
            old(self).wf(),
        ensures
            final(self).wf(),
            (r is Ok) == has_id(old(self)@, id),
            r is Ok ==> final(self)@ == old(self)@.remove(index_of_id(old(self)@, id)),
            r is Err ==> r == Err::<(), BackendError>(BackendError::ResourceNotFoundError)
                && final(self)@ == old(self)@,
    {
        let ghost old_view = self@;
        let index = match self.find_index_by_id(id) {
            Some(i) => i,
            None => {
                return Err(BackendError::ResourceNotFoundError);
            },
        };
        self.users.remove(index);
        proof {
            assert(self@ =~= old_view.remove(index as int));
            assert forall|i: int, j: int|
                #![trigger self@[i], self@[j]]
                0 <= i < self@.len() && 0 <= j < self@.len() && i != j implies self@[i].id
                != self@[j].id && self@[i].email != self@[j].email by {
                let pi = if i < index as int {
                    i
                } else {
                    i + 1
                };
                let pj = if j < index as int {
                    j
                } else {
                    j + 1
                };
                assert(self@[i] == old_view[pi]);
                assert(self@[j] == old_view[pj]);
                assert(old_view[pi].id != old_view[pj].id);
            }
        }
        Ok(())
    }
}

} // verus!
