use vstd::prelude::*;
use vstd::assert_seqs_equal;

use crate::data::{
    apply_update, created_user, CreateUserRequest, UpdateUserRequest, UploadedFile, User,
    UserModel, FileModel,
};

verus! {

/// The mathematical model of the persistent store: the user records in
/// repository order, and the committed file metadata in upload order.
#[verifier::ext_equal]
pub ghost struct StoreModel {
    pub users: Seq<UserModel>,
    pub files: Seq<FileModel>,
}

impl StoreModel {
    /// Whether a record with identifier `id` is present.
    pub open spec fn contains_id(self, id: Seq<char>) -> bool {
        exists|i: int| 0 <= i < self.users.len() && self.users[i].id == id
    }

    /// The position of the record with identifier `id` (unique when the
    /// store is well formed).
    pub open spec fn index_of(self, id: Seq<char>) -> int {
        choose|i: int| 0 <= i < self.users.len() && self.users[i].id == id
    }

    /// The record stored under identifier `id`.
    pub open spec fn user_of(self, id: Seq<char>) -> UserModel {
        self.users[self.index_of(id)]
    }

    /// Well-formedness: identifiers are unique across the store.
    pub open spec fn wf(self) -> bool {
        forall|i: int, j: int|
            0 <= i < j < self.users.len() ==> self.users[i].id != self.users[j].id
    }
}

/// In a well-formed store, a position whose record carries `id` is the
/// position that `index_of(id)` resolves to, and `user_of(id)` is the
/// record stored there.
pub proof fn lemma_unique_index(s: StoreModel, id: Seq<char>, i: int)
    requires
        s.wf(),
        0 <= i < s.users.len(),
        s.users[i].id == id,
    ensures
        s.contains_id(id),
        s.index_of(id) == i,
        s.user_of(id) == s.users[i],
{
    assert(s.contains_id(id));
    let w = s.index_of(id);
    assert(0 <= w < s.users.len() && s.users[w].id == id);
    if w < i {
        assert(s.users[w].id != s.users[i].id);
    }
    if i < w {
        assert(s.users[i].id != s.users[w].id);
    }
}

/// The in-memory persistent store: the repository's state. The service
/// layer is its only client; the repository operations below are the
/// capability set the service relies on (find by id, find all, create,
/// update, delete, plus storing file metadata for the file collaborator).
pub struct Store {
    pub users: Vec<User>,
    pub files: Vec<UploadedFile>,
}

impl View for Store {
    type V = StoreModel;

    open spec fn view(&self) -> StoreModel {
        StoreModel { users: self.users.deep_view(), files: self.files.deep_view() }
    }
}

impl Store {
    /// An empty store.
    pub fn new() -> (s: Store)
        ensures
            s@.users =~= Seq::<UserModel>::empty(),
            s@.files =~= Seq::<FileModel>::empty(),
    {
        let s = Store { users: Vec::new(), files: Vec::new() };
        proof {
            assert_seqs_equal!(s@.users == Seq::<UserModel>::empty());
            assert_seqs_equal!(s@.files == Seq::<FileModel>::empty());
        }
        s
    }

    /// The position of the record with identifier `id`, if any. In a
    /// well-formed store it is the unique matching position.
    fn position_of(&self, id: &String) -> (r: Option<usize>)
        requires
            self@.wf(),
        ensures
            r is Some <==> self@.contains_id(id@),
            r matches Some(i) ==> (0 <= i < self@.users.len() && self@.users[i as int].id == id@
                && i == self@.index_of(id@)),
    {
        let n = self.users.len();
        let mut k: usize = 0;
        while k < n
            invariant
                n == self.users.len(),
                0 <= k <= n,
                forall|j: int| 0 <= j < k ==> self@.users[j].id != id@,
                self@.wf(),
            decreases n - k,
        {
            if self.users[k].id == *id {
                proof {
                    assert(self@.users[k as int] == self.users@[k as int].deep_view());
                    lemma_unique_index(self@, id@, k as int);
                }
                return Some(k);
            }
            proof {
                assert(self@.users[k as int] == self.users@[k as int].deep_view());
            }
            k += 1;
        }
        None
    }

    /// Looks a user up by identifier, handing out a copy of the record.
    pub fn find_by_id(&self, id: &String) -> (r: Option<User>)
        requires
            self@.wf(),
        ensures
            r is Some <==> self@.contains_id(id@),
            r matches Some(u) ==> (u@ == self@.user_of(id@) && u@.id == id@),
    {
        match self.position_of(id) {
            Some(i) => {
                let u = &self.users[i];
                Some(User { id: u.id.clone(), name: u.name.clone(), email: u.email.clone() })
            },
            None => None,
        }
    }

    /// Hands out a copy of every record, in repository order.
    pub fn find_all(&self) -> (r: Vec<User>)
        ensures
            r.deep_view() =~= self@.users,
    {
        let n = self.users.len();
        let mut out: Vec<User> = Vec::new();
        let mut k: usize = 0;
        while k < n
            invariant
                n == self.users.len(),
                0 <= k <= n,
                out@.len() == k,
                forall|j: int| 0 <= j < k ==> out@[j].deep_view() == self@.users[j],
            decreases n - k,
        {
            let u = &self.users[k];
            let copy = User { id: u.id.clone(), name: u.name.clone(), email: u.email.clone() };
            proof {
                assert(copy.deep_view() == self@.users[k as int]);
            }
            out.push(copy);
            k += 1;
        }
        proof {
            assert_seqs_equal!(out.deep_view() == self@.users);
        }
        out
    }

    /// Inserts a new record built from `request` under the identifier
    /// `id` that the store allocated for it. Fails (like a unique-key
    /// violation) when the identifier is already taken, leaving the
    /// store unchanged; succeeds otherwise, returning the identifier.
    pub fn create(&mut self, request: CreateUserRequest, id: String) -> (r: Result<
        String,
        String,
    >)
        requires
            old(self)@.wf(),
        ensures
            final(self)@.wf(),
            old(self)@.contains_id(id@) ==> (r matches Err(c) && c@ == "duplicate user id"@
                && final(self)@ =~= old(self)@),
            !old(self)@.contains_id(id@) ==> (r matches Ok(uid) && uid@ == id@
                && final(self)@.users =~= old(self)@.users.push(created_user(request@, id@))
                && final(self)@.files =~= old(self)@.files),
    {
        if self.position_of(&id).is_some() {
            return Err(String::from_str("duplicate user id"));
        }
        let ghost prev = self@;
        let uid = id.clone();
        self.users.push(User { id, name: request.name, email: request.email });
        proof {
            assert_seqs_equal!(self@.users == prev.users.push(created_user(request@, uid@)));
            assert forall|i: int, j: int| 0 <= i < j < self@.users.len() implies self@.users[i].id
                != self@.users[j].id by {
                if j == self@.users.len() - 1 {
                    assert(self@.users[i] == prev.users[i]);
                }
            }
        }
        Ok(uid)
    }

    /// Applies `request` to the record stored under `id`: present fields
    /// replace the stored ones, absent fields are kept. Returns a copy
    /// of the updated record, or `None`, the store unchanged, when no
    /// record matched.
    pub fn update(&mut self, id: &String, request: UpdateUserRequest) -> (r: Option<User>)
        requires
            old(self)@.wf(),
        ensures
            final(self)@.wf(),
            r is Some <==> old(self)@.contains_id(id@),
            !old(self)@.contains_id(id@) ==> final(self)@ =~= old(self)@,
            r matches Some(u) ==> (u@ == apply_update(old(self)@.user_of(id@), request@)
                && final(self)@.users =~= old(self)@.users.update(
                old(self)@.index_of(id@),
                apply_update(old(self)@.user_of(id@), request@),
            ) && final(self)@.files =~= old(self)@.files),
    {
        let ghost prev = self@;
        match self.position_of(id) {
            Some(i) => {
                let name = match request.name {
                    Some(n) => n,
                    None => self.users[i].name.clone(),
                };
                let email = match request.email {
                    Some(e) => e,
                    None => self.users[i].email.clone(),
                };
                let uid = self.users[i].id.clone();
                let copy = User { id: uid.clone(), name: name.clone(), email: email.clone() };
                self.users[i] = User { id: uid, name, email };
                proof {
                    assert(copy@ == apply_update(prev.user_of(id@), request@));
                    assert_seqs_equal!(self@.users == prev.users.update(
                        prev.index_of(id@),
                        apply_update(prev.user_of(id@), request@),
                    ));
                    assert forall|a: int, b: int|
                        0 <= a < b < self@.users.len() implies self@.users[a].id
                        != self@.users[b].id by {
                        assert(prev.users[a].id != prev.users[b].id);
                        assert(self@.users[a].id == prev.users[a].id);
                        assert(self@.users[b].id == prev.users[b].id);
                    }
                    assert_seqs_equal!(self@.files == prev.files);
                }
                Some(copy)
            },
            None => None,
        }
    }

    /// Removes the record stored under `id`. Returns whether a record
    /// was removed; when none matched the store is unchanged.
    pub fn delete(&mut self, id: &String) -> (r: bool)
        requires
            old(self)@.wf(),
        ensures
            final(self)@.wf(),
            r <==> old(self)@.contains_id(id@),
            !r ==> final(self)@ =~= old(self)@,
            r ==> final(self)@.users =~= old(self)@.users.remove(old(self)@.index_of(id@))
                && final(self)@.files =~= old(self)@.files,
    {
        let ghost prev = self@;
        match self.position_of(id) {
            Some(i) => {
                self.users.remove(i);
                proof {
                    assert_seqs_equal!(self@.users == prev.users.remove(prev.index_of(id@)));
                    assert forall|a: int, b: int|
                        0 <= a < b < self@.users.len() implies self@.users[a].id
                        != self@.users[b].id by {
                        let ri = prev.index_of(id@);
                        let pa: int = if a < ri { a } else { a + 1 };
                        let pb: int = if b < ri { b } else { b + 1 };
                        assert(self@.users[a] == prev.users[pa]);
                        assert(self@.users[b] == prev.users[pb]);
                    }
                    assert_seqs_equal!(self@.files == prev.files);
                }
                true
            },
            None => false,
        }
    }

    /// Stores the metadata of an uploaded file, in the same unit of
    /// work as the user-record operations around it.
    pub fn add_file(&mut self, file: UploadedFile)
        ensures
            final(self)@.users =~= old(self)@.users,
            final(self)@.files =~= old(self)@.files.push(file@),
    {
        let ghost prev = self@;
        self.files.push(file);
        proof {
            assert_seqs_equal!(self@.users == prev.users);
            assert_seqs_equal!(self@.files == prev.files.push(file@));
        }
    }
}

} // verus!
