use vstd::prelude::*;
use vstd::assert_seqs_equal;

use crate::data::{
    apply_update, created_user, CreateUserRequest, CreateUserRequestModel, FileModel,
    UpdateUserRequest, UpdateUserRequestModel, UploadedFile, UserModel, UserView,
};
use crate::decision::{
    assign_owner, decide_delete, decide_lookup, decide_lookup_all, decide_update,
};
use crate::error::{AppError, ErrorModel};
use crate::store::{lemma_unique_index, Store, StoreModel};

verus! {

// ---------------------------------------------------------------------
// The transition relation of the service, one pair of spec functions per
// operation: the store each mutating call leaves behind, and the result
// the call returns. A `fault` argument stands for the outcome of a store
// round trip: `None` when the store answered, `Some(cause)` when it
// failed, since a real store can fail on any call. Every failing call
// rolls its transaction back, so the store a failing call leaves behind
// is the store it started from.
// ---------------------------------------------------------------------

/// What looking a user up returns: the stored record's view for an
/// existing identifier, not-found for an absent one, and the store's
/// failure cause, as a database error, when the store failed.
pub open spec fn lookup_result(s: StoreModel, id: Seq<char>, fault: Option<Seq<char>>) -> Result<
    UserModel,
    ErrorModel,
> {
    match fault {
        Some(c) => Err(ErrorModel::DatabaseError(c)),
        None => if s.contains_id(id) {
            Ok(s.user_of(id))
        } else {
            Err(ErrorModel::NotFound("User not found"@))
        },
    }
}

/// What fetching all users returns: every stored record's view, in
/// repository order, or the store's failure as a database error.
pub open spec fn all_users_result(s: StoreModel, fault: Option<Seq<char>>) -> Result<
    Seq<UserModel>,
    ErrorModel,
> {
    match fault {
        Some(c) => Err(ErrorModel::DatabaseError(c)),
        None => Ok(s.users),
    }
}

/// The store a creation call leaves behind. Exactly the successful call
/// commits: it appends the new record, and, when a file was attached,
/// the file metadata carrying the created identifier as its owner. Every
/// failure - a store failure on the insert, a taken identifier, a file
/// collaborator failure - rolls back and leaves the store as it was.
pub open spec fn store_after_create(
    s: StoreModel,
    request: CreateUserRequestModel,
    file: Option<FileModel>,
    id: Seq<char>,
    create_fault: Option<Seq<char>>,
    upload_fault: Option<Seq<char>>,
) -> StoreModel {
    if create_fault is Some || s.contains_id(id) {
        s
    } else {
        match file {
            Some(f) => if upload_fault is Some {
                s
            } else {
                StoreModel {
                    users: s.users.push(created_user(request, id)),
                    files: s.files.push(FileModel { user_id: Some(id), file_name: f.file_name }),
                }
            },
            None => StoreModel { users: s.users.push(created_user(request, id)), files: s.files },
        }
    }
}

/// What a creation call returns: the created record's view on success
/// (re-fetched after the commit), and a database error on any failure -
/// the insert round trip failing, the identifier being taken (a
/// unique-key violation), or the file collaborator failing.
pub open spec fn create_result(
    s: StoreModel,
    request: CreateUserRequestModel,
    file: Option<FileModel>,
    id: Seq<char>,
    create_fault: Option<Seq<char>>,
    upload_fault: Option<Seq<char>>,
) -> Result<UserModel, ErrorModel> {
    match create_fault {
        Some(c) => Err(ErrorModel::DatabaseError(c)),
        None => if s.contains_id(id) {
            Err(ErrorModel::DatabaseError("duplicate user id"@))
        } else {
            match (file, upload_fault) {
                (Some(_), Some(c)) => Err(ErrorModel::DatabaseError(c)),
                _ => Ok(created_user(request, id)),
            }
        },
    }
}

/// The store an update call leaves behind: on success the matched record
/// is replaced by the updated one in place, everything else untouched;
/// a store failure or an absent identifier leaves the store as it was.
pub open spec fn store_after_update(
    s: StoreModel,
    id: Seq<char>,
    request: UpdateUserRequestModel,
    fault: Option<Seq<char>>,
) -> StoreModel {
    if fault is Some || !s.contains_id(id) {
        s
    } else {
        StoreModel {
            users: s.users.update(s.index_of(id), apply_update(s.user_of(id), request)),
            files: s.files,
        }
    }
}

/// What an update call returns: the updated record's view on success,
/// not-found when no record matched, a database error when the store
/// failed.
pub open spec fn update_result(
    s: StoreModel,
    id: Seq<char>,
    request: UpdateUserRequestModel,
    fault: Option<Seq<char>>,
) -> Result<UserModel, ErrorModel> {
    match fault {
        Some(c) => Err(ErrorModel::DatabaseError(c)),
        None => if s.contains_id(id) {
            Ok(apply_update(s.user_of(id), request))
        } else {
            Err(ErrorModel::NotFound("User not found"@))
        },
    }
}

/// The store a delete call leaves behind: on success the matched record
/// is removed, the rest keeps its order; a store failure or an absent
/// identifier leaves the store as it was.
pub open spec fn store_after_delete(
    s: StoreModel,
    id: Seq<char>,
    fault: Option<Seq<char>>,
) -> StoreModel {
    if fault is Some || !s.contains_id(id) {
        s
    } else {
        StoreModel { users: s.users.remove(s.index_of(id)), files: s.files }
    }
}

/// What a delete call returns: a confirmation message on success,
/// not-found when no record matched, a database error when the store
/// failed.
pub open spec fn delete_result(s: StoreModel, id: Seq<char>, fault: Option<Seq<char>>) -> Result<
    Seq<char>,
    ErrorModel,
> {
    match fault {
        Some(c) => Err(ErrorModel::DatabaseError(c)),
        None => if s.contains_id(id) {
            Ok("User deleted"@)
        } else {
            Err(ErrorModel::NotFound("User not found"@))
        },
    }
}

/// The view of a result carrying a user view.
pub open spec fn view_user_result(r: Result<UserView, AppError>) -> Result<UserModel, ErrorModel> {
    match r {
        Ok(v) => Ok(v@),
        Err(e) => Err(e@),
    }
}

/// The view of a result carrying a sequence of user views.
pub open spec fn view_users_result(r: Result<Vec<UserView>, AppError>) -> Result<
    Seq<UserModel>,
    ErrorModel,
> {
    match r {
        Ok(vs) => Ok(vs.deep_view()),
        Err(e) => Err(e@),
    }
}

/// The view of a result carrying a confirmation message.
pub open spec fn view_message_result(r: Result<String, AppError>) -> Result<
    Seq<char>,
    ErrorModel,
> {
    match r {
        Ok(m) => Ok(m@),
        Err(e) => Err(e@),
    }
}

/// The user-management service: it orchestrates the CRUD operations
/// against the store and encloses every mutating operation in one
/// transaction, committed exactly on the success path and rolled back on
/// every failure, so that no partial effect is ever visible.
pub struct UserService {
    pub store: Store,
}

impl UserService {
    /// A service over an empty store.
    pub fn create_service() -> (s: UserService)
        ensures
            s.store@.users =~= Seq::<UserModel>::empty(),
            s.store@.files =~= Seq::<FileModel>::empty(),
            s.store@.wf(),
    {
        UserService { store: Store::new() }
    }

    /// Looks a user up by identifier and returns its view; absent
    /// identifiers surface as not-found, a store failure as a database
    /// error. The view returned for an existing identifier carries that
    /// identifier.
    pub fn get_user_by_id(&self, id: String, fault: Option<String>) -> (r: Result<
        UserView,
        AppError,
    >)
        requires
            self.store@.wf(),
        ensures
            view_user_result(r) == lookup_result(self.store@, id@, fault.deep_view()),
            r matches Ok(v) ==> v@.id == id@,
    {
        let outcome = match fault {
            Some(cause) => Err(cause),
            None => Ok(self.store.find_by_id(&id)),
        };
        decide_lookup(outcome)
    }

    /// Returns the view of every user, in repository order; a store
    /// failure surfaces as a database error.
    pub fn get_users(&self, fault: Option<String>) -> (r: Result<Vec<UserView>, AppError>)
        ensures
            view_users_result(r) == all_users_result(self.store@, fault.deep_view()),
    {
        let outcome = match fault {
            Some(cause) => Err(cause),
            None => Ok(self.store.find_all()),
        };
        decide_lookup_all(outcome)
    }

    /// Creates a user from `request` under the identifier `new_id` the
    /// store allocated, attaching `upload_file` when one was supplied:
    /// the file's owning-user reference is set to the created identifier
    /// and its metadata is stored within the same transaction. The
    /// transaction commits exactly when everything succeeded; any store
    /// or file-collaborator failure rolls it back, so a failing call
    /// leaves no partial effect. The returned view is re-fetched after
    /// the commit.
    pub fn create_user(
        &mut self,
        request: CreateUserRequest,
        upload_file: Option<UploadedFile>,
        new_id: String,
        create_fault: Option<String>,
        upload_fault: Option<String>,
    ) -> (r: Result<UserView, AppError>)
        requires
            old(self).store@.wf(),
        ensures
            final(self).store@.wf(),
            final(self).store@ == store_after_create(
                old(self).store@,
                request@,
                upload_file.deep_view(),
                new_id@,
                create_fault.deep_view(),
                upload_fault.deep_view(),
            ),
            view_user_result(r) == create_result(
                old(self).store@,
                request@,
                upload_file.deep_view(),
                new_id@,
                create_fault.deep_view(),
                upload_fault.deep_view(),
            ),
    {
        let ghost s0 = self.store@;
        let ghost greq = request@;
        let ghost gfile = upload_file.deep_view();
        let ghost gid = new_id@;
        let ghost guf = upload_fault.deep_view();
        // the store failed on the insert round trip: roll back
        if let Some(cause) = create_fault {
            return Err(AppError::DatabaseError(cause));
        }
        // the repository inserts the record within the transaction
        let user_id = match self.store.create(request, new_id) {
            Ok(uid) => uid,
            Err(cause) => {
                // unique-key violation: roll back
                return Err(AppError::DatabaseError(cause));
            },
        };
        let ghost s1 = self.store@;
        proof {
            assert(s1.users[s0.users.len() as int].id == user_id@);
            lemma_unique_index(s1, user_id@, s0.users.len() as int);
        }
        // the optional file attachment participates in the transaction
        if let Some(mut file) = upload_file {
            assign_owner(&mut file, &user_id);
            if let Some(cause) = upload_fault {
                // the file collaborator failed: the transaction must not
                // be committed, so the staged row is rolled back
                self.store.delete(&user_id);
                proof {
                    assert_seqs_equal!(self.store@.users == s0.users);
                    assert(self.store@ =~~= s0);
                }
                return Err(AppError::DatabaseError(cause));
            }
            self.store.add_file(file);
            proof {
                assert(self.store@.users =~= s1.users);
                assert(self.store@.wf());
            }
        }
        // commit, then re-fetch the user via the general pool
        let fetched = self.store.find_by_id(&user_id);
        let r = decide_lookup(Ok(fetched));
        proof {
            lemma_unique_index(self.store@, user_id@, s0.users.len() as int);
            assert(self.store@.user_of(user_id@) == created_user(greq, gid));
            assert(self.store@ =~~= store_after_create(s0, greq, gfile, gid, None, guf));
        }
        r
    }

    /// Updates the user stored under `id` with the fields present in
    /// `payload`, leaving absent fields unchanged, and returns the
    /// updated view; an absent identifier rolls back and surfaces as
    /// not-found, a store failure rolls back and surfaces as a database
    /// error.
    pub fn update_user(&mut self, id: String, payload: UpdateUserRequest, fault: Option<String>)
        -> (r: Result<UserView, AppError>)
        requires
            old(self).store@.wf(),
        ensures
            final(self).store@.wf(),
            final(self).store@ == store_after_update(
                old(self).store@,
                id@,
                payload@,
                fault.deep_view(),
            ),
            view_user_result(r) == update_result(old(self).store@, id@, payload@, fault.deep_view()),
    {
        let ghost s0 = self.store@;
        if let Some(cause) = fault {
            return Err(AppError::DatabaseError(cause));
        }
        let outcome = self.store.update(&id, payload);
        proof {
            if s0.contains_id(id@) {
                assert(self.store@ =~~= store_after_update(s0, id@, payload@, None));
            }
        }
        decide_update(Ok(outcome))
    }

    /// Deletes the user stored under `id` and returns a confirmation;
    /// an absent identifier rolls back and surfaces as not-found, a
    /// store failure rolls back and surfaces as a database error.
    pub fn delete_user(&mut self, id: String, fault: Option<String>) -> (r: Result<
        String,
        AppError,
    >)
        requires
            old(self).store@.wf(),
        ensures
            final(self).store@.wf(),
            final(self).store@ == store_after_delete(old(self).store@, id@, fault.deep_view()),
            view_message_result(r) == delete_result(old(self).store@, id@, fault.deep_view()),
    {
        let ghost s0 = self.store@;
        if let Some(cause) = fault {
            return Err(AppError::DatabaseError(cause));
        }
        let effected = self.store.delete(&id);
        proof {
            if s0.contains_id(id@) {
                assert(self.store@ =~~= store_after_delete(s0, id@, None));
            }
        }
        decide_delete(Ok(effected))
    }
}

} // verus!
