use vstd::prelude::*;
use vstd::assert_seqs_equal;

use crate::data::{user_to_view, UploadedFile, User, UserView};
use crate::error::{AppError, ErrorModel};

verus! {

/// The outcome-to-error mapping applied to every repository outcome.
/// A caller that drives a real store performs the round trip, reduces
/// its outcome to one of these plain values, and applies the matching
/// decision below; the decision alone determines what the service call
/// returns and whether its transaction may be committed (exactly the
/// successful decisions commit, every failing one rolls back).
///
/// A lookup outcome: the record when one matched, `None` when none did,
/// or the failure cause reported by the store.
pub fn decide_lookup(outcome: Result<Option<User>, String>) -> (r: Result<UserView, AppError>)
    ensures
        outcome matches Ok(Some(u)) ==> (r matches Ok(v) && v@ == u@),
        outcome matches Ok(None) ==> (r matches Err(e) && e@ == ErrorModel::NotFound(
            "User not found"@,
        )),
        outcome matches Err(c) ==> (r matches Err(e) && e@ == ErrorModel::DatabaseError(c@)),
{
    match outcome {
        Ok(Some(user)) => Ok(user_to_view(&user)),
        Ok(None) => Err(AppError::NotFound(String::from_str("User not found"))),
        Err(cause) => Err(AppError::DatabaseError(cause)),
    }
}

/// A fetch-all outcome: every record is mapped to its view, in the
/// order the store handed them out; a store failure surfaces whole.
pub fn decide_lookup_all(outcome: Result<Vec<User>, String>) -> (r: Result<Vec<UserView>, AppError>)
    ensures
        outcome matches Ok(users) ==> (r matches Ok(views) && views.deep_view()
            =~= users.deep_view()),
        outcome matches Err(c) ==> (r matches Err(e) && e@ == ErrorModel::DatabaseError(c@)),
{
    match outcome {
        Ok(users) => {
            let n = users.len();
            let mut views: Vec<UserView> = Vec::new();
            let mut k: usize = 0;
            while k < n
                invariant
                    n == users.len(),
                    0 <= k <= n,
                    views@.len() == k,
                    forall|j: int| 0 <= j < k ==> views@[j].deep_view() == users.deep_view()[j],
                decreases n - k,
            {
                views.push(user_to_view(&users[k]));
                k += 1;
            }
            proof {
                assert_seqs_equal!(views.deep_view() == users.deep_view());
            }
            Ok(views)
        },
        Err(cause) => Err(AppError::DatabaseError(cause)),
    }
}

/// An insert outcome: the identifier the store allocated, or the
/// failure cause; a failure means the transaction is rolled back and
/// surfaces as a database error.
pub fn decide_insert(outcome: Result<String, String>) -> (r: Result<String, AppError>)
    ensures
        outcome matches Ok(id) ==> (r matches Ok(rid) && rid@ == id@),
        outcome matches Err(c) ==> (r matches Err(e) && e@ == ErrorModel::DatabaseError(c@)),
{
    match outcome {
        Ok(id) => Ok(id),
        Err(cause) => Err(AppError::DatabaseError(cause)),
    }
}

/// An update outcome: the updated record when one matched, `None` when
/// none did (surfacing as not-found), or the store's failure cause.
pub fn decide_update(outcome: Result<Option<User>, String>) -> (r: Result<UserView, AppError>)
    ensures
        outcome matches Ok(Some(u)) ==> (r matches Ok(v) && v@ == u@),
        outcome matches Ok(None) ==> (r matches Err(e) && e@ == ErrorModel::NotFound(
            "User not found"@,
        )),
        outcome matches Err(c) ==> (r matches Err(e) && e@ == ErrorModel::DatabaseError(c@)),
{
    match outcome {
        Ok(Some(user)) => Ok(user_to_view(&user)),
        Ok(None) => Err(AppError::NotFound(String::from_str("User not found"))),
        Err(cause) => Err(AppError::DatabaseError(cause)),
    }
}

/// A delete outcome: whether a row was removed (`false` surfaces as
/// not-found), or the store's failure cause.
pub fn decide_delete(outcome: Result<bool, String>) -> (r: Result<String, AppError>)
    ensures
        outcome matches Ok(true) ==> (r matches Ok(m) && m@ == "User deleted"@),
        outcome matches Ok(false) ==> (r matches Err(e) && e@ == ErrorModel::NotFound(
            "User not found"@,
        )),
        outcome matches Err(c) ==> (r matches Err(e) && e@ == ErrorModel::DatabaseError(c@)),
{
    match outcome {
        Ok(true) => Ok(String::from_str("User deleted")),
        Ok(false) => Err(AppError::NotFound(String::from_str("User not found"))),
        Err(cause) => Err(AppError::DatabaseError(cause)),
    }
}

/// Populates the ownership link of a file attached to a newly created
/// user: the owning-user reference becomes the created identifier, the
/// rest of the file is untouched.
pub fn assign_owner(file: &mut UploadedFile, user_id: &String)
    ensures
        final(file)@.user_id == Some(user_id@),
        final(file)@.file_name == old(file)@.file_name,
{
    file.user_id = Some(user_id.clone());
}

} // verus!
