use vstd::prelude::*;
use vstd::assert_seqs_equal;

use crate::data::{apply_update, created_user, CreateUserRequestModel, FileModel,
    UpdateUserRequestModel, UserModel};
use crate::error::ErrorModel;
use crate::service::{
    create_result, delete_result, lookup_result, store_after_create, store_after_delete,
    store_after_update, update_result,
};
use crate::store::{lemma_unique_index, StoreModel};

verus! {

/// Looking up any existing identifier succeeds, and the view it returns
/// carries exactly the requested identifier.
pub proof fn law_lookup_returns_requested_id(s: StoreModel, id: Seq<char>)
    requires
        s.wf(),
        s.contains_id(id),
    ensures
        lookup_result(s, id, None) matches Ok(u) && u.id == id,
{
    let w = s.index_of(id);
    assert(0 <= w < s.users.len() && s.users[w].id == id);
}

/// For an absent identifier, lookup, update and delete each fail with
/// not-found, and neither update nor delete leaves any effect behind.
pub proof fn law_missing_id_not_found(s: StoreModel, id: Seq<char>, request: UpdateUserRequestModel)
    requires
        !s.contains_id(id),
    ensures
        lookup_result(s, id, None) == Err::<UserModel, ErrorModel>(
            ErrorModel::NotFound("User not found"@),
        ),
        update_result(s, id, request, None) == Err::<UserModel, ErrorModel>(
            ErrorModel::NotFound("User not found"@),
        ),
        store_after_update(s, id, request, None) == s,
        delete_result(s, id, None) == Err::<Seq<char>, ErrorModel>(
            ErrorModel::NotFound("User not found"@),
        ),
        store_after_delete(s, id, None) == s,
{
}

/// Appending a fresh record keeps the store well formed.
proof fn lemma_push_wf(s: StoreModel, user: UserModel) -> (s2: StoreModel)
    requires
        s.wf(),
        !s.contains_id(user.id),
    ensures
        s2.users == s.users.push(user),
        s2.files == s.files,
        s2.wf(),
        s2.contains_id(user.id),
        s2.user_of(user.id) == user,
{
    let s2 = StoreModel { users: s.users.push(user), files: s.files };
    assert forall|i: int, j: int|
        0 <= i < j < s2.users.len() implies s2.users[i].id != s2.users[j].id by {
        if j == s2.users.len() - 1 {
            assert(s2.users[i] == s.users[i]);
        }
    }
    assert(s2.users[s.users.len() as int].id == user.id);
    lemma_unique_index(s2, user.id, s.users.len() as int);
    s2
}

/// After a creation without a file succeeds, looking the returned
/// identifier up yields a view matching the request's fields: the
/// created identifier, the requested name, the requested email.
pub proof fn law_create_then_lookup(s: StoreModel, request: CreateUserRequestModel, id: Seq<char>)
    requires
        s.wf(),
        !s.contains_id(id),
    ensures
        create_result(s, request, None, id, None, None) == Ok::<UserModel, ErrorModel>(
            created_user(request, id),
        ),
        lookup_result(store_after_create(s, request, None, id, None, None), id, None) matches Ok(u)
            && u.id == id && u.name == request.name && u.email == request.email,
{
    let s2 = lemma_push_wf(s, created_user(request, id));
    assert(s2 =~~= store_after_create(s, request, None, id, None, None));
}

/// After a creation with a file succeeds, the stored file metadata's
/// owning-user reference is exactly the created identifier, and both
/// the user row and the file metadata are visible in the committed
/// store. A failure in the file step instead leaves no user row and no
/// file metadata committed: the whole transaction rolls back.
pub proof fn law_create_with_file(
    s: StoreModel,
    request: CreateUserRequestModel,
    file: FileModel,
    id: Seq<char>,
    cause: Seq<char>,
)
    requires
        s.wf(),
        !s.contains_id(id),
    ensures
        ({
            let s2 = store_after_create(s, request, Some(file), id, None, None);
            &&& create_result(s, request, Some(file), id, None, None) == Ok::<
                UserModel,
                ErrorModel,
            >(created_user(request, id))
            &&& s2.files == s.files.push(
                FileModel { user_id: Some(id), file_name: file.file_name },
            )
            &&& s2.contains_id(id)
            &&& lookup_result(s2, id, None) == Ok::<UserModel, ErrorModel>(
                created_user(request, id),
            )
        }),
        store_after_create(s, request, Some(file), id, None, Some(cause)) == s,
        create_result(s, request, Some(file), id, None, Some(cause)) == Err::<
            UserModel,
            ErrorModel,
        >(ErrorModel::DatabaseError(cause)),
{
    let s2 = lemma_push_wf(s, created_user(request, id));
    assert(StoreModel {
        users: s2.users,
        files: s.files.push(FileModel { user_id: Some(id), file_name: file.file_name }),
    } =~~= store_after_create(s, request, Some(file), id, None, None));
    let sc = store_after_create(s, request, Some(file), id, None, None);
    assert(sc.users == s2.users);
    lemma_unique_index(sc, id, s.users.len() as int);
}

/// An update to an existing identifier changes exactly the fields
/// present in the request: the identifier and every absent field keep
/// their stored values, and every other record is untouched. Applying
/// the same update twice is idempotent: the second call succeeds, its
/// view equals the first one's, and the store does not change again.
pub proof fn law_update_idempotent(s: StoreModel, id: Seq<char>, request: UpdateUserRequestModel)
    requires
        s.wf(),
        s.contains_id(id),
    ensures
        ({
            let s1 = store_after_update(s, id, request, None);
            let u0 = s.user_of(id);
            let u1 = apply_update(u0, request);
            &&& update_result(s, id, request, None) == Ok::<UserModel, ErrorModel>(u1)
            &&& u1.id == u0.id
            &&& (request.name matches Some(n) ==> u1.name == n)
            &&& (request.email matches Some(e) ==> u1.email == e)
            &&& (request.name is None ==> u1.name == u0.name)
            &&& (request.email is None ==> u1.email == u0.email)
            &&& s1.users.len() == s.users.len()
            &&& (forall|j: int|
                0 <= j < s.users.len() && j != s.index_of(id) ==> s1.users[j] == s.users[j])
            &&& s1.files == s.files
            &&& store_after_update(s1, id, request, None) == s1
            &&& update_result(s1, id, request, None) == update_result(s, id, request, None)
        }),
{
    let i = s.index_of(id);
    assert(0 <= i < s.users.len() && s.users[i].id == id);
    let u0 = s.user_of(id);
    let u1 = apply_update(u0, request);
    let s1 = store_after_update(s, id, request, None);
    assert(s1.users == s.users.update(i, u1));
    assert forall|a: int, b: int|
        0 <= a < b < s1.users.len() implies s1.users[a].id != s1.users[b].id by {
        assert(s.users[a].id != s.users[b].id);
        assert(s1.users[a].id == s.users[a].id);
        assert(s1.users[b].id == s.users[b].id);
    }
    assert(s1.users[i].id == id);
    lemma_unique_index(s1, id, i);
    assert(apply_update(u1, request) == u1);
    assert_seqs_equal!(s1.users.update(i, u1) == s1.users);
    assert(store_after_update(s1, id, request, None) =~~= s1);
}

/// Deleting an existing identifier succeeds once and removes exactly
/// that record; deleting the same identifier again fails with not-found
/// and leaves the store as the first call left it.
pub proof fn law_delete_twice(s: StoreModel, id: Seq<char>)
    requires
        s.wf(),
        s.contains_id(id),
    ensures
        delete_result(s, id, None) == Ok::<Seq<char>, ErrorModel>("User deleted"@),
        !store_after_delete(s, id, None).contains_id(id),
        delete_result(store_after_delete(s, id, None), id, None) == Err::<Seq<char>, ErrorModel>(
            ErrorModel::NotFound("User not found"@),
        ),
        store_after_delete(store_after_delete(s, id, None), id, None) == store_after_delete(
            s,
            id,
            None,
        ),
{
    let i = s.index_of(id);
    assert(0 <= i < s.users.len() && s.users[i].id == id);
    let s1 = store_after_delete(s, id, None);
    assert(s1.users == s.users.remove(i));
    assert forall|j: int| 0 <= j < s1.users.len() implies s1.users[j].id != id by {
        if j < i {
            assert(s1.users[j] == s.users[j]);
            assert(s.users[j].id != s.users[i].id);
        } else {
            assert(s1.users[j] == s.users[j + 1]);
            assert(s.users[i].id != s.users[j + 1].id);
        }
    }
    assert(!s1.contains_id(id));
}

/// A store failure during creation, update or deletion surfaces as a
/// database error carrying the cause, and the transaction rolls back:
/// no row mutation persists.
pub proof fn law_store_failure_rolls_back(
    s: StoreModel,
    create_request: CreateUserRequestModel,
    file: Option<FileModel>,
    update_request: UpdateUserRequestModel,
    id: Seq<char>,
    upload_fault: Option<Seq<char>>,
    cause: Seq<char>,
)
    ensures
        store_after_create(s, create_request, file, id, Some(cause), upload_fault) == s,
        create_result(s, create_request, file, id, Some(cause), upload_fault) == Err::<
            UserModel,
            ErrorModel,
        >(ErrorModel::DatabaseError(cause)),
        store_after_update(s, id, update_request, Some(cause)) == s,
        update_result(s, id, update_request, Some(cause)) == Err::<UserModel, ErrorModel>(
            ErrorModel::DatabaseError(cause),
        ),
        store_after_delete(s, id, Some(cause)) == s,
        delete_result(s, id, Some(cause)) == Err::<Seq<char>, ErrorModel>(
            ErrorModel::DatabaseError(cause),
        ),
{
}

} // verus!
