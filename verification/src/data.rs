use vstd::prelude::*;

verus! {

/// A persisted user record, identified by a unique string identifier.
#[derive(Debug)]
pub struct User {
    pub id: String,
    pub name: String,
    pub email: String,
}

/// The mathematical model of a user record (and of its read-facing
/// projection, which carries the same fields).
#[verifier::ext_equal]
pub ghost struct UserModel {
    pub id: Seq<char>,
    pub name: Seq<char>,
    pub email: Seq<char>,
}

impl View for User {
    type V = UserModel;

    open spec fn view(&self) -> UserModel {
        UserModel { id: self.id@, name: self.name@, email: self.email@ }
    }
}

impl DeepView for User {
    type V = UserModel;

    open spec fn deep_view(&self) -> UserModel {
        self.view()
    }
}

/// The read-facing projection of a user record returned to callers.
/// It is only ever produced from a successfully persisted record.
#[derive(Debug)]
pub struct UserView {
    pub id: String,
    pub name: String,
    pub email: String,
}

impl View for UserView {
    type V = UserModel;

    open spec fn view(&self) -> UserModel {
        UserModel { id: self.id@, name: self.name@, email: self.email@ }
    }
}

impl DeepView for UserView {
    type V = UserModel;

    open spec fn deep_view(&self) -> UserModel {
        self.view()
    }
}

/// The input value object for user creation.
#[derive(Debug)]
pub struct CreateUserRequest {
    pub name: String,
    pub email: String,
}

/// The mathematical model of a creation request.
#[verifier::ext_equal]
pub ghost struct CreateUserRequestModel {
    pub name: Seq<char>,
    pub email: Seq<char>,
}

impl View for CreateUserRequest {
    type V = CreateUserRequestModel;

    open spec fn view(&self) -> CreateUserRequestModel {
        CreateUserRequestModel { name: self.name@, email: self.email@ }
    }
}

/// The input value object for a partial or full update: a field that is
/// present replaces the stored one, a field that is absent leaves the
/// stored one unchanged.
#[derive(Debug)]
pub struct UpdateUserRequest {
    pub name: Option<String>,
    pub email: Option<String>,
}

/// The mathematical model of an update request.
#[verifier::ext_equal]
pub ghost struct UpdateUserRequestModel {
    pub name: Option<Seq<char>>,
    pub email: Option<Seq<char>>,
}

impl View for UpdateUserRequest {
    type V = UpdateUserRequestModel;

    open spec fn view(&self) -> UpdateUserRequestModel {
        UpdateUserRequestModel { name: self.name.deep_view(), email: self.email.deep_view() }
    }
}

/// A file being attached to a newly created user (a profile picture).
/// Its `user_id` establishes the ownership link; it is populated by the
/// service once the owning user's identifier is known.
#[derive(Debug)]
pub struct UploadedFile {
    pub user_id: Option<String>,
    pub file_name: String,
}

/// The mathematical model of an uploaded file.
#[verifier::ext_equal]
pub ghost struct FileModel {
    pub user_id: Option<Seq<char>>,
    pub file_name: Seq<char>,
}

impl View for UploadedFile {
    type V = FileModel;

    open spec fn view(&self) -> FileModel {
        FileModel { user_id: self.user_id.deep_view(), file_name: self.file_name@ }
    }
}

impl DeepView for UploadedFile {
    type V = FileModel;

    open spec fn deep_view(&self) -> FileModel {
        self.view()
    }
}

/// The record that persisting `request` under the fresh identifier `id`
/// produces.
pub open spec fn created_user(request: CreateUserRequestModel, id: Seq<char>) -> UserModel {
    UserModel { id: id, name: request.name, email: request.email }
}

/// The record that applying the update `request` to the stored record
/// `user` produces: fields present in the request are replaced, absent
/// ones are kept; the identifier never changes.
pub open spec fn apply_update(user: UserModel, request: UpdateUserRequestModel) -> UserModel {
    UserModel {
        id: user.id,
        name: match request.name {
            Some(n) => n,
            None => user.name,
        },
        email: match request.email {
            Some(e) => e,
            None => user.email,
        },
    }
}

/// The read-facing projection of a persisted record: every field is
/// carried over unchanged.
pub fn user_to_view(user: &User) -> (v: UserView)
    ensures
        v@ == user@,
{
    UserView { id: user.id.clone(), name: user.name.clone(), email: user.email.clone() }
}

} // verus!
