//! Users as the product service and the startup routine see them.

use vstd::prelude::*;

verus! {

/// The user name of the administrator account that startup seeds.
pub const ADMIN_USERNAME: &'static str = "admin";

/// A row of the user table, reduced to the columns that decisions read.
#[derive(Debug, Clone, PartialEq, Eq)]
pub struct UserRecord {
    pub id: i64,
    pub username: String,
}

/// The caller of a request, as established by authentication.
#[derive(Debug, Clone, PartialEq, Eq)]
pub struct AuthUser {
    pub user: UserRecord,
}

/// The public face of a user inside other responses.
#[derive(Debug, Clone, PartialEq, Eq)]
pub struct MinUserReturnDto {
    pub id: i64,
    pub username: String,
}

/// What is needed to register an account.
#[derive(Debug, Clone, PartialEq, Eq)]
pub struct UserRegister {
    pub email: String,
    pub password: String,
    pub username: String,
}

/// A registration as three texts.
pub struct UserRegisterView {
    pub email: Seq<char>,
    pub password: Seq<char>,
    pub username: Seq<char>,
}

impl View for UserRegister {
    type V = UserRegisterView;

    open spec fn view(&self) -> UserRegisterView {
        UserRegisterView {
            email: self.email@,
            password: self.password@,
            username: self.username@,
        }
    }
}

} // verus!
