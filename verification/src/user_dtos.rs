//! Plain data carriers for the user resource and the login flow.

use vstd::prelude::*;

verus! {

/// A user row as the admin listing queries it, role still numeric.
pub struct UserSummaryForAdminQueryDTO {
    pub id: u64,
    pub username: String,
    pub email: String,
    pub role: u8,
}

/// A user row as the admin listing shows it, role as a display label.
pub struct UserSummaryForAdminDTO {
    pub id: u64,
    pub username: String,
    pub email: String,
    pub role: String,
}

pub struct UserCreateDTO {
    pub username: String,
    pub password: String,
    pub email: String,
    pub role: u8,
}

impl UserCreateDTO {
    pub fn get_username(&self) -> (r: &str)
        ensures
            r@ == self.username@,
    {
        self.username.as_str()
    }

    pub fn get_password(&self) -> (r: &str)
        ensures
            r@ == self.password@,
    {
        self.password.as_str()
    }

    pub fn get_email(&self) -> (r: &str)
        ensures
            r@ == self.email@,
    {
        self.email.as_str()
    }

    pub fn get_role(&self) -> (r: &u8)
        ensures
            *r == self.role,
    {
        &self.role
    }
}

pub struct UserRoleUpdateDTO {
    pub user_id: u64,
    pub role: u8,
}

impl UserRoleUpdateDTO {
    pub fn get_user_id(&self) -> (r: &u64)
        ensures
            *r == self.user_id,
    {
        &self.user_id
    }

    pub fn get_role(&self) -> (r: &u8)
        ensures
            *r == self.role,
    {
        &self.role
    }
}

pub struct UserCredentialsUpdateDTO {
    pub old_password: String,
    pub new_password: String,
}

impl UserCredentialsUpdateDTO {
    pub fn get_old_password(&self) -> (r: &str)
        ensures
            r@ == self.old_password@,
    {
        self.old_password.as_str()
    }

    pub fn get_new_password(&self) -> (r: &str)
        ensures
            r@ == self.new_password@,
    {
        self.new_password.as_str()
    }
}

pub struct UserInformationsUpdateDTO {
    pub username: String,
    pub email: String,
}

impl UserInformationsUpdateDTO {
    pub fn get_username(&self) -> (r: &str)
        ensures
            r@ == self.username@,
    {
        self.username.as_str()
    }

    pub fn get_email(&self) -> (r: &str)
        ensures
            r@ == self.email@,
    {
        self.email.as_str()
    }
}

/// Submitted login credentials.
pub struct LoginDTO {
    pub email: String,
    pub password: String,
}

impl LoginDTO {
    pub fn get_email(&self) -> (r: &str)
        ensures
            r@ == self.email@,
    {
        self.email.as_str()
    }

    pub fn get_password(&self) -> (r: &str)
        ensures
            r@ == self.password@,
    {
        self.password.as_str()
    }
}

/// Outcome of a token-validity probe.
pub struct ValidedTokenDTO {
    pub valided: bool,
}

impl ValidedTokenDTO {
    pub fn new(valided: bool) -> (r: Self)
        ensures
            r.valided == valided,
    {
        Self { valided }
    }

    pub fn get_valided(&self) -> (r: &bool)
        ensures
            *r == self.valided,
    {
        &self.valided
    }
}

/// The response to a successful login: the bearer token plus the
/// denormalized role code, username and display label. Constructed fresh
/// per login, never persisted.
pub struct AuthenticationDTO {
    pub token: String,
    pub role: u8,
    pub username: String,
    pub rolename: String,
}

impl AuthenticationDTO {
    pub fn new(token: String, role: u8, username: String, role_name: String) -> (r: Self)
        ensures
            r.token@ == token@,
            r.role == role,
            r.username@ == username@,
            r.rolename@ == role_name@,
    {
        Self { token, role, username, rolename: role_name }
    }
}

} // verus!
