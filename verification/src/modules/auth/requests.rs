//! The form parameters that the auth pages receive.
use vstd::prelude::*;

verus! {

/// The fields of the login form.
pub struct LoginParams {
    pub email: String,
    pub password: String,
}

/// The fields of the registration form.
pub struct RegisterParams {
    pub email: String,
    pub password: String,
    pub name: String,
}

} // verus!
