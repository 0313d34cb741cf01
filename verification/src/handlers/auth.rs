//! Request and response shapes of the auth endpoints.
use vstd::prelude::*;

verus! {

pub struct LoginResponse {
    pub token: String,
    pub token_type: String,
}

pub struct PasswordResetResponse {
    pub message: String,
}

pub struct RegisterResponse {
    pub message: String,
}

pub struct RequestPasswordResetPayload {
    pub username: String,
    pub email: String,
}

pub struct ResendVerificationPayload {
    pub identifier: String,
}

pub struct ResetPasswordPayload {
    pub token: String,
    pub password: String,
}

pub struct VerifyEmailQuery {
    pub token: String,
}

pub struct VerifyEmailResponse {
    pub message: String,
}

impl LoginResponse {
    /// A bearer-token login answer.
    pub fn new(access_token: String) -> (r: LoginResponse)
        ensures
            r.token == access_token,
            r.token_type@ == "Bearer"@,
    {
        LoginResponse { token: access_token, token_type: crate::errors::msg("Bearer") }
    }
}

} // verus!
