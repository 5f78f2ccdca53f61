use vstd::prelude::*;

verus! {

/// Bodies of the account, device-login and sharing endpoints.
#[derive(Debug, Clone, PartialEq)]
pub struct RegisterRequest {
    pub email: String,
    pub password: String,
}

#[derive(Debug, Clone, PartialEq)]
pub struct LoginRequest {
    pub email: String,
    pub password: String,
}

#[derive(Debug, Clone, PartialEq)]
pub struct AuthResponse {
    pub token: String,
    pub user_id: String,
}

/// The claims of an access token: the account and the expiry time.
#[derive(Debug, Clone, PartialEq)]
pub struct Claims {
    pub sub: String,
    pub exp: usize,
}

#[derive(Debug, Clone, PartialEq)]
pub struct DeviceCodeResponse {
    pub code: String,
    pub url: String,
    pub expires_in: u64,
}

#[derive(Debug, Clone, PartialEq)]
pub struct DevicePollRequest {
    pub code: String,
}

#[derive(Debug, Clone, PartialEq)]
pub enum DevicePollResponse {
    Pending,
    Success { token: String, user_id: String },
    Expired,
}

#[derive(Debug, Clone, PartialEq)]
pub struct DeviceCompleteRequest {
    pub code: String,
    pub user_id: String,
}

#[derive(Debug, Clone, PartialEq)]
pub struct ForgotPasswordRequest {
    pub email: String,
}

#[derive(Debug, Clone, PartialEq)]
pub struct ResetPasswordRequest {
    pub token: String,
    pub password: String,
}

#[derive(Debug, Clone, PartialEq)]
pub struct GenerateCodeRequest {
    pub session_id: String,
}

#[derive(Debug, Clone, PartialEq)]
pub struct GenerateCodeResponse {
    pub code: String,
    pub expires_at: String,
    pub share_url: String,
}

#[derive(Debug, Clone, PartialEq)]
pub struct RedeemCodeRequest {
    pub code: String,
}

#[derive(Debug, Clone, PartialEq)]
pub struct RedeemCodeResponse {
    pub success: bool,
    pub session_id: Option<String>,
    pub message: String,
}

#[derive(Debug, Clone, PartialEq)]
pub struct ShareInfo {
    pub user_id: String,
    pub user_email: String,
    pub is_owner: bool,
    pub created_at: Option<String>,
}

#[derive(Debug, Clone, PartialEq)]
pub struct ShareListResponse {
    pub owner: Option<ShareInfo>,
    pub shares: Vec<ShareInfo>,
}

} // verus!
