//! The protocol: signup, login, verification of the one-time code, logout
//! and token introspection. Each request is decided here; sending mail and
//! signing tokens is left to the caller, who reports back what came of it.

pub mod login;
pub mod logout;
pub mod signup;
pub mod verify_2fa;
pub mod verify_token;

pub use login::handle_2fa;
pub use login::handle_no_2fa;
pub use login::login;
pub use login::LoginRequest;
pub use login::LoginResponse;
pub use login::TwoFactorAuthResponse;
pub use logout::logout;
pub use signup::signup;
pub use signup::SignupRequest;
pub use signup::SignupResponse;
pub use verify_2fa::verify_2fa;
pub use verify_2fa::Verify2FARequest;
pub use verify_token::verify_token;
pub use verify_token::VerifyTokenRequest;
