//! Value types, errors and the store interfaces.

pub mod data_stores;
pub mod email;
pub mod error;
pub mod login_attempt_id;
pub mod password;
pub mod two_fa_code;
pub mod user;

pub use email::Email;
pub use error::AuthAPIError;
pub use error::ValidationError;
pub use login_attempt_id::LoginAttemptId;
pub use password::Password;
pub use two_fa_code::TwoFACode;
pub use user::User;
pub use user::UserParseError;
pub use user::UserView;
