use auth_service::domain::data_stores::BannedTokenStore;
use auth_service::domain::login_attempt_id::LoginAttemptId;
use auth_service::domain::two_fa_code::TwoFACode;
use auth_service::domain::data_stores::TwoFACodeStore;
use auth_service::domain::data_stores::UserStore;
use auth_service::domain::AuthAPIError;
use auth_service::domain::Email;
use auth_service::routes::handle_2fa;
use auth_service::routes::handle_no_2fa;
use auth_service::routes::login;
use auth_service::routes::login::finish_2fa;
use auth_service::routes::login::LoginStep;
use auth_service::routes::login::TwoFAChallenge;
use auth_service::routes::logout;
use auth_service::routes::signup;
use auth_service::routes::verify_2fa;
use auth_service::routes::verify_2fa::check_challenge;
use auth_service::routes::verify_token;
use auth_service::routes::LoginRequest;
use auth_service::routes::LoginResponse;
use auth_service::routes::SignupRequest;
use auth_service::routes::Verify2FARequest;
use auth_service::routes::VerifyTokenRequest;
use auth_service::secret::SecretText;
use auth_service::services::HashmapTwoFACodeStore;
use auth_service::services::HashmapUserStore;
use auth_service::services::HashsetBannedTokenStore;
use auth_service::utils::auth::new_claims;
use auth_service::utils::auth::Claims;
use auth_service::utils::auth::JWT_COOKIE_NAME;

struct TestApp {
    user_store: HashmapUserStore,
    banned_token_store: HashsetBannedTokenStore,
    two_fa_code_store: HashmapTwoFACodeStore,
}

impl TestApp {
    fn new() -> TestApp {
        TestApp {
            user_store: HashmapUserStore::default(),
            banned_token_store: HashsetBannedTokenStore::default(),
            two_fa_code_store: HashmapTwoFACodeStore::default(),
        }
    }

    fn post_signup(&mut self, email: &str, password: &str, requires_2fa: bool) -> u16 {
        let request = SignupRequest {
            email: SecretText::new(email.to_owned()),
            password: SecretText::new(password.to_owned()),
            requires_2fa,
        };
        match signup(&mut self.user_store, request) {
            Ok((status, _)) => status,
            Err(e) => e.status_code(),
        }
    }

    fn post_login(&mut self, email: &str, password: &str) -> Result<LoginStep, AuthAPIError> {
        let request = LoginRequest {
            email: email.to_owned(),
            password: SecretText::new(password.to_owned()),
        };
        login(&self.user_store, &mut self.two_fa_code_store, request)
    }

    fn post_verify_2fa(&mut self, email: &str, id: &str, code: &str) -> (u16, String) {
        let request = Verify2FARequest {
            email: email.to_owned(),
            login_attempt_id: id.to_owned(),
            two_fa_code: SecretText::new(code.to_owned()),
        };
        match verify_2fa(&mut self.two_fa_code_store, request) {
            Ok(email) => match handle_no_2fa(Some(sign(&email))) {
                Ok((status, _, cookie)) => (status, cookie.value.expose_secret().clone()),
                Err(e) => (e.status_code(), String::new()),
            },
            Err(e) => (e.status_code(), String::new()),
        }
    }
}

const NOW: u64 = 1_700_000_000;

fn sign(email: &Email) -> String {
    format!("signed:{}", email.as_ref().expose_secret())
}

fn random_email() -> String {
    format!("{}@example.com", LoginAttemptId::generate().as_ref())
}

fn expect_challenge(step: Result<LoginStep, AuthAPIError>) -> TwoFAChallenge {
    match step {
        Ok(LoginStep::SendCode(challenge)) => challenge,
        _ => panic!("a one-time challenge was expected"),
    }
}

#[test]
fn should_return_201_if_valid_input() {
    let mut app = TestApp::new();
    let request = SignupRequest {
        email: SecretText::new(random_email()),
        password: SecretText::new("test123456".to_owned()),
        requires_2fa: true,
    };
    let (status, body) = signup(&mut app.user_store, request).unwrap();
    assert_eq!(status, 201);
    assert_eq!(body.message, "User created successfully!".to_owned());
}

#[test]
fn signup_should_return_400_if_invalid_input() {
    let mut app = TestApp::new();
    let test_cases = [
        ("testing.com", "test123456", true), // No @ email
        ("t@t.com", "test123456", true),     // Too short
    ];
    for test_case in test_cases.iter() {
        let request = SignupRequest {
            email: SecretText::new(test_case.0.to_owned()),
            password: SecretText::new(test_case.1.to_owned()),
            requires_2fa: test_case.2,
        };
        let error = signup(&mut app.user_store, request).err().unwrap();
        assert_eq!(error.status_code(), 400, "Failed for input: {:?}", test_case);
        assert_eq!(error.message(), "Invalid credentials");
    }
}

#[test]
fn signup_should_return_400_if_password_too_short() {
    let mut app = TestApp::new();
    assert_eq!(app.post_signup("test@test.com", "short", false), 400);
    let email = Email::parse("test@test.com".to_owned()).unwrap();
    assert!(app.user_store.get_user(&email).is_err());
}

#[test]
fn should_return_409_if_email_already_exists() {
    let mut app = TestApp::new();
    assert_eq!(app.post_signup("test@test.com", "test123456", true), 201);
    let request = SignupRequest {
        email: SecretText::new("test@test.com".to_owned()),
        password: SecretText::new("test123456".to_owned()),
        requires_2fa: true,
    };
    let error = signup(&mut app.user_store, request).err().unwrap();
    assert_eq!(error.status_code(), 409);
    assert_eq!(error.message(), "User already exists");
}

#[test]
fn login_should_return_400_if_invalid_input() {
    let mut app = TestApp::new();
    let random_email = random_email();
    let password = "test123456";
    assert_eq!(app.post_signup(&random_email, password, true), 201);
    let error = app.post_login(&random_email, "avc").err().unwrap();
    assert_eq!(error.status_code(), 400);
    assert_eq!(error, AuthAPIError::InvalidCredentials);
    let error = app.post_login("not-an-address", password).err().unwrap();
    assert_eq!(error, AuthAPIError::InvalidCredentials);
}

#[test]
fn login_should_return_401_if_incorrect_credentials() {
    let mut app = TestApp::new();
    let random_email = random_email();
    let password = "test123456";
    assert_eq!(app.post_signup(&random_email, password, true), 201);
    let error = app.post_login(&random_email, "testing12345").err().unwrap();
    assert_eq!(error.status_code(), 401);
    assert_eq!(error, AuthAPIError::IncorrectCredentials);
}

#[test]
fn login_should_return_401_if_user_is_unknown() {
    let mut app = TestApp::new();
    let error = app.post_login("nobody@example.com", "test123456").err().unwrap();
    assert_eq!(error, AuthAPIError::IncorrectCredentials);
}

#[test]
fn should_return_200_if_valid_credentials_and_2fa_disabled() {
    let mut app = TestApp::new();
    let random_email = random_email();
    assert_eq!(app.post_signup(&random_email, "password123", false), 201);
    let email = match app.post_login(&random_email, "password123") {
        Ok(LoginStep::IssueSession(email)) => email,
        _ => panic!("a session was expected"),
    };
    assert_eq!(email.as_ref().expose_secret().as_str(), random_email.as_str());
    let (status, body, auth_cookie) = handle_no_2fa(Some(sign(&email))).unwrap();
    assert_eq!(status, 200);
    assert!(matches!(body, LoginResponse::RegularAuth));
    assert_eq!(auth_cookie.name, JWT_COOKIE_NAME);
    assert!(!auth_cookie.value.expose_secret().is_empty());
    assert_eq!(auth_cookie.value.expose_secret().as_str(), sign(&email));
    assert!(auth_cookie.http_only);
    assert_eq!(auth_cookie.path, "/");
    assert!(app.two_fa_code_store.get_code(&email).is_err());
}

#[test]
fn handle_no_2fa_fails_without_a_token() {
    assert_eq!(handle_no_2fa(None).err(), Some(AuthAPIError::UnexpectedError));
    assert_eq!(handle_no_2fa(Some(String::new())).err(), Some(AuthAPIError::UnexpectedError));
    assert_eq!(AuthAPIError::UnexpectedError.status_code(), 500);
}

#[test]
fn should_return_206_if_valid_credentials_and_2fa_enabled() {
    let mut app = TestApp::new();
    let random_email = random_email();
    assert_eq!(app.post_signup(&random_email, "password123", true), 201);
    let challenge = expect_challenge(app.post_login(&random_email, "password123"));
    let (status, body) = finish_2fa(&challenge, true).unwrap();
    assert_eq!(status, 206);
    let json_body = match body {
        LoginResponse::TwoFactorAuth(body) => body,
        LoginResponse::RegularAuth => panic!("a two-factor answer was expected"),
    };
    assert_eq!(json_body.message, "2FA required".to_owned());

    let email = Email::parse(random_email).unwrap();
    let result = app.two_fa_code_store.get_code(&email);
    let (login_attempt_id, code) = result.unwrap();
    assert_eq!(json_body.login_attempt_id, login_attempt_id.as_ref().to_owned());
    assert!(challenge.recipient == email);
    assert_eq!(challenge.subject, "Two Factor Authentication Code");
    assert_eq!(
        challenge.body.expose_secret().as_str(),
        format!("Your code is: {}", code.as_ref().expose_secret())
    );
    assert!(!format!("{:?}", challenge).contains(code.as_ref().expose_secret().as_str()));
    assert!(challenge.code == code);
}

#[test]
fn login_fails_if_the_mail_was_not_sent() {
    let mut app = TestApp::new();
    assert_eq!(app.post_signup("test@test.com", "password123", true), 201);
    let challenge = expect_challenge(app.post_login("test@test.com", "password123"));
    assert_eq!(finish_2fa(&challenge, false).err(), Some(AuthAPIError::UnexpectedError));
    // The stored challenge is not rolled back.
    let email = Email::parse("test@test.com".to_owned()).unwrap();
    assert!(app.two_fa_code_store.get_code(&email).is_ok());
}

#[test]
fn handle_2fa_stores_a_fresh_challenge() {
    let mut store = HashmapTwoFACodeStore::new();
    let email = Email::parse("test@test.com".to_owned()).unwrap();
    let first = handle_2fa(&email, &mut store).unwrap();
    assert!(store.get_code(&email) == Ok((first.login_attempt_id.clone(), first.code.clone())));
    let second = handle_2fa(&email, &mut store).unwrap();
    assert!(store.get_code(&email) == Ok((second.login_attempt_id.clone(), second.code.clone())));
    assert!(first.login_attempt_id != second.login_attempt_id);
}

#[test]
fn verify_2fa_should_return_400_if_invalid_input() {
    let mut app = TestApp::new();
    let random_email = random_email();
    let test_cases = [
        (random_email.as_str(), "d5783dff-c1b4-4ae3-81c6-cb71674a0d1e", "1"),
        (random_email.as_str(), "abc", "123456"),
        ("not-an-address", "d5783dff-c1b4-4ae3-81c6-cb71674a0d1e", "123456"),
    ];
    for test_case in test_cases.iter() {
        let (status, _) = app.post_verify_2fa(test_case.0, test_case.1, test_case.2);
        assert_eq!(status, 400, "Failed for input: {:?}", test_case);
    }
}

#[test]
fn verify_2fa_should_return_401_if_incorrect_credentials() {
    let mut app = TestApp::new();
    let random_email = random_email();
    let (status, _) =
        app.post_verify_2fa(&random_email, "d5783dff-c1b4-4ae3-81c6-cb71674a0d1e", "123456");
    assert_eq!(status, 401);
}

#[test]
fn verify_2fa_should_return_401_if_id_or_code_is_wrong() {
    let mut app = TestApp::new();
    assert_eq!(app.post_signup("test@test.com", "password123", true), 201);
    let challenge = expect_challenge(app.post_login("test@test.com", "password123"));
    let id = challenge.login_attempt_id.as_ref().to_owned();
    let code = challenge.code.as_ref().expose_secret().clone();
    let wrong_code = if code == "123456" { "654321" } else { "123456" };
    assert_eq!(app.post_verify_2fa("test@test.com", &id, wrong_code).0, 401);
    let wrong_id = "d5783dff-c1b4-4ae3-81c6-cb71674a0d1e";
    assert_eq!(app.post_verify_2fa("test@test.com", wrong_id, &code).0, 401);
    assert_eq!(app.post_verify_2fa("other@test.com", &id, &code).0, 401);
    // A refused answer leaves the challenge pending.
    assert_eq!(app.post_verify_2fa("test@test.com", &id, &code).0, 200);
}

#[test]
fn should_return_401_if_old_code() {
    let mut app = TestApp::new();
    let random_email = random_email();
    let password = "password123";
    assert_eq!(app.post_signup(&random_email, password, true), 201);

    let challenge = expect_challenge(app.post_login(&random_email, password));
    let (_, body) = finish_2fa(&challenge, true).unwrap();
    let json_body = match body {
        LoginResponse::TwoFactorAuth(body) => body,
        LoginResponse::RegularAuth => panic!("a two-factor answer was expected"),
    };
    assert_eq!(json_body.message, "2FA required".to_owned());

    let email = Email::parse(random_email.clone()).unwrap();
    let result = app.two_fa_code_store.get_code(&email);
    let (login_attempt_id, two_fa_code) = result.unwrap();
    assert_eq!(json_body.login_attempt_id, login_attempt_id.as_ref().to_owned());

    let second = expect_challenge(app.post_login(&random_email, password));
    assert!(second.login_attempt_id != login_attempt_id);

    let (status, _) = app.post_verify_2fa(
        &random_email,
        login_attempt_id.as_ref(),
        two_fa_code.as_ref().expose_secret(),
    );
    assert_eq!(status, 401);
}

#[test]
fn should_return_200_if_correct_code() {
    let mut app = TestApp::new();
    let random_email = random_email();
    assert_eq!(app.post_signup(&random_email, "password123", true), 201);

    let challenge = expect_challenge(app.post_login(&random_email, "password123"));
    let (status, body) = finish_2fa(&challenge, true).unwrap();
    assert_eq!(status, 206);
    let json_body = match body {
        LoginResponse::TwoFactorAuth(body) => body,
        LoginResponse::RegularAuth => panic!("a two-factor answer was expected"),
    };
    assert_eq!(json_body.message, "2FA required".to_owned());

    let email = Email::parse(random_email.clone()).unwrap();
    let result = app.two_fa_code_store.get_code(&email);
    let (login_attempt_id, two_fa_code) = result.unwrap();
    assert_eq!(json_body.login_attempt_id, login_attempt_id.as_ref().to_owned());

    let (status, auth_cookie) = app.post_verify_2fa(
        &random_email,
        login_attempt_id.as_ref(),
        two_fa_code.as_ref().expose_secret(),
    );
    assert_eq!(status, 200);
    assert!(!auth_cookie.is_empty());
}

#[test]
fn should_return_401_if_same_code_twice() {
    let mut app = TestApp::new();
    let random_email = random_email();
    assert_eq!(app.post_signup(&random_email, "password123", true), 201);

    let challenge = expect_challenge(app.post_login(&random_email, "password123"));
    let (status, body) = finish_2fa(&challenge, true).unwrap();
    assert_eq!(status, 206);
    let json_body = match body {
        LoginResponse::TwoFactorAuth(body) => body,
        LoginResponse::RegularAuth => panic!("a two-factor answer was expected"),
    };
    assert_eq!(json_body.message, "2FA required".to_owned());

    let email = Email::parse(random_email.clone()).unwrap();
    let result = app.two_fa_code_store.get_code(&email);
    let (login_attempt_id, two_fa_code) = result.unwrap();
    assert_eq!(json_body.login_attempt_id, login_attempt_id.as_ref().to_owned());

    let (status, auth_cookie) = app.post_verify_2fa(
        &random_email,
        login_attempt_id.as_ref(),
        two_fa_code.as_ref().expose_secret(),
    );
    assert_eq!(status, 200);
    assert!(!auth_cookie.is_empty());

    let (status, _) = app.post_verify_2fa(
        &random_email,
        login_attempt_id.as_ref(),
        two_fa_code.as_ref().expose_secret(),
    );
    assert_eq!(status, 401);
}

#[test]
fn check_challenge_on_given_values() {
    let mut store = HashmapTwoFACodeStore::new();
    let email = Email::parse("test@test.com".to_owned()).unwrap();
    let id = LoginAttemptId::from_value(7);
    let code = TwoFACode::from_number(123456).unwrap();
    let other_id = LoginAttemptId::from_value(8);
    let other_code = TwoFACode::from_number(123457).unwrap();
    assert_eq!(
        check_challenge(&mut store, &email, &id, &code),
        Err(AuthAPIError::IncorrectCredentials)
    );
    store.add_code(email.clone(), id.clone(), code.clone()).unwrap();
    assert_eq!(
        check_challenge(&mut store, &email, &other_id, &code),
        Err(AuthAPIError::IncorrectCredentials)
    );
    assert_eq!(
        check_challenge(&mut store, &email, &id, &other_code),
        Err(AuthAPIError::IncorrectCredentials)
    );
    assert_eq!(check_challenge(&mut store, &email, &id, &code), Ok(()));
    assert_eq!(
        check_challenge(&mut store, &email, &id, &code),
        Err(AuthAPIError::IncorrectCredentials)
    );
}

fn claims_for(email: &str, now: u64) -> Claims {
    new_claims(&Email::parse(email.to_owned()).unwrap(), now).unwrap()
}

#[test]
fn verify_token_returns_200_status() {
    let app = TestApp::new();
    let request = VerifyTokenRequest { token: "signed:test@test.com".to_owned() };
    let decoded = Some(claims_for("test@test.com", NOW));
    let response = verify_token(&app.banned_token_store, request, decoded, NOW + 1);
    assert_eq!(response, Ok(200));
}

#[test]
fn verify_token_returns_401_if_invalid_token() {
    let mut app = TestApp::new();
    let request = VerifyTokenRequest { token: "garbage".to_owned() };
    let error = verify_token(&app.banned_token_store, request, None, NOW).err().unwrap();
    assert_eq!(error, AuthAPIError::InvalidToken);
    assert_eq!(error.status_code(), 401);

    let expired = Some(claims_for("test@test.com", NOW));
    let request = VerifyTokenRequest { token: "signed:test@test.com".to_owned() };
    assert_eq!(
        verify_token(&app.banned_token_store, request, expired, NOW + 600),
        Err(AuthAPIError::InvalidToken)
    );

    app.banned_token_store.add_token("signed:test@test.com".to_owned()).unwrap();
    let banned = Some(claims_for("test@test.com", NOW));
    let request = VerifyTokenRequest { token: "signed:test@test.com".to_owned() };
    assert_eq!(
        verify_token(&app.banned_token_store, request, banned, NOW + 1),
        Err(AuthAPIError::InvalidToken)
    );
}

#[test]
fn logout_should_return_400_if_jwt_cookie_missing() {
    let mut app = TestApp::new();
    let error = logout(&mut app.banned_token_store, None, None, NOW).err().unwrap();
    assert_eq!(error, AuthAPIError::MissingToken);
    assert_eq!(error.status_code(), 400);
    assert_eq!(error.message(), "Missing token");
}

#[test]
fn logout_should_return_401_if_invalid_token() {
    let mut app = TestApp::new();
    let error =
        logout(&mut app.banned_token_store, Some("invalid".to_owned()), None, NOW).err().unwrap();
    assert_eq!(error, AuthAPIError::InvalidToken);
    assert_eq!(error.status_code(), 401);
    assert_eq!(app.banned_token_store.contains_token("invalid".to_owned()), Ok(false));
}

#[test]
fn logout_revokes_the_token() {
    let mut app = TestApp::new();
    let token = "signed:test@test.com".to_owned();
    let status = logout(
        &mut app.banned_token_store,
        Some(token.clone()),
        Some(claims_for("test@test.com", NOW)),
        NOW + 5,
    );
    assert_eq!(status, Ok(200));
    assert_eq!(app.banned_token_store.contains_token(token.clone()), Ok(true));

    let request = VerifyTokenRequest { token: token.clone() };
    let decoded = Some(claims_for("test@test.com", NOW));
    assert_eq!(
        verify_token(&app.banned_token_store, request, decoded, NOW + 6),
        Err(AuthAPIError::InvalidToken)
    );

    let again = logout(
        &mut app.banned_token_store,
        Some(token),
        Some(claims_for("test@test.com", NOW)),
        NOW + 7,
    );
    assert_eq!(again, Err(AuthAPIError::InvalidToken));
}

#[test]
fn error_status_codes_and_messages() {
    assert_eq!(AuthAPIError::UserAlreadyExists.status_code(), 409);
    assert_eq!(AuthAPIError::InvalidCredentials.status_code(), 400);
    assert_eq!(AuthAPIError::IncorrectCredentials.status_code(), 401);
    assert_eq!(AuthAPIError::MissingToken.status_code(), 400);
    assert_eq!(AuthAPIError::InvalidToken.status_code(), 401);
    assert_eq!(AuthAPIError::UnexpectedError.status_code(), 500);
    assert_eq!(AuthAPIError::IncorrectCredentials.message(), "Incorrect credentials");
    assert_eq!(AuthAPIError::InvalidToken.message(), "Invalid token");
    assert_eq!(AuthAPIError::UnexpectedError.message(), "Unexpected error");
}
