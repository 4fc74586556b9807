use user_auth::errors::{LambdaError, ToLambdaError};
use user_auth::events::{
    apigw_response, create_error_response, require_body, Header, LambdaEventRequestHandler,
    Routing,
};
use user_auth::patterns::Patterns;
use user_auth::permissions::Role;
use user_auth::requests::{
    is_strong_enough, is_three_parts, CreateUserRequest, LoginRequest, RefreshTokenRequest,
    SignupRequest, TokenValidateRequest, UpdateUserRequest,
};
use user_auth::text::{chars_of, contains, decimal_digit, join_strs, str_eq, trim_bounds};

fn all_errors() -> Vec<LambdaError> {
    vec![
        LambdaError::InvalidEmail,
        LambdaError::InvalidUsername,
        LambdaError::InvalidPassword,
        LambdaError::InvalidOrganizationName,
        LambdaError::InvalidToken,
        LambdaError::InvalidRefreshToken,
        LambdaError::AuthenticationFailed,
        LambdaError::TokenExpired,
        LambdaError::InvalidSignature,
        LambdaError::UserNotFound,
        LambdaError::UserAlreadyExists,
        LambdaError::InsufficientPermissions,
        LambdaError::OrganizationNotFound,
        LambdaError::MissingOrganizationId,
        LambdaError::MissingRoles,
        LambdaError::MissingBody,
        LambdaError::MissingToken,
        LambdaError::UserCreationFailed("d".to_string()),
        LambdaError::UserDeletionFailed("d".to_string()),
        LambdaError::UserUpdateFailed("d".to_string()),
        LambdaError::UserRetrievalFailed("d".to_string()),
        LambdaError::TokenRefreshFailed("d".to_string()),
        LambdaError::InternalError("d".to_string()),
    ]
}

#[test]
fn test_status_codes() {
    let expected = [
        400, 400, 400, 400, 400, 400, 401, 401, 401, 404, 409, 403, 404, 400, 400, 400, 400, 500,
        500, 500, 500, 500, 500,
    ];
    for (error, status) in all_errors().iter().zip(expected) {
        assert_eq!(error.status_code(), status, "{:?}", error);
    }
}

#[test]
fn test_error_texts() {
    let expected = [
        "Invalid email format",
        "Invalid username format (3-30 alphanumeric characters, _ or -)",
        "Invalid password format",
        "Invalid organization name",
        "Invalid token format",
        "Invalid refresh token",
        "Authentication failed",
        "Token expired",
        "Invalid signature",
        "User not found",
        "User already exists",
        "Insufficient permissions",
        "Organization not found",
        "Organization ID is required",
        "At least one role must be specified",
        "Missing request body",
        "Missing token",
        "Failed to create user: d",
        "Failed to delete user: d",
        "Failed to update user: d",
        "Failed to retrieve users: d",
        "Failed to refresh token: d",
        "Internal server error: d",
    ];
    for (error, text) in all_errors().iter().zip(expected) {
        assert_eq!(error.to_string(), text);
        assert_eq!(error.clone().to_string(), text);
    }
}

#[test]
fn test_user_messages() {
    let expected = [
        "Please provide a valid email address",
        "Username must be 3-30 characters long and contain only letters, numbers, underscores, or hyphens",
        "Password must be at least 8 characters long and contain uppercase, lowercase, and numbers",
        "Organization name must be between 2 and 100 characters",
        "Invalid token provided",
        "Invalid refresh token",
        "Invalid credentials",
        "Token has expired",
        "Token signature verification failed",
        "User not found",
        "A user with this email already exists",
        "You don't have permission to perform this action",
        "Organization not found",
        "Organization ID is required",
        "At least one role must be specified",
        "Request body is required",
        "Token is required",
        "Failed to create user. Please try again later",
        "Failed to delete user. Please try again later",
        "Failed to update user. Please try again later",
        "Failed to retrieve user information. Please try again later",
        "Failed to refresh token. Please try again later",
        "An internal error occurred. Please try again later",
    ];
    for (error, message) in all_errors().iter().zip(expected) {
        assert_eq!(error.user_message(), message);
        assert!(!error.user_message().contains("d: "));
    }
}

#[test]
fn test_error_response() {
    let response = LambdaError::InternalError("the secret detail".to_string()).to_response();
    assert_eq!(response.status_code, 500);
    assert_eq!(response.error, "Internal server error: the secret detail");
    assert_eq!(response.message, "An internal error occurred. Please try again later");
    let response = create_error_response(LambdaError::InsufficientPermissions);
    assert_eq!(response.status_code, 403);
    assert_eq!(response.error, "Insufficient permissions");
    assert_eq!(response.message, "You don't have permission to perform this action");
}

fn kind(result: Result<(), LambdaError>) -> String {
    match result {
        Ok(()) => "ok".to_string(),
        Err(e) => format!("{:?}", e),
    }
}

#[test]
fn test_login_request() {
    let request = |email: &str, password: &str| LoginRequest {
        email: email.to_string(),
        password: password.to_string(),
    };
    assert_eq!(kind(request("a@b.co", "12345678").validate()), "ok");
    assert_eq!(kind(request("a@b.co", "1234567").validate()), "InvalidPassword");
    assert_eq!(kind(request("a@b", "12345678").validate()), "InvalidEmail");
    assert_eq!(kind(request("", "").validate()), "InvalidEmail");
    assert_eq!(kind(request("a@b.co", "パスワ").validate()), "ok");
    assert_eq!(kind(request("a@b.co", "パス").validate()), "InvalidPassword");
    assert_eq!(kind(request("a@b.co", "12345678").validate_with(&Patterns::new().unwrap())), "ok");
}

#[test]
fn test_signup_request() {
    let request = |organization: &str, name: &str, email: &str, password: &str| SignupRequest {
        organization_name: organization.to_string(),
        user_name: name.to_string(),
        email: email.to_string(),
        password: password.to_string(),
    };
    let patterns = Patterns::new().unwrap();
    let check = |r: SignupRequest| kind(r.validate_with(&patterns));
    assert_eq!(check(request("Org", "Alice", "a@b.co", "Passw0rd")), "ok");
    assert_eq!(kind(request("Org", "Alice", "a@b.co", "Passw0rd").validate()), "ok");
    assert_eq!(check(request("O", "Alice", "a@b.co", "Passw0rd")), "InvalidOrganizationName");
    assert_eq!(check(request("O", "", "", "")), "InvalidOrganizationName");
    assert_eq!(check(request(&"o".repeat(100), "Alice", "a@b.co", "Passw0rd")), "ok");
    assert_eq!(check(request(&"o".repeat(101), "Alice", "a@b.co", "Passw0rd")), "InvalidOrganizationName");
    assert_eq!(check(request("組", "Alice", "a@b.co", "Passw0rd")), "ok");
    assert_eq!(check(request("Org", "Alice1", "bad", "weak")), "InvalidUsername");
    assert_eq!(check(request("Org", "Alice", "bad", "weak")), "InvalidEmail");
    assert_eq!(check(request("Org", "Alice", "a@b.co", "Pw0")), "InvalidPassword");
    assert_eq!(check(request("Org", "Alice", "a@b.co", "password1")), "InvalidPassword");
    assert_eq!(check(request("Org", "Alice", "a@b.co", "PASSWORD1")), "InvalidPassword");
    assert_eq!(check(request("Org", "Alice", "a@b.co", "Passwordx")), "InvalidPassword");
    assert_eq!(check(request("Org", "Alice", "a@b.co", "Ünïcödé1")), "ok");
    assert!(is_strong_enough("aA0"));
    assert!(is_strong_enough("Éé9"));
    assert!(!is_strong_enough("aA٣"));
    assert!(!is_strong_enough(""));
}

#[test]
fn test_refresh_token_request() {
    let request = |grant: &str, token: &str| RefreshTokenRequest {
        grant_type: grant.to_string(),
        refresh_token: token.to_string(),
    };
    assert_eq!(kind(request("refresh_token", "t").validate()), "ok");
    assert_eq!(kind(request("refresh_token", "").validate()), "InvalidRefreshToken");
    assert_eq!(kind(request("password", "t").validate()), "InvalidRefreshToken");
    assert_eq!(kind(request("Refresh_token", "t").validate()), "InvalidRefreshToken");
    assert_eq!(kind(request("", "").validate()), "InvalidRefreshToken");
}

#[test]
fn test_token_validate_request() {
    let check = |token: &str| kind(TokenValidateRequest { token: token.to_string() }.validate());
    assert_eq!(check("a.b.c"), "ok");
    assert_eq!(check(".."), "ok");
    assert_eq!(check(""), "MissingToken");
    assert_eq!(check("a.b"), "InvalidToken");
    assert_eq!(check("a.b.c.d"), "InvalidToken");
    assert_eq!(check("abc"), "InvalidToken");
    assert!(is_three_parts("x.y.z"));
    assert!(!is_three_parts("x.y.z."));
}

#[test]
fn test_create_user_request() {
    let request = |name: &str, email: &str, id: &str, organization: &str, roles: Vec<Role>| {
        CreateUserRequest {
            user_name: name.to_string(),
            email: email.to_string(),
            organization_id: id.to_string(),
            organization_name: organization.to_string(),
            roles,
        }
    };
    assert_eq!(kind(request("Bob", "b@c.de", "o-1", "Org", vec![Role::Reader]).validate()), "ok");
    assert_eq!(kind(request("", "", "", "", vec![]).validate()), "InvalidUsername");
    assert_eq!(kind(request("Bob", "", "", "", vec![]).validate()), "InvalidEmail");
    assert_eq!(kind(request("Bob", "b@c.de", "", "", vec![]).validate()), "MissingOrganizationId");
    assert_eq!(kind(request("Bob", "b@c.de", "o", "", vec![]).validate()), "InvalidOrganizationName");
    assert_eq!(kind(request("Bob", "b@c.de", "o", "Org", vec![]).validate()), "MissingRoles");
}

#[test]
fn test_update_user_request() {
    let request = |name: &str, organization: &str| UpdateUserRequest {
        user_name: name.to_string(),
        organization_name: organization.to_string(),
        roles: vec![],
    };
    assert_eq!(kind(request("Bob", "Org").validate()), "ok");
    assert_eq!(kind(request("Bob ", "Org").validate()), "InvalidUsername");
    assert_eq!(kind(request("Bob", "O").validate()), "InvalidOrganizationName");
    assert_eq!(kind(request("-", "").validate()), "InvalidUsername");
}

#[test]
fn test_events() {
    let ids = LambdaEventRequestHandler::get_ids_from_request_context(
        Some("u".to_string()),
        Some("o".to_string()),
    );
    assert_eq!(ids.unwrap(), ("u".to_string(), "o".to_string()));
    let message = |r: Result<(String, String), LambdaError>| r.unwrap_err().to_string();
    assert_eq!(
        message(LambdaEventRequestHandler::get_ids_from_request_context(None, Some("o".to_string()))),
        "Internal server error: missing user id"
    );
    assert_eq!(
        message(LambdaEventRequestHandler::get_ids_from_request_context(None, None)),
        "Internal server error: missing user id"
    );
    assert_eq!(
        message(LambdaEventRequestHandler::get_ids_from_request_context(Some("u".to_string()), None)),
        "Internal server error: missing organization id"
    );

    assert_eq!(LambdaEventRequestHandler::handle_requests(Some("/login"), "/login"), Routing::Handle);
    assert_eq!(LambdaEventRequestHandler::handle_requests(Some("/login/"), "/login"), Routing::NotFound);
    assert_eq!(LambdaEventRequestHandler::handle_requests(Some(""), "/login"), Routing::NotFound);
    assert_eq!(LambdaEventRequestHandler::handle_requests(None, "/login"), Routing::NotFound);
    let not_found = LambdaEventRequestHandler::not_found();
    assert_eq!(not_found.status_code, 404);
    assert_eq!(not_found.body.unwrap(), "Not Found");
    assert!(not_found.headers.is_empty());

    let response = apigw_response(200, Some("{}".to_string()), None);
    assert_eq!((response.status_code, response.body.as_deref(), response.headers.len()), (200, Some("{}"), 0));
    let headers = vec![Header { name: "user_id".to_string(), value: "u".to_string() }];
    let response = apigw_response(201, None, Some(headers));
    assert_eq!(response.status_code, 201);
    assert!(response.body.is_none());
    assert_eq!(response.headers[0].name, "user_id");
    assert_eq!(response.headers[0].value, "u");

    assert_eq!(require_body(Some("b".to_string())).unwrap(), "b");
    assert!(matches!(require_body(None), Err(LambdaError::MissingBody)));
}

struct Oops;

impl ToLambdaError for Oops {
    fn to_lambda_error(self) -> LambdaError {
        LambdaError::InternalError("oops".to_string())
    }
}

#[test]
fn test_to_lambda_error() {
    assert_eq!(Oops.to_lambda_error().to_string(), "Internal server error: oops");
}

#[test]
fn test_text() {
    assert_eq!(chars_of("aé田"), vec!['a', 'é', '田']);
    assert!(str_eq("田中", "田中") && !str_eq("a", "A") && str_eq("", ""));
    for (hay, needle) in [("", ""), ("abc", ""), ("abc", "abc"), ("abc", "bc"), ("aab", "ab"), ("田中太郎", "太")] {
        assert!(contains(hay, needle), "{:?} {:?}", hay, needle);
    }
    for (hay, needle) in [("", "a"), ("abc", "abcd"), ("abc", "ac"), ("abc", "cb"), ("ab", "aab")] {
        assert!(!contains(hay, needle), "{:?} {:?}", hay, needle);
    }
    for text in ["", " ", "  a b \t", "a", "\u{3000}x\u{a0}", "\n\r\u{85}\u{2028}y z\u{205f}", "\u{200b}"] {
        let chars = chars_of(text);
        let (a, b) = trim_bounds(&chars, 0, chars.len());
        let trimmed: String = chars[a..b].iter().collect();
        assert_eq!(trimmed, text.trim(), "{:?}", text);
    }
    for n in 0u32..0x11_0000 {
        if let Some(c) = char::from_u32(n) {
            let chars = vec![c];
            let (a, b) = trim_bounds(&chars, 0, 1);
            assert_eq!(a == b, c.is_whitespace(), "{:x}", n);
            assert_eq!(decimal_digit(c), c.is_digit(10) && c.is_ascii());
        }
    }
    assert_eq!(join_strs(&vec![], ", "), "");
    assert_eq!(join_strs(&vec!["a"], ", "), "a");
    assert_eq!(join_strs(&vec!["a", "b", "c"], ", "), "a, b, c");
}
