use sealed_config::configs::Module;
use sealed_config::parsers::headers::{extract_bearer_token, get_bearer_token, get_range, RangeError};
use sealed_config::placeholders::Account;
use sealed_config::traits::IsEmpty;
use sealed_config::validators::Validator;
use sealed_config::{ErrorKind, Errors, Payload, TokenKind};

#[test]
fn validator_defaults() {
    let validator = Validator::builder();
    assert_eq!(validator.empty, "");
    assert_eq!(validator.invalid, "");
    assert_eq!(validator.min_length, None);
    assert_eq!(validator.validate_string(""), "Field is empty");
    assert_eq!(validator.validate_string("x"), "");
    assert_eq!(validator.validate_string_option(None), Some("Field is empty".to_string()));
    assert_eq!(validator.validate_string_option(Some("x")), None);
}

#[test]
fn validator_messages_stand_in_for_each_other() {
    let mut validator = Validator::builder();
    validator.set_min_length(3);
    assert_eq!(validator.validate_string("ab"), "Field is invalid");
    validator.set_empty("Name is required");
    assert_eq!(validator.validate_string(""), "Name is required");
    assert_eq!(validator.validate_string("ab"), "Name is required");
    let mut validator = Validator::builder();
    validator.set_invalid("Name is too short").set_min_length(3);
    assert_eq!(validator.validate_string(""), "Name is too short");
    assert_eq!(validator.validate_string("ab"), "Name is too short");
    validator.set_empty("Name is required");
    assert_eq!(validator.validate_string(""), "Name is required");
    assert_eq!(validator.validate_string("ab"), "Name is too short");
    assert_eq!(validator.validate_string("abc"), "");
    assert_eq!(validator.validate_string_option(Some("ab")), Some("Name is too short".to_string()));
    assert_eq!(validator.validate_string_option(Some("")), Some("Name is required".to_string()));
}

#[test]
fn validator_counts_bytes() {
    let mut validator = Validator::builder();
    validator.set_min_length(4);
    assert_eq!(validator.validate_string("äö"), "");
    assert_eq!(validator.validate_string("abc"), "Field is invalid");
    assert_eq!(validator.min_length, Some(4));
}

#[test]
fn validator_setters_chain() {
    let mut validator = Validator::builder();
    validator.set_empty("e").set_invalid("i").set_min_length(2);
    assert_eq!(validator.empty, "e");
    assert_eq!(validator.invalid, "i");
    assert_eq!(validator.min_length, Some(2));
}

#[test]
fn accounts_by_name() {
    assert_eq!(Account::new("manual"), Account::Manual);
    assert_eq!(Account::new("FACEBOOK"), Account::Facebook);
    assert_eq!(Account::new("Google"), Account::Google);
    assert_eq!(Account::new("twitter"), Account::Twitter);
    assert_eq!(Account::new("LinkedIn"), Account::Linkedin);
    assert_eq!(Account::new("apple"), Account::Apple);
    assert_eq!(Account::new("Instagram"), Account::Instagram);
    assert_eq!(Account::new("GitHub"), Account::String("GitHub".to_string()));
    assert_eq!(Account::named("google", "x"), Account::Google);
    assert_eq!(Account::named("Google", "x"), Account::String("x".to_string()));
}

#[test]
fn accounts_to_text_and_option() {
    assert_eq!(Account::Manual.to_string(), "MANUAL");
    assert_eq!(Account::Facebook.to_string(), "FACEBOOK");
    assert_eq!(Account::Google.to_string(), "GOOGLE");
    assert_eq!(Account::Twitter.to_string(), "TWITTER");
    assert_eq!(Account::Linkedin.to_string(), "LINKEDIN");
    assert_eq!(Account::Apple.to_string(), "APPLE");
    assert_eq!(Account::Instagram.to_string(), "INSTAGRAM");
    assert_eq!(Account::String("GitHub".to_string()).to_string(), "GitHub");
    assert!(Account::new("").is_empty());
    assert!(!Account::Manual.is_empty());
    assert_eq!(Account::new("").to_option(), None);
    assert_eq!(Account::Google.to_option(), Some(Account::Google));
}

#[test]
fn modules_by_tag() {
    assert_eq!(Module::Base.to_string(), "BASE");
    assert_eq!(Module::Mailer.to_string(), "MAILER");
    assert_eq!(Module::Paseto.to_string(), "PASETO");
    assert_eq!(Module::S3.to_string(), "S3");
    assert_eq!(Module::parse("base"), Some(Module::Base));
    assert_eq!(Module::parse("MAILER"), Some(Module::Mailer));
    assert_eq!(Module::parse("Paseto"), Some(Module::Paseto));
    assert_eq!(Module::parse("s3"), Some(Module::S3));
    assert_eq!(Module::parse("s4"), None);
    assert_eq!(Module::named("BASE"), None);
}

#[test]
fn errors_have_codes_and_texts() {
    assert_eq!(Errors::BadRequest.code(), Some(400));
    assert_eq!(Errors::Unauthorized.code(), Some(401));
    assert_eq!(Errors::PaymentRequired.code(), Some(402));
    assert_eq!(Errors::Forbidden.code(), Some(403));
    assert_eq!(Errors::NotFound.code(), Some(404));
    assert_eq!(Errors::InternalServerError(String::new()).code(), Some(500));
    assert_eq!(Errors::ErrorWithoutExtensions.code(), None);
    assert_eq!(Errors::BadRequest.to_string(), "Bad Request");
    assert_eq!(Errors::Unauthorized.to_string(), "Unauthorized");
    assert_eq!(Errors::PaymentRequired.to_string(), "Payment Required");
    assert_eq!(Errors::Forbidden.to_string(), "Forbidden");
    assert_eq!(Errors::NotFound.to_string(), "Resource Not Found");
    assert_eq!(Errors::InternalServerError("x".to_string()).to_string(), "Internal Server Error");
    assert_eq!(Errors::ErrorWithoutExtensions.to_string(), "No Extensions");
    assert_eq!(Errors::InternalServerError("disk".to_string()).reason(), Some("disk".to_string()));
    assert_eq!(Errors::InternalServerError(String::new()).reason(), None);
    assert_eq!(Errors::NotFound.reason(), None);
}

#[test]
fn payload_constructors() {
    let payload = Payload::success("done");
    assert_eq!(payload.code, Some(200));
    assert_eq!(payload.message, Some("done".to_string()));
    let payload = Payload::data(201, "{\"id\":1}".to_string());
    assert_eq!(payload.code, Some(201));
    assert_eq!(payload.data, Some("{\"id\":1}".to_string()));
    assert_eq!(Payload::data(65_536 + 7, String::new()).code, Some(7));
    let payload = Payload::errors("[\"a\"]".to_string());
    assert_eq!(payload.code, Some(400));
    assert_eq!(payload.errors, Some("[\"a\"]".to_string()));
    let payload = Payload::not_found();
    assert_eq!(payload.code, Some(404));
    assert_eq!(payload.error, Some("Not Found".to_string()));
}

#[test]
fn payload_error_codes() {
    assert_eq!(Payload::error("Your authentication token has expired").code, Some(401));
    assert_eq!(Payload::error("YOUR AUTHENTICATION TOKEN HAS EXPIRED").code, Some(401));
    assert_eq!(Payload::error("Your refresh token has expired").code, Some(400));
    assert_eq!(Payload::error("Invalid authentication token").code, Some(400));
    let payload = Payload::error("Unable to decrypt content");
    assert_eq!(payload.error, Some("Unable to decrypt content".to_string()));
    assert_eq!(payload.message, None);
    assert_eq!(Payload::failure("your authentication token has expired", "x").code, Some(401));
}

#[test]
fn payload_statuses() {
    let with = |code: Option<u16>, challenge: Option<&str>| Payload {
        code,
        challenge: challenge.map(|c| c.to_string()),
        message: None,
        data: None,
        error: None,
        errors: None,
    };
    assert_eq!(with(Some(200), None).respond_status(), 200);
    assert_eq!(with(Some(401), None).respond_status(), 401);
    assert_eq!(with(Some(403), None).respond_status(), 400);
    assert_eq!(with(Some(404), None).respond_status(), 404);
    assert_eq!(with(Some(500), None).respond_status(), 500);
    assert_eq!(with(Some(201), None).respond_status(), 400);
    assert_eq!(with(None, None).respond_status(), 400);
    assert_eq!(with(None, Some("")).respond_status(), 400);
    assert_eq!(with(None, Some("abc")).respond_status(), 200);
    assert_eq!(with(Some(403), None).error_response_status(), 403);
    assert_eq!(with(Some(405), None).error_response_status(), 405);
    assert_eq!(with(Some(402), None).error_response_status(), 400);
    assert_eq!(with(None, Some("abc")).error_response_status(), 200);
    assert_eq!(with(Some(200), None).status_code(), 200);
    assert_eq!(with(Some(400), None).status_code(), 400);
    assert_eq!(with(Some(401), None).status_code(), 401);
    assert_eq!(with(Some(403), None).status_code(), 403);
    assert_eq!(with(Some(404), None).status_code(), 404);
    assert_eq!(with(Some(405), None).status_code(), 405);
    assert_eq!(with(Some(500), None).status_code(), 500);
    assert_eq!(with(None, Some("abc")).status_code(), 500);
}

#[test]
fn range_headers() {
    assert_eq!(get_range("bytes=0-499"), Ok((0, 499)));
    assert_eq!(get_range("bytes=500-+999"), Ok((500, 999)));
    assert_eq!(get_range("bytes=007-8"), Ok((7, 8)));
    assert_eq!(get_range("items=0-499"), Err(RangeError::Prefix));
    assert_eq!(get_range("bytes"), Err(RangeError::Prefix));
    assert_eq!(get_range(""), Err(RangeError::Prefix));
    assert_eq!(get_range("Bytes=0-1"), Err(RangeError::Prefix));
    assert_eq!(get_range("bytes=0"), Err(RangeError::Format));
    assert_eq!(get_range("bytes="), Err(RangeError::Format));
    assert_eq!(get_range("bytes=0-1-2"), Err(RangeError::Format));
    assert_eq!(get_range("bytes=-5"), Err(RangeError::Number));
    assert_eq!(get_range("bytes=5-"), Err(RangeError::Number));
    assert_eq!(get_range("bytes=a-b"), Err(RangeError::Number));
    assert_eq!(get_range("bytes=0- 1"), Err(RangeError::Number));
    assert_eq!(get_range("bytes=0-99999999999999999999999"), Err(RangeError::Number));
    assert_eq!(RangeError::Prefix.message(), "Range header doesn't start with 'bytes='");
    assert_eq!(RangeError::Format.message(), "Range header has an invalid format");
}

#[test]
fn bearer_tokens() {
    assert_eq!(extract_bearer_token("Bearer abc.def"), Some("abc.def".to_string()));
    assert_eq!(extract_bearer_token("Bearer   abc  "), Some("abc".to_string()));
    assert_eq!(extract_bearer_token("Bearer "), None);
    assert_eq!(extract_bearer_token("Bearer    "), None);
    assert_eq!(extract_bearer_token("bearer abc"), None);
    assert_eq!(extract_bearer_token("Basic abc"), None);
    assert_eq!(extract_bearer_token("Bearer"), None);
    assert_eq!(extract_bearer_token(""), None);
    assert_eq!(extract_bearer_token("Bearer tökén"), Some("tökén".to_string()));
    assert_eq!(get_bearer_token(Some("Bearer abc")).unwrap().to_string(), "abc");
    assert!(get_bearer_token(Some("abc")).is_none());
    assert!(get_bearer_token(None).is_none());
}

#[test]
fn rejections_carry_the_notice() {
    let expired = Payload::rejection(TokenKind::Access, ErrorKind::TokenExpired);
    assert_eq!(expired.code, Some(401));
    assert_eq!(expired.error, Some("Your authentication token has expired".to_string()));
    let kinds = [TokenKind::Access, TokenKind::Refresh, TokenKind::Web];
    let errors = [
        ErrorKind::KeyUnavailable,
        ErrorKind::NotReady,
        ErrorKind::CipherFailure,
        ErrorKind::TokenExpired,
        ErrorKind::TokenInvalid,
        ErrorKind::ClaimsShapeMismatch,
    ];
    for kind in kinds {
        for error in errors {
            assert_eq!(Payload::rejection(kind, error), Payload::error(error.notice(kind)));
        }
    }
    assert_eq!(ErrorKind::TokenExpired.notice(TokenKind::Refresh), "Your refresh token has expired");
    assert_eq!(ErrorKind::TokenInvalid.notice(TokenKind::Refresh), "Invalid refresh token");
    assert_eq!(ErrorKind::TokenInvalid.notice(TokenKind::Access), "Invalid authentication token");
    assert_eq!(ErrorKind::KeyUnavailable.notice(TokenKind::Web), "Decryption failed");
    assert_eq!(ErrorKind::CipherFailure.notice(TokenKind::Web), "Decryption failed");
    assert_eq!(ErrorKind::TokenInvalid.notice(TokenKind::Web), "Invalid authentication token");
}
