use sealed_config::ciphers::decrypt;
use sealed_config::clock::Timestamp;
use sealed_config::paseto::durations::{expiration_from, read_field, Duration, Span};
use sealed_config::paseto::wire::{has_body, is_expiry_notice, judge, TokenCheck, TokenRequest};
use sealed_config::{BearerToken, Cipher, ErrorKind, IssueError, Keystore, Paseto, Role, Token};
use sealed_config::TokenKind;

const MASTER: &str = "AAECAwQFBgcICQoLDA0ODxAREhMUFRYXGBkaGxwdHh8";
const WEB: &str = "ICEiIyQlJicoKSorLC0uLzAxMjM0NTY3ODk6Ozw9Pj8";
const ACCESS: &str = "QEFCQ0RFRkdISUpLTE1OT1BRUlNUVVZXWFlaW1xdXl8";
const REFRESH: &str = "YGFiY2RlZmdoaWprbG1ub3BxcnN0dXZ3eHl6e3x9fn8";
const CLAIMS: &str = "{\"id\":1,\"name\":\"x\"}";

fn keys() -> Keystore {
    Keystore::new(Some(MASTER.to_string()), Some(WEB.to_string()))
}

fn sealed(text: &str) -> Option<Cipher> {
    Some(Cipher::new(text).encrypt_master(&keys()).unwrap())
}

fn plain(text: &str) -> Option<Cipher> {
    Some(Cipher::new(text))
}

fn paseto(unit: &str, time: &str) -> Paseto {
    Paseto {
        app_name: plain("shop"),
        access_token_key_unit: plain(unit),
        access_token_key_time: plain(time),
        access_token_key_signing: plain(ACCESS),
        refresh_token_key_unit: plain(unit),
        refresh_token_key_time: plain(time),
        refresh_token_key_signing: plain(REFRESH),
    }
}

#[test]
fn two_weeks_are_fourteen_days() {
    let duration = Paseto::get_duration(&plain("2"), &plain("weeks"), 5, &keys());
    assert_eq!(duration, Duration { amount: 2, span: Span::Weeks });
    assert_eq!(duration.in_seconds(), Some(14 * 24 * 60 * 60));
    assert_eq!(Duration::from_text("2", "weeks", 5).in_seconds(), Some(1_209_600));
    let none = Keystore::new(None, None);
    assert_eq!(Paseto::get_duration(&plain("2"), &plain("weeks"), 5, &none), duration);
}

#[test]
fn sealed_lifetime_fields_are_opened() {
    let duration = Paseto::get_duration(&sealed("2"), &sealed("weeks"), 5, &keys());
    assert_eq!(duration, Duration { amount: 2, span: Span::Weeks });
    let mixed = Paseto::get_duration(&sealed("3"), &plain("Days"), 5, &keys());
    assert_eq!(mixed, Duration { amount: 3, span: Span::Days });
}

#[test]
fn opened_record_has_its_configured_lifetime() {
    let mut fresh = Paseto::from("shop".to_string());
    fresh.access_token_key_unit = plain("2");
    fresh.access_token_key_time = plain("Weeks");
    let stored = sealed_config::traits::Encrypt::encrypt(&fresh, &keys()).unwrap();
    let opened = sealed_config::traits::Decrypt::decrypt(&stored, &keys()).unwrap();
    let at = Timestamp { seconds: 1_700_000_000, nanos: 0 };
    let request = opened.access_request(at, "a", CLAIMS, &keys()).unwrap();
    assert_eq!(request.expiry, Timestamp { seconds: 1_700_000_000 + 1_209_600, nanos: 0 });
    let request = opened.refresh_request(at, "a", CLAIMS, &keys()).unwrap();
    assert_eq!(request.expiry, Timestamp { seconds: 1_700_000_000 + 1_800, nanos: 0 });
}

#[test]
fn unreadable_count_falls_back_to_the_minimum() {
    assert_eq!(Duration::from_text("soon", "hours", 5), Duration { amount: 5, span: Span::Hours });
    assert_eq!(Duration::from_text("", "hours", 30), Duration { amount: 30, span: Span::Hours });
    assert_eq!(Duration::from_text("1.5", "days", -3), Duration { amount: 0, span: Span::Days });
    assert_eq!(Duration::from_text(" 7", "days", 5), Duration { amount: 5, span: Span::Days });
    assert_eq!(
        Duration::from_text("99999999999999999999", "days", 5),
        Duration { amount: 5, span: Span::Days }
    );
    let duration = Paseto::get_duration(&sealed("x"), &sealed("days"), 5, &keys());
    assert_eq!(duration, Duration { amount: 5, span: Span::Days });
    let duration = Paseto::get_duration(&plain("x"), &plain("days"), 30, &keys());
    assert_eq!(duration, Duration { amount: 30, span: Span::Days });
}

#[test]
fn counts_are_signed_decimals() {
    assert_eq!(Duration::from_text("-1", "minutes", 5).amount, -1);
    assert_eq!(Duration::from_text("+15", "minutes", 5).amount, 15);
    assert_eq!(Duration::from_text("007", "minutes", 5).amount, 7);
    assert_eq!(Duration::from_text("-", "minutes", 5).amount, 5);
    assert_eq!(Duration::from_text("9223372036854775807", "minutes", 5).amount, i64::MAX);
    assert_eq!(Duration::from_text("-9223372036854775808", "minutes", 5).amount, i64::MIN);
    assert_eq!(Duration::from_text("9223372036854775808", "minutes", 5).amount, 5);
}

#[test]
fn spans_are_named_in_any_case() {
    assert_eq!(Duration::from_text("1", "Minutes", 5).span, Span::Minutes);
    assert_eq!(Duration::from_text("1", "HOURS", 5).span, Span::Hours);
    assert_eq!(Duration::from_text("1", "dAyS", 5).span, Span::Days);
    assert_eq!(Duration::from_text("1", "Weeks", 5).span, Span::Weeks);
    assert_eq!(Duration::from_text("1", "months", 5).span, Span::Months);
    assert_eq!(Duration::from_text("1", "years", 5).span, Span::Minutes);
    assert_eq!(Duration::from_text("1", "", 5).span, Span::Minutes);
    assert_eq!(Span::named("weeks"), Span::Weeks);
    assert_eq!(Span::named("Weeks"), Span::Minutes);
}

#[test]
fn spans_in_seconds() {
    assert_eq!(Span::Minutes.in_seconds(), 60);
    assert_eq!(Span::Hours.in_seconds(), 3_600);
    assert_eq!(Span::Days.in_seconds(), 86_400);
    assert_eq!(Span::Weeks.in_seconds(), 604_800);
    assert_eq!(Span::Months.in_seconds(), 30 * 86_400);
    assert_eq!(Duration { amount: 3, span: Span::Months }.in_seconds(), Some(7_776_000));
    assert_eq!(Duration { amount: i64::MAX, span: Span::Minutes }.in_seconds(), None);
    assert_eq!(Duration::counted(None, "days", 30), Duration { amount: 30, span: Span::Days });
    assert_eq!(Duration::counted(Some(-2), "days", 30), Duration { amount: -2, span: Span::Days });
}

#[test]
fn lifetime_fields_read_as_their_plain_content() {
    assert_eq!(read_field(&plain("2"), &keys()), "2");
    assert_eq!(read_field(&None, &keys()), "");
    assert_eq!(read_field(&sealed("2"), &keys()), "2");
    let unopened = sealed("2");
    let text = read_field(&unopened, &Keystore::new(None, None));
    assert_eq!(text, unopened.unwrap().to_string());
    let duration = Paseto::get_duration(&None, &None, 5, &keys());
    assert_eq!(duration, Duration { amount: 5, span: Span::Minutes });
}

#[test]
fn expiry_is_now_plus_lifetime() {
    let now = Timestamp { seconds: 1_700_000_000, nanos: 123 };
    let five = Duration { amount: 5, span: Span::Minutes };
    assert_eq!(expiration_from(now, &five), Timestamp { seconds: 1_700_000_300, nanos: 123 });
    let back = Duration { amount: -1, span: Span::Days };
    assert_eq!(expiration_from(now, &back), Timestamp { seconds: 1_699_913_600, nanos: 123 });
    let year = Duration { amount: 12, span: Span::Months };
    assert_eq!(expiration_from(now, &year), Timestamp { seconds: 1_731_104_000, nanos: 123 });
    let start = Timestamp { seconds: 0, nanos: 0 };
    let end = Duration { amount: 253_402_300_799 / 60, span: Span::Minutes };
    assert_eq!(expiration_from(start, &end), Timestamp { seconds: 253_402_300_740, nanos: 0 });
    let far = Duration { amount: i64::MAX, span: Span::Weeks };
    assert_eq!(expiration_from(now, &far), Timestamp { seconds: 0, nanos: 0 });
    let beyond = Duration { amount: 400_000 * 366, span: Span::Days };
    assert_eq!(expiration_from(now, &beyond), Timestamp::default());
}

#[test]
fn advertised_expiry_lies_ahead() {
    let before = Paseto::get_expiration_date(&Duration { amount: 0, span: Span::Minutes });
    let settings = paseto("5", "minutes");
    let access = settings.get_access_token_expiry(&keys());
    let refresh = Paseto::from("shop".to_string()).get_refresh_token_expiry(&keys());
    let after = Paseto::get_expiration_date(&Duration { amount: 0, span: Span::Minutes });
    assert!(before.seconds + 300 <= access.seconds && access.seconds <= after.seconds + 300);
    assert!(before.seconds + 1800 <= refresh.seconds && refresh.seconds <= after.seconds + 1800);
}

#[test]
fn issued_tokens_have_the_form_of_local_tokens() {
    let settings = paseto("5", "minutes");
    let tokens = settings.generate_tokens("actor-1", CLAIMS, &keys()).unwrap();
    // "key-id:shop" in unpadded base64url.
    let tail = ".a2V5LWlkOnNob3A";
    for token in [&tokens.access, &tokens.refresh] {
        assert!(token.starts_with("v2.local."));
        assert!(token.ends_with(tail));
        let body = &token[9..token.len() - tail.len()];
        assert!(body.len() >= 54 && !body.contains('.'));
        assert!(has_body(token));
    }
    assert!(settings.access_check(&tokens.access).is_ok());
    assert!(settings.refresh_check(&tokens.refresh).is_ok());
    assert!(!tokens.web.is_empty() && !tokens.web.contains('='));
    // 24 + 19 + 16 = 59 bytes are 79 characters.
    assert_eq!(tokens.web.len(), 79);
}

#[test]
fn issued_tokens_validate() {
    let settings = paseto("5", "minutes");
    let tokens = settings.generate_tokens("actor-1", CLAIMS, &keys()).unwrap();
    assert!(tokens.access.starts_with("v2.local."));
    assert!(tokens.refresh.starts_with("v2.local."));
    assert_ne!(tokens.access, tokens.refresh);
    assert_eq!(settings.validate_access_token(&tokens.access).unwrap(), CLAIMS);
    assert_eq!(settings.validate_refresh_token(&tokens.refresh).unwrap(), CLAIMS);
    assert_eq!(settings.validate_web_token(&tokens.web, &keys()).unwrap(), CLAIMS);
    assert_eq!(decrypt(&tokens.web, Role::Web, &keys()).unwrap(), CLAIMS);
}

#[test]
fn expired_tokens_are_reported_as_expired() {
    let settings = paseto("-1", "minutes");
    let tokens = settings.generate_tokens("actor-1", CLAIMS, &keys()).unwrap();
    assert_eq!(settings.validate_access_token(&tokens.access).unwrap_err(), ErrorKind::TokenExpired);
    assert_eq!(
        settings.validate_refresh_token(&tokens.refresh).unwrap_err(),
        ErrorKind::TokenExpired
    );
}

#[test]
fn wrong_signing_key_is_invalid() {
    let settings = paseto("5", "minutes");
    let tokens = settings.generate_tokens("actor-1", CLAIMS, &keys()).unwrap();
    assert_eq!(settings.validate_access_token(&tokens.refresh).unwrap_err(), ErrorKind::TokenInvalid);
    assert_eq!(settings.validate_refresh_token(&tokens.access).unwrap_err(), ErrorKind::TokenInvalid);
    let expired = paseto("-1", "minutes").generate_tokens("actor-1", CLAIMS, &keys()).unwrap();
    assert_eq!(settings.validate_access_token(&expired.refresh).unwrap_err(), ErrorKind::TokenInvalid);
}

#[test]
fn wrong_footer_is_invalid() {
    let settings = paseto("5", "minutes");
    let tokens = settings.generate_tokens("actor-1", CLAIMS, &keys()).unwrap();
    let mut other = paseto("5", "minutes");
    other.app_name = Some(Cipher::new("other"));
    assert_eq!(other.validate_access_token(&tokens.access).unwrap_err(), ErrorKind::TokenInvalid);
    assert_eq!(other.validate_refresh_token(&tokens.refresh).unwrap_err(), ErrorKind::TokenInvalid);
}

#[test]
fn malformed_tokens_are_invalid() {
    let settings = paseto("5", "minutes");
    for token in ["", "v2.local.", "v2.local.AAAA", "v2.local.AAAA.a2V5LWlkOnNob3A", "garbage", "a.b.c.d"] {
        assert_eq!(settings.validate_access_token(token).unwrap_err(), ErrorKind::TokenInvalid);
        assert_eq!(settings.validate_refresh_token(token).unwrap_err(), ErrorKind::TokenInvalid);
    }
    let long = format!("v2.local.{}.a2V5LWlkOnNob3A", "A".repeat(60));
    assert_eq!(settings.validate_access_token(&long).unwrap_err(), ErrorKind::TokenInvalid);
}

#[test]
fn validation_needs_key_and_name() {
    let mut settings = paseto("5", "minutes");
    let tokens = settings.generate_tokens("actor-1", CLAIMS, &keys()).unwrap();
    settings.app_name = None;
    assert_eq!(settings.validate_access_token(&tokens.access).unwrap_err(), ErrorKind::TokenInvalid);
    let mut settings = paseto("5", "minutes");
    settings.access_token_key_signing = None;
    settings.refresh_token_key_signing = None;
    assert_eq!(settings.validate_access_token(&tokens.access).unwrap_err(), ErrorKind::TokenInvalid);
    assert_eq!(settings.validate_refresh_token(&tokens.refresh).unwrap_err(), ErrorKind::TokenInvalid);
    settings.access_token_key_signing = Some(Cipher::new("not base64 !"));
    settings.refresh_token_key_signing = Some(Cipher::new("not base64 !"));
    assert_eq!(settings.validate_access_token(&tokens.access).unwrap_err(), ErrorKind::KeyUnavailable);
    assert_eq!(settings.validate_refresh_token(&tokens.refresh).unwrap_err(), ErrorKind::TokenInvalid);
}

#[test]
fn issuance_is_all_or_nothing() {
    let failed = |token, kind| IssueError { token, kind };
    let none = Keystore::new(Some(MASTER.to_string()), None);
    let settings = paseto("5", "minutes");
    assert_eq!(
        settings.generate_tokens("a", CLAIMS, &none).unwrap_err(),
        failed(Some(TokenKind::Web), ErrorKind::KeyUnavailable)
    );
    let mut broken = paseto("5", "minutes");
    broken.access_token_key_signing = None;
    assert_eq!(
        broken.generate_tokens("a", CLAIMS, &keys()).unwrap_err(),
        failed(Some(TokenKind::Access), ErrorKind::KeyUnavailable)
    );
    let mut broken = paseto("5", "minutes");
    broken.refresh_token_key_signing = Some(Cipher::new("AAAAAAAAAAAAAAAAAAAAAA"));
    assert_eq!(
        broken.generate_tokens("a", CLAIMS, &keys()).unwrap_err(),
        failed(Some(TokenKind::Refresh), ErrorKind::KeyUnavailable)
    );
    let mut broken = paseto("5", "minutes");
    broken.access_token_key_signing = Some(Cipher::new("%%%"));
    broken.refresh_token_key_signing = None;
    assert_eq!(
        broken.generate_tokens("a", CLAIMS, &none).unwrap_err(),
        failed(Some(TokenKind::Access), ErrorKind::KeyUnavailable)
    );
    assert_eq!(
        settings.generate_tokens("a", "{not json", &keys()).unwrap_err(),
        failed(None, ErrorKind::ClaimsShapeMismatch)
    );
    assert_eq!(failed(Some(TokenKind::Access), ErrorKind::KeyUnavailable).notice(), "Unable to generate access token");
    assert_eq!(failed(Some(TokenKind::Refresh), ErrorKind::CipherFailure).notice(), "Unable to generate refresh token");
    assert_eq!(failed(Some(TokenKind::Web), ErrorKind::KeyUnavailable).notice(), "Unable to generate web token");
    assert_eq!(failed(None, ErrorKind::ClaimsShapeMismatch).notice(), "Unable to generate tokens");
}

#[test]
fn web_token_holds_the_trimmed_claims() {
    let settings = paseto("5", "minutes");
    let tokens = settings.generate_tokens("a", "  {\"id\":1}\n", &keys()).unwrap();
    assert_eq!(settings.validate_web_token(&tokens.web, &keys()).unwrap(), "{\"id\":1}");
    assert_eq!(settings.validate_access_token(&tokens.access).unwrap(), "{\"id\":1}");
}

#[test]
fn web_token_validation_fails_closed() {
    let settings = paseto("5", "minutes");
    let tokens = settings.generate_tokens("a", CLAIMS, &keys()).unwrap();
    let none = Keystore::new(Some(MASTER.to_string()), None);
    assert_eq!(settings.validate_web_token(&tokens.web, &none).unwrap_err(), ErrorKind::KeyUnavailable);
    let swapped = Keystore::new(Some(WEB.to_string()), Some(MASTER.to_string()));
    assert_eq!(settings.validate_web_token(&tokens.web, &swapped).unwrap_err(), ErrorKind::TokenInvalid);
    assert_eq!(settings.validate_web_token("AAAA", &keys()).unwrap_err(), ErrorKind::TokenInvalid);
}

#[test]
fn verdict_on_what_verification_came_to() {
    assert_eq!(judge(Ok(Some("{}".to_string()))), Ok("{}".to_string()));
    assert_eq!(judge(Ok(None)), Err(ErrorKind::TokenInvalid));
    assert_eq!(
        judge(Err("This token is expired (EXP claim).".to_string())),
        Err(ErrorKind::TokenExpired)
    );
    assert_eq!(judge(Err("This token is invalid.".to_string())), Err(ErrorKind::TokenInvalid));
    assert_eq!(judge(Err(String::new())), Err(ErrorKind::TokenInvalid));
    assert!(is_expiry_notice("this token is expired (exp claim)."));
    assert!(!is_expiry_notice("This token is expired (EXP claim)."));
}

#[test]
fn body_floor_is_thirty_six_characters() {
    assert!(!has_body("v2.local"));
    assert!(!has_body("v2.local."));
    assert!(!has_body(&format!("v2.local.{}", "A".repeat(35))));
    assert!(has_body(&format!("v2.local.{}", "A".repeat(36))));
    assert!(has_body(&format!("v2.local.{}.Zm9v", "A".repeat(36))));
    assert!(!has_body(&format!("v2.local.{}.{}", "A".repeat(35), "A".repeat(40))));
    assert!(!has_body(&format!("v2{}", "A".repeat(80))));
}

#[test]
fn token_containers() {
    assert_eq!(Token::new(), Token::default());
    assert_eq!(Token::new().access, "");
    assert_eq!(Token::new().refresh, "");
    assert_eq!(Token::new().web, "");
    let bearer = BearerToken::new("abc");
    assert_eq!(bearer.0, "abc");
    assert_eq!(bearer.to_string(), "abc");
    assert_eq!(BearerToken::default().to_string(), "");
    assert_eq!(bearer.clone(), bearer);
}

#[test]
fn requests_fix_what_goes_into_a_token() {
    let at = Timestamp { seconds: 1_700_000_000, nanos: 9 };
    let settings = paseto("2", "hours");
    let access = settings.access_request(at, "actor-1", CLAIMS, &keys()).unwrap();
    let expected = TokenRequest {
        key: (64u8..96).collect(),
        expiry: Timestamp { seconds: 1_700_007_200, nanos: 9 },
        subject: "actor-1".to_string(),
        footer: "key-id:shop".to_string(),
        claims: CLAIMS.to_string(),
    };
    assert_eq!(access, expected);
    let refresh = settings.refresh_request(at, "actor-1", CLAIMS, &keys()).unwrap();
    assert_eq!(refresh.key, (96u8..128).collect::<Vec<u8>>());
    assert_eq!(refresh.expiry, expected.expiry);
    let fresh = Paseto::from("shop".to_string());
    let access = fresh.access_request(at, "a", CLAIMS, &keys()).unwrap();
    assert_eq!(access.expiry, Timestamp { seconds: 1_700_000_300, nanos: 9 });
    let refresh = fresh.refresh_request(at, "a", CLAIMS, &keys()).unwrap();
    assert_eq!(refresh.expiry, Timestamp { seconds: 1_700_001_800, nanos: 9 });
    let mut nameless = paseto("2", "hours");
    nameless.app_name = None;
    assert_eq!(nameless.access_request(at, "a", CLAIMS, &keys()).unwrap().footer, "key-id:");
    let mut keyless = paseto("2", "hours");
    keyless.access_token_key_signing = None;
    assert_eq!(keyless.access_request(at, "a", CLAIMS, &keys()).unwrap_err(), ErrorKind::KeyUnavailable);
    assert!(keyless.refresh_request(at, "a", CLAIMS, &keys()).is_ok());
}

#[test]
fn checks_fix_what_a_token_is_verified_against() {
    let settings = paseto("5", "minutes");
    let token = format!("v2.local.{}", "A".repeat(54));
    let check = settings.access_check(&token).unwrap();
    assert_eq!(check, TokenCheck { key: (64u8..96).collect(), footer: "key-id:shop".to_string() });
    let check = settings.refresh_check(&token).unwrap();
    assert_eq!(check, TokenCheck { key: (96u8..128).collect(), footer: "key-id:shop".to_string() });
    assert_eq!(settings.access_check("v2.local.AAAA").unwrap_err(), ErrorKind::TokenInvalid);
    assert_eq!(settings.refresh_check("v2.local.AAAA").unwrap_err(), ErrorKind::TokenInvalid);
    let mut bare = paseto("5", "minutes");
    bare.app_name = None;
    bare.refresh_token_key_signing = None;
    assert_eq!(bare.access_check(&token).unwrap_err(), ErrorKind::TokenInvalid);
    assert_eq!(bare.refresh_check(&token).unwrap_err(), ErrorKind::TokenInvalid);
    let mut nameless = paseto("5", "minutes");
    nameless.app_name = None;
    assert_eq!(nameless.refresh_check(&token).unwrap_err(), ErrorKind::TokenInvalid);
    let mut keyless = paseto("5", "minutes");
    keyless.refresh_token_key_signing = None;
    assert_eq!(keyless.refresh_check(&token).unwrap_err(), ErrorKind::TokenInvalid);
    bare.access_token_key_signing = Some(Cipher::new("***"));
    assert_eq!(bare.access_check(&token).unwrap_err(), ErrorKind::KeyUnavailable);
    bare.access_token_key_signing = None;
    assert_eq!(bare.access_check(&token).unwrap_err(), ErrorKind::TokenInvalid);
}
