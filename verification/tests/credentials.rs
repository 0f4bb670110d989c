use bufstack_backend::auth::{AuthInterceptor, AuthService};
use bufstack_backend::credentials::{
    caller_verdict, key_id, Claims, CredentialVerifier, ValidationFailure, VerifyStep,
};
use bufstack_backend::error::AuthError;
use bufstack_backend::greeter::{HelloRequest, HelloWorldServiceImpl};
use bufstack_backend::keyset::{KeySetCache, SigningKey};
use bufstack_backend::metadata::{HeaderValue, Request};
use bufstack_backend::status::Code;
use std::sync::{Arc, Mutex};

const HEADER: &str = r#"{"alg":"RS256","typ":"JWT","kid":"key-2024"}"#;
const HEADER_WITHOUT_KEY_ID: &str = r#"{"alg":"RS256","typ":"JWT"}"#;
const VALID_CLAIMS: &str = r#"{"iss":"https://clerk.bufstack.test","sub":"user_42","iat":1700000000,"nbf":1700000000,"exp":2147483647,"sid":"sess_1"}"#;
const EXPIRED_CLAIMS: &str = r#"{"iss":"https://clerk.bufstack.test","sub":"user_42","iat":1700000000,"nbf":1700000000,"exp":1700000100,"sid":"sess_1"}"#;

/// The modulus of the test key, base64url-encoded; its exponent is 65537.
fn modulus() -> String {
    [
        "zbykoruCm9xxrjHUHfJIHJAy4gXpEtq5i8Pg5q-GhPOa1rGPS1YilmmE4",
        "pwdaOCwTdzgY4DgmFNVvHmN0N1-DdAEH_vEM1V87rnFfgUa0ec1etsRcF",
        "zxgpEoJnDoNzLorZKGmDcpJbQLcsfd-8zXj2JL-iPwPD7WD5c6fldb-KZ",
        "CTPP2JH1ieSf2h2cX30p38vTE-CE7LRo5oyu2g7ktAlqUTMHXxAe_wiEU",
        "UDuhOZqqPjH16PXcPUICgZVpEm0dDm1W16vb6ylNaWghzGud0cQo6Bmj7",
        "JtUFNCZwYFf8JFe7UHBDfbLBWPJgTdijTqWSb3plWrLDKeLjC4Q5a484Q",
    ]
    .concat()
}

/// The test key's RS256 signature over the header and `VALID_CLAIMS`.
fn signature_of_valid() -> String {
    [
        "muNFmcWqtgPnH6EDCGmkOvuX5VwEKfyc29ce15N2bmcCkA-NiTVLF749x",
        "GMtWXi8csUPZKeaLdCSDwyfbvfWcytjRt_-Y4uSI18msotAvJZk-Su6x3",
        "kEEyo616bR62E5i752F-5CGu5rqanHvXyp_iASb-N4adgfCPlfRnqcsr2",
        "K8lksrZr0H9IyBfmAZK8AgYtfjTX_KVHFpIN28Nahk9ACRDBZjEd83MoP",
        "kXuAXA8IlaHgmJYj13UyAcJi3SR1IMuICrFAUw9pE4cKxNpRw46XG97pY",
        "cAUUR1VPt91p5M3olNJ97bwLD19XJdhRcrzIJ-GcMPdwIBbmXvB5zi3NA",
    ]
    .concat()
}

/// The test key's RS256 signature over the header and `EXPIRED_CLAIMS`.
fn signature_of_expired() -> String {
    [
        "dO36PFuHAkjWyD2CzbCraCs4fOr0OM9Wx4I4d7Sa0GYViqXOjBg732mBE",
        "65e1hQPzUL-lIPkRVkXGl_7fxa8JJaj7XvohMAwTWxEIzubZj_eJ2o7HM",
        "MB4nThcQhbRKeSOTvQ6g_I5aPrULWQAxGuQRFL3MgX4pvQRAYVSC9r2p5",
        "9WOlQxp3RhEqIIvdWmE3582HeKg1mbXEMr5yDxRncCDc-QRKnN5hKZfGC",
        "gLuEPC2tiK5sAxR7Q6ZPW0P722El1d2bLMMgqcHU5ijnCGWib4ZVYHb4W",
        "9tyHZeMXT80li008S9w_TmgZ1MCLK1t1Urej1nvh1LRZKSQLhmML0lJ8Q",
    ]
    .concat()
}

/// The test key's RS256 signature over `HEADER_WITHOUT_KEY_ID` and `VALID_CLAIMS`.
fn signature_without_key_id() -> String {
    [
        "FvkBiMpvzlwtmUjfCxI7_TK05dzP9D9zkm1o6mSa7Y0TaxjQU4cLcIg9b",
        "6JkGYTfFVsSTcBQJLDufu_rBCcbO1U4yy0s_ntkSukLE8FtAbWBGq43I-",
        "mrLFGrmyr1rMhyjgW5gwRZg7D2zmnpJuH_JOexED4cdTdg1kR2_kJXWFA",
        "gqGHHp-yzSnc-VnPXZQwGxPrUQ57qXobetaUqpQSR8MzoBi0wff3NmJGe",
        "AfCWzC-efsOgMZXPwpqFZQd-0jBrPq90mPQcKSLCnJgDl8yGNKSrSuSQU",
        "h1GZ5s101OJLhuZF_gM68fNQsa__i-icoliFrgDsTdFMIVRT-VdHA5Ngg",
    ]
    .concat()
}

fn base64url(bytes: &[u8]) -> String {
    let alphabet = b"ABCDEFGHIJKLMNOPQRSTUVWXYZabcdefghijklmnopqrstuvwxyz0123456789-_";
    let mut text = String::new();
    for chunk in bytes.chunks(3) {
        let b0 = chunk[0] as usize;
        let b1 = *chunk.get(1).unwrap_or(&0) as usize;
        let b2 = *chunk.get(2).unwrap_or(&0) as usize;
        text.push(alphabet[b0 >> 2] as char);
        text.push(alphabet[(b0 & 3) << 4 | b1 >> 4] as char);
        if chunk.len() > 1 {
            text.push(alphabet[(b1 & 15) << 2 | b2 >> 6] as char);
        }
        if chunk.len() > 2 {
            text.push(alphabet[b2 & 63] as char);
        }
    }
    text
}

fn token(header: &str, claims: &str, signature: &str) -> String {
    format!("{}.{}.{}", base64url(header.as_bytes()), base64url(claims.as_bytes()), signature)
}

fn valid_token() -> String {
    token(HEADER, VALID_CLAIMS, &signature_of_valid())
}

fn expired_token() -> String {
    token(HEADER, EXPIRED_CLAIMS, &signature_of_expired())
}

fn forged_token() -> String {
    token(HEADER, VALID_CLAIMS, &signature_of_expired())
}

fn published_key() -> SigningKey {
    SigningKey {
        kid: "key-2024".to_string(),
        alg: "RS256".to_string(),
        kty: "RSA".to_string(),
        use_key: "sig".to_string(),
        n: modulus(),
        e: "AQAB".to_string(),
    }
}

fn other_key() -> SigningKey {
    let mut n = modulus();
    n.replace_range(10..11, if &n[10..11] == "A" { "B" } else { "A" });
    SigningKey { kid: "key-2023".to_string(), n, ..published_key() }
}

fn any_issuer() -> CredentialVerifier {
    CredentialVerifier::new(None)
}

fn issued_by(issuer: &str) -> CredentialVerifier {
    CredentialVerifier::new(Some(issuer.to_string()))
}

fn claims(subject: &str, issuer: &str) -> Claims {
    Claims { subject: subject.to_string(), issuer: issuer.to_string() }
}

fn invalid_reason(outcome: Result<String, AuthError>) -> String {
    match outcome {
        Err(AuthError::InvalidCredential { reason }) => reason,
        other => panic!("{:?}", other),
    }
}

#[test]
fn key_id_is_read_from_the_header() {
    assert_eq!(key_id(&valid_token()).unwrap(), "key-2024");
    assert_eq!(key_id(&expired_token()).unwrap(), "key-2024");
    assert_eq!(key_id(&forged_token()).unwrap(), "key-2024");
}

#[test]
fn token_without_a_key_id_is_malformed() {
    let unnamed = token(HEADER_WITHOUT_KEY_ID, VALID_CLAIMS, &signature_without_key_id());
    assert!(matches!(key_id(&unnamed), Err(AuthError::MalformedCredential)));
}

#[test]
fn token_that_is_no_token_is_malformed() {
    for text in ["", "opaque", "a.b", "a.b.c", "..", "a.b.c.d"] {
        assert!(matches!(key_id(text), Err(AuthError::MalformedCredential)), "{:?}", text);
    }
    let unknown_algorithm = token(r#"{"alg":"XX999","kid":"key-2024"}"#, VALID_CLAIMS, "sig");
    assert!(matches!(key_id(&unknown_algorithm), Err(AuthError::MalformedCredential)));
}

#[test]
fn valid_token_yields_its_subject() {
    assert_eq!(any_issuer().validate(&valid_token(), &published_key()).unwrap(), "user_42");
}

#[test]
fn expired_token_is_invalid() {
    let reason = invalid_reason(any_issuer().validate(&expired_token(), &published_key()));
    assert_eq!(reason, "Error: Invalid JWT! cause: ExpiredSignature");
}

#[test]
fn forged_token_is_invalid() {
    let reason = invalid_reason(any_issuer().validate(&forged_token(), &published_key()));
    assert_eq!(reason, "Error: Invalid JWT! cause: InvalidSignature");
}

#[test]
fn token_signed_with_another_key_is_invalid() {
    let reason = invalid_reason(any_issuer().validate(&valid_token(), &other_key()));
    assert_eq!(reason, "Error: Invalid JWT! cause: InvalidSignature");
}

#[test]
fn key_of_an_unsupported_algorithm_is_invalid() {
    let key = SigningKey { alg: "ES256".to_string(), ..published_key() };
    let reason = invalid_reason(any_issuer().validate(&valid_token(), &key));
    assert_eq!(reason, "Error: Unsupported key algorithm");
    let key = SigningKey { alg: "rs256".to_string(), ..published_key() };
    let reason = invalid_reason(any_issuer().validate(&valid_token(), &key));
    assert_eq!(reason, "Error: Unsupported key algorithm");
}

#[test]
fn key_that_cannot_be_decoded_is_invalid() {
    let key = SigningKey { n: "not base64!".to_string(), ..published_key() };
    let reason = invalid_reason(any_issuer().validate(&valid_token(), &key));
    assert_eq!(reason, "Error: Invalid decoding key");
}

#[test]
fn credential_outcome_keeps_the_subject_and_the_reason() {
    let verifier = any_issuer();
    assert_eq!(verifier.credential_outcome(Ok(claims("user_7", "anyone"))).unwrap(), "user_7");
    let unauthorized =
        verifier.credential_outcome(Err(ValidationFailure::Unauthorized("expired".to_string())));
    assert_eq!(invalid_reason(unauthorized), "expired");
    let internal =
        verifier.credential_outcome(Err(ValidationFailure::Internal("bad key".to_string())));
    assert_eq!(invalid_reason(internal), "bad key");
}

#[test]
fn credential_outcome_holds_claims_to_the_expected_issuer() {
    let verifier = issued_by("https://clerk.bufstack.test");
    let accepted = verifier.credential_outcome(Ok(claims("user_7", "https://clerk.bufstack.test")));
    assert_eq!(accepted.unwrap(), "user_7");
    for issuer in ["https://clerk.bufstack.test/", "https://evil.test", "", "HTTPS://CLERK.BUFSTACK.TEST"] {
        let refused = verifier.credential_outcome(Ok(claims("user_7", issuer)));
        assert_eq!(invalid_reason(refused), "Error: Invalid JWT! cause: InvalidIssuer");
    }
    let failed =
        verifier.credential_outcome(Err(ValidationFailure::Unauthorized("expired".to_string())));
    assert_eq!(invalid_reason(failed), "expired");
}

#[test]
fn token_of_the_expected_issuer_is_valid() {
    let verifier = issued_by("https://clerk.bufstack.test");
    assert_eq!(verifier.validate(&valid_token(), &published_key()).unwrap(), "user_42");
    assert_eq!(verifier.expected_issuer, Some("https://clerk.bufstack.test".to_string()));
    assert_eq!(any_issuer().expected_issuer, None);
}

#[test]
fn token_of_another_issuer_is_invalid() {
    let verifier = issued_by("https://accounts.bufstack.test");
    let reason = invalid_reason(verifier.validate(&valid_token(), &published_key()));
    assert_eq!(reason, "Error: Invalid JWT! cause: InvalidIssuer");
    let mut cache = KeySetCache::new();
    cache.complete_fetch(Some(vec![published_key()]), 1_800_000_000);
    match verifier.begin_verify(&mut cache, &valid_token()) {
        VerifyStep::Done(Err(AuthError::InvalidCredential { reason })) => {
            assert_eq!(reason, "Error: Invalid JWT! cause: InvalidIssuer")
        }
        other => panic!("{:?}", other),
    }
}

#[test]
fn caller_verdict_collapses_every_error() {
    assert_eq!(caller_verdict(Ok("user_42".to_string())), Ok("user_42".to_string()));
    for error in [
        AuthError::MalformedCredential,
        AuthError::UnknownSigningKey,
        AuthError::InvalidCredential { reason: "expired".to_string() },
        AuthError::ProviderUnavailable,
    ] {
        assert_eq!(caller_verdict(Err(error)), Err("Unauthenticated".to_string()));
    }
}

#[test]
fn every_error_is_answered_as_unauthenticated() {
    for error in [
        AuthError::MalformedCredential,
        AuthError::UnknownSigningKey,
        AuthError::InvalidCredential { reason: "expired".to_string() },
        AuthError::ProviderUnavailable,
    ] {
        let status = error.status();
        assert_eq!(status.code, Code::Unauthenticated);
        assert_eq!(status.message, "Unauthenticated");
    }
}

#[test]
fn malformed_token_ends_verification_without_touching_the_cache() {
    let mut cache = KeySetCache::new();
    match any_issuer().begin_verify(&mut cache, "not-a-token") {
        VerifyStep::Done(Err(AuthError::MalformedCredential)) => {}
        other => panic!("{:?}", other),
    }
    assert!(!cache.is_fetching());
}

#[test]
fn cold_cache_asks_for_a_fetch_then_verifies() {
    let mut cache = KeySetCache::new();
    let wanted = match any_issuer().begin_verify(&mut cache, &valid_token()) {
        VerifyStep::Fetch { key_id } => key_id,
        other => panic!("{:?}", other),
    };
    assert_eq!(wanted, "key-2024");
    match any_issuer().begin_verify(&mut cache, &valid_token()) {
        VerifyStep::Wait { key_id } => assert_eq!(key_id, "key-2024"),
        other => panic!("{:?}", other),
    }
    cache.complete_fetch(Some(vec![published_key()]), 1_800_000_000);
    assert_eq!(any_issuer().resume_verify(&cache, &valid_token(), &wanted, true).unwrap(), "user_42");
    match any_issuer().begin_verify(&mut cache, &valid_token()) {
        VerifyStep::Done(Ok(subject)) => assert_eq!(subject, "user_42"),
        other => panic!("{:?}", other),
    }
    assert!(!cache.is_fetching());
}

#[test]
fn warm_cache_rejects_an_expired_token_at_once() {
    let mut cache = KeySetCache::new();
    cache.complete_fetch(Some(vec![published_key()]), 1_800_000_000);
    match any_issuer().begin_verify(&mut cache, &expired_token()) {
        VerifyStep::Done(Err(AuthError::InvalidCredential { reason })) => {
            assert_eq!(reason, "Error: Invalid JWT! cause: ExpiredSignature")
        }
        other => panic!("{:?}", other),
    }
}

#[test]
fn unreachable_provider_on_a_cold_cache_is_provider_unavailable() {
    let mut cache = KeySetCache::new();
    let wanted = match any_issuer().begin_verify(&mut cache, &valid_token()) {
        VerifyStep::Fetch { key_id } => key_id,
        other => panic!("{:?}", other),
    };
    cache.complete_fetch(None, 1_800_000_000);
    let outcome = any_issuer().resume_verify(&cache, &valid_token(), &wanted, false);
    assert!(matches!(outcome, Err(AuthError::ProviderUnavailable)));
    assert_eq!(caller_verdict(outcome), Err("Unauthenticated".to_string()));
    assert!(cache.get_key("key-2024").is_none());
    assert_eq!(cache.fetched_at(), None);
    assert!(matches!(any_issuer().begin_verify(&mut cache, &valid_token()), VerifyStep::Fetch { .. }));
    cache.complete_fetch(Some(vec![published_key()]), 1_800_000_060);
    assert_eq!(any_issuer().resume_verify(&cache, &valid_token(), &wanted, true).unwrap(), "user_42");
}

#[test]
fn key_that_the_provider_does_not_publish_is_unknown() {
    let mut cache = KeySetCache::new();
    let wanted = match any_issuer().begin_verify(&mut cache, &valid_token()) {
        VerifyStep::Fetch { key_id } => key_id,
        other => panic!("{:?}", other),
    };
    cache.complete_fetch(Some(vec![other_key()]), 1_800_000_000);
    let outcome = any_issuer().resume_verify(&cache, &valid_token(), &wanted, true);
    assert!(matches!(outcome, Err(AuthError::UnknownSigningKey)));
}

/// A verifier over a shared cache and a provider that publishes a fixed key
/// set; `reachable` says whether a fetch succeeds.
struct Verifier {
    verifier: CredentialVerifier,
    cache: Mutex<KeySetCache>,
    published: Vec<SigningKey>,
    reachable: bool,
    fetches: Mutex<u32>,
}

impl Verifier {
    fn new(published: Vec<SigningKey>, reachable: bool) -> Arc<Verifier> {
        Arc::new(Verifier {
            verifier: CredentialVerifier::new(Some("https://clerk.bufstack.test".to_string())),
            cache: Mutex::new(KeySetCache::new()),
            published,
            reachable,
            fetches: Mutex::new(0),
        })
    }
}

impl AuthService for Verifier {
    fn verify_token(&self, token: &str) -> Result<String, String> {
        let mut cache = self.cache.lock().unwrap();
        let outcome = match self.verifier.begin_verify(&mut cache, token) {
            VerifyStep::Done(outcome) => outcome,
            VerifyStep::Fetch { key_id } | VerifyStep::Wait { key_id } => {
                *self.fetches.lock().unwrap() += 1;
                let fetched = if self.reachable {
                    Some(self.published.iter().map(|key| key.duplicate()).collect())
                } else {
                    None
                };
                cache.complete_fetch(fetched, 1_800_000_000);
                self.verifier.resume_verify(&cache, token, &key_id, self.reachable)
            }
        };
        caller_verdict(outcome)
    }
}

fn request_with_session(token: &str) -> Request {
    let mut request = Request::new();
    let cookie = format!("theme=dark; __session={}", token);
    request.append("cookie", HeaderValue::from_text(&cookie).unwrap());
    request
}

#[test]
fn signed_credential_reaches_the_greeter_with_its_subject() {
    let verifier = Verifier::new(vec![published_key()], true);
    let interceptor = AuthInterceptor { auth_service: verifier.clone() };
    let forwarded = interceptor.intercept(request_with_session(&valid_token())).unwrap();
    assert_eq!(forwarded.get("user_id").unwrap().as_bytes(), b"user_42");
    let reply = HelloWorldServiceImpl::default()
        .say_hello(HelloRequest { name: "Ada".to_string(), message: "ping".to_string() })
        .unwrap();
    assert_eq!(reply.message, "Hello Ada from Bufstack! Your message: ping");
    let again = interceptor.intercept(request_with_session(&valid_token())).unwrap();
    assert_eq!(again.get("user_id").unwrap().as_bytes(), b"user_42");
    assert_eq!(*verifier.fetches.lock().unwrap(), 1);
}

#[test]
fn unsigned_or_expired_credential_is_unauthenticated() {
    let verifier = Verifier::new(vec![published_key()], true);
    let interceptor = AuthInterceptor { auth_service: verifier };
    for token in [expired_token(), forged_token(), "a.b.c".to_string()] {
        let status = interceptor.intercept(request_with_session(&token)).unwrap_err();
        assert_eq!(status.code, Code::Unauthenticated);
        assert_eq!(status.message, "Unauthenticated");
    }
}

#[test]
fn unreachable_provider_is_unauthenticated() {
    let verifier = Verifier::new(vec![published_key()], false);
    let interceptor = AuthInterceptor { auth_service: verifier.clone() };
    let status = interceptor.intercept(request_with_session(&valid_token())).unwrap_err();
    assert_eq!(status.code, Code::Unauthenticated);
    assert_eq!(status.message, "Unauthenticated");
    assert!(verifier.cache.lock().unwrap().get_key("key-2024").is_none());
}
