//! The request interceptor: every inbound request is checked for a session
//! credential before it may reach a handler.

use crate::metadata::{first_value, is_header_value, replaced, values_of, HeaderValue, Request};
use crate::outside::{bytes_of, cookie_from_headers, cookie_value};
use crate::status::{Code, Status};
use std::sync::Arc;
use vstd::prelude::*;
use vstd::string::*;
use vstd::utf8::encode_utf8;

verus! {

/// The header that carries cookies.
pub open spec fn cookie_header() -> Seq<char> {
    "cookie"@
}

/// The cookie that carries the session credential.
pub open spec fn session_cookie() -> Seq<char> {
    "__session"@
}

/// The header under which handlers find the verified subject.
pub open spec fn user_id_header() -> Seq<char> {
    "user_id"@
}

/// The message of a rejection for want of a credential.
pub open spec fn unauthenticated_message() -> Seq<char> {
    "Unauthenticated"@
}

/// The message of a rejection for a subject that no header can carry.
pub open spec fn conversion_failure_message() -> Seq<char> {
    "Failed to convert user_id to header value"@
}

/// The session credential that a request carries, if any.
pub open spec fn session_token(headers: Map<Seq<char>, Seq<Seq<u8>>>) -> Option<Seq<char>> {
    cookie_value(values_of(headers, cookie_header()), session_cookie())
}

/// What becomes of a request once its credential has been judged: the request
/// with the subject under `user_id`, or the rejection.
pub open spec fn after_verdict(
    headers: Map<Seq<char>, Seq<Seq<u8>>>,
    verdict: Result<Seq<char>, Seq<char>>,
) -> Result<Map<Seq<char>, Seq<Seq<u8>>>, (Code, Seq<char>)> {
    match verdict {
        Err(reason) => Err((Code::Unauthenticated, reason)),
        Ok(subject) => if is_header_value(encode_utf8(subject)) {
            Ok(replaced(headers, user_id_header(), encode_utf8(subject)))
        } else {
            Err((Code::Internal, conversion_failure_message()))
        },
    }
}

/// The rejection of a request for want of a valid session credential.
pub open spec fn unauthenticated_rejection() -> Result<
    Map<Seq<char>, Seq<Seq<u8>>>,
    (Code, Seq<char>),
> {
    Err((Code::Unauthenticated, unauthenticated_message()))
}

/// What the interceptor does with a request, given the verdict that the
/// verifier would return on the request's credential.
pub open spec fn intercepted(
    headers: Map<Seq<char>, Seq<Seq<u8>>>,
    verdict: Result<Seq<char>, Seq<char>>,
) -> Result<Map<Seq<char>, Seq<Seq<u8>>>, (Code, Seq<char>)> {
    match session_token(headers) {
        None => unauthenticated_rejection(),
        Some(_) => after_verdict(headers, verdict),
    }
}

/// The mathematical value of a verdict.
pub open spec fn verdict_view(verdict: Result<String, String>) -> Result<Seq<char>, Seq<char>> {
    match verdict {
        Ok(subject) => Ok(subject@),
        Err(reason) => Err(reason@),
    }
}

/// The mathematical value of an interceptor's answer.
pub open spec fn outcome_view(outcome: Result<Request, Status>) -> Result<
    Map<Seq<char>, Seq<Seq<u8>>>,
    (Code, Seq<char>),
> {
    match outcome {
        Ok(request) => Ok(request@),
        Err(status) => Err(status@),
    }
}

/// Whoever can tell which subject a credential stands for.
pub trait AuthService: Send + Sync + 'static {
    /// The subject of `token`, or the reason for which it is not accepted.
    fn verify_token(&self, token: &str) -> Result<String, String>;
}

/// Gates requests with the help of an [`AuthService`].
#[derive(Clone)]
pub struct AuthInterceptor<A: AuthService> {
    pub auth_service: Arc<A>,
}

/// The session credential that `request` carries in its cookies, if any.
pub fn session_token_of(request: &Request) -> (token: Option<String>)
    ensures
        token is Some <==> session_token(request@) is Some,
        token matches Some(text) ==> Some(text@) == session_token(request@),
        values_of(request@, cookie_header()).len() == 0 ==> token is None,
{
    let cookies = request.get_all("cookie");
    assert(bytes_of(cookies@) =~= values_of(request@, cookie_header()));
    cookie_from_headers(&cookies, "__session")
}

/// Carries out a verdict on a request: on a subject, the request goes on with
/// the subject as its only `user_id`; on a refusal, the request is rejected.
pub fn apply_verdict(request: Request, verdict: Result<String, String>) -> (outcome: Result<Request, Status>)
    ensures
        outcome_view(outcome) == after_verdict(request@, verdict_view(verdict)),
{
    match verdict {
        Err(reason) => Err(Status::unauthenticated(reason)),
        Ok(subject) => match HeaderValue::from_text(subject.as_str()) {
            None => Err(Status::internal("Failed to convert user_id to header value".to_string())),
            Some(user_id) => {
                let mut request = request;
                request.insert("user_id", user_id);
                Ok(request)
            },
        },
    }
}

/// `verdict` is an answer that `service` can give on `token`.
pub open spec fn may_answer<A: AuthService>(
    service: &A,
    token: Seq<char>,
    verdict: Result<Seq<char>, Seq<char>>,
) -> bool {
    exists|text: &str, answer: Result<String, String>|
        text@ == token && verdict_view(answer) == verdict && #[trigger] call_ensures(
            A::verify_token,
            (service, text),
            answer,
        )
}

/// `outcome` is what the interceptor does with a request on an answer that
/// `service` can give on the request's session credential. For a request
/// without such a credential that is the rejection, whatever the service is.
pub open spec fn may_come_of_intercept<A: AuthService>(
    service: &A,
    headers: Map<Seq<char>, Seq<Seq<u8>>>,
    outcome: Result<Map<Seq<char>, Seq<Seq<u8>>>, (Code, Seq<char>)>,
) -> bool {
    exists|verdict: Result<Seq<char>, Seq<char>>|
        outcome == #[trigger] intercepted(headers, verdict) && (session_token(headers) matches Some(
            token,
        ) ==> may_answer(service, token, verdict))
}

impl<A: AuthService> AuthInterceptor<A> {
    /// Gates one request. A request without a session cookie is rejected as
    /// unauthenticated, and the verifier is not asked. Otherwise the verifier
    /// judges the cookie's value, and the request goes on or is rejected on
    /// that verdict.
    pub fn intercept(&self, request: Request) -> (outcome: Result<Request, Status>)
        ensures
            may_come_of_intercept(&*self.auth_service, request@, outcome_view(outcome)),
            session_token(request@) is None ==> outcome_view(outcome) == unauthenticated_rejection(),
            values_of(request@, cookie_header()).len() == 0 ==> outcome_view(outcome)
                == unauthenticated_rejection(),
    {
        match session_token_of(&request) {
            Some(token) => {
                let text = token.as_str();
                let verdict = self.auth_service.verify_token(text);
                let ghost judged = verdict_view(verdict);
                assert(may_answer(&*self.auth_service, token@, judged)) by {
                    assert(call_ensures(A::verify_token, (&*self.auth_service, text), verdict));
                }
                let outcome = apply_verdict(request, verdict);
                assert(outcome_view(outcome) == intercepted(request@, judged));
                outcome
            },
            None => {
                let outcome = Err(Status::unauthenticated("Unauthenticated".to_string()));
                assert(outcome_view(outcome) == intercepted(
                    request@,
                    Err(unauthenticated_message()),
                ));
                outcome
            },
        }
    }
}

/// Whether the gateway authenticates requests: chosen once, at startup.
pub enum Authentication<A: AuthService> {
    /// Requests pass through as they come.
    Disabled,
    /// Every request passes through the interceptor.
    Enabled(AuthInterceptor<A>),
}

impl<A: AuthService> Authentication<A> {
    /// Applies the chosen policy to one request: with authentication disabled
    /// the request goes on unchanged, with authentication enabled it goes
    /// through the interceptor.
    pub fn apply(&self, request: Request) -> (outcome: Result<Request, Status>)
        ensures
            match self {
                Authentication::Disabled => outcome == Ok::<Request, Status>(request),
                Authentication::Enabled(interceptor) => {
                    &&& may_come_of_intercept(
                        &*interceptor.auth_service,
                        request@,
                        outcome_view(outcome),
                    )
                    &&& session_token(request@) is None ==> outcome_view(outcome)
                        == unauthenticated_rejection()
                    &&& values_of(request@, cookie_header()).len() == 0 ==> outcome_view(outcome)
                        == unauthenticated_rejection()
                },
            },
    {
        match self {
            Authentication::Disabled => Ok(request),
            Authentication::Enabled(interceptor) => interceptor.intercept(request),
        }
    }
}

/// A request without a session cookie is rejected as unauthenticated,
/// whatever the verifier would say of any credential.
pub proof fn lemma_missing_session_is_rejected(
    headers: Map<Seq<char>, Seq<Seq<u8>>>,
    verdict: Result<Seq<char>, Seq<char>>,
)
    requires
        session_token(headers) is None,
    ensures
        intercepted(headers, verdict) == unauthenticated_rejection(),
        unauthenticated_rejection() == Err::<Map<Seq<char>, Seq<Seq<u8>>>, (Code, Seq<char>)>(
            (Code::Unauthenticated, unauthenticated_message()),
        ),
{
}

/// A request whose credential the verifier refuses is rejected as
/// unauthenticated, with the verifier's reason as the message.
pub proof fn lemma_refused_credential_is_rejected(
    headers: Map<Seq<char>, Seq<Seq<u8>>>,
    reason: Seq<char>,
)
    ensures
        (intercepted(headers, Err(reason)) matches Err((code, _)) && code == Code::Unauthenticated),
        session_token(headers) is Some ==> intercepted(headers, Err(reason)) == Err::<
            Map<Seq<char>, Seq<Seq<u8>>>,
            (Code, Seq<char>),
        >((Code::Unauthenticated, reason)),
{
}

/// A request whose credential the verifier accepts goes on, and a handler
/// that reads `user_id` observes the subject, and only the subject; every
/// other header is as it came.
pub proof fn lemma_accepted_subject_reaches_handler(
    headers: Map<Seq<char>, Seq<Seq<u8>>>,
    subject: Seq<char>,
)
    requires
        session_token(headers) is Some,
        is_header_value(encode_utf8(subject)),
    ensures
        (intercepted(headers, Ok(subject)) matches Ok(forwarded) && {
            &&& first_value(forwarded, user_id_header()) == Some(encode_utf8(subject))
            &&& values_of(forwarded, user_id_header()) == seq![encode_utf8(subject)]
            &&& forall|name: Seq<char>|
                name != user_id_header() ==> #[trigger] values_of(forwarded, name) == values_of(
                    headers,
                    name,
                )
        }),
{
}

} // verus!
