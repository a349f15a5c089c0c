//! Admission decisions of the GraphQL gateway, over HTTP requests and over
//! the first message of a WebSocket connection.
use vstd::prelude::*;
use crate::token::{all_visible_ascii, unsigned_payload_decodes, unsigned_payload_ok, visible_ascii};

verus! {

/// Configuration shared read-only by both entry points.
pub struct GatewayConfig {
    /// The secret that lets internal tooling past the token check, if one is set.
    pub admin_secret: Option<String>,
    /// Whether the token verifier takes unsigned tokens, as it does while the
    /// process points it at an auth emulator.
    pub unsigned_tokens: bool,
}

/// Why a request or a connection was turned away.
#[derive(Clone, Copy, Debug, PartialEq, Eq)]
pub enum AuthError {
    /// No credential was supplied.
    MissingCredential,
    /// The credential holds no token after the `Bearer ` prefix.
    EmptyCredential,
    /// The credential does not start with the `Bearer ` prefix.
    MalformedCredential,
    /// The token verifier refused the token.
    VerificationFailed,
}

/// The entry point that a decision is reported through.
#[derive(Clone, Copy, Debug, PartialEq, Eq)]
pub enum Transport {
    Http,
    WebSocket,
}

/// Who was let in.
#[derive(Clone, Copy, Debug, PartialEq, Eq)]
pub enum Admission {
    /// The admin secret matched.
    Admin,
    /// A bearer token was verified.
    User,
}

/// What the gateway does with a credential before any token is verified.
#[derive(Debug, PartialEq, Eq)]
pub enum Decision {
    Admit(Admission),
    /// Hand this token to the verifier, and its answer to [`outcome`].
    Verify(String),
    Reject(AuthError),
}

/// The first message of a WebSocket connection, once read as an object.
#[derive(Debug, PartialEq, Eq)]
pub struct InitPayload {
    pub authorization: Option<String>,
    pub admin_secret: Option<String>,
}

pub open spec fn bearer_prefix() -> Seq<char> {
    seq!['B', 'e', 'a', 'r', 'e', 'r', ' ']
}

/// The token carried by an authorization value, or why there is none. A token
/// must be visible ASCII, as a header value is; while unsigned tokens are
/// taken, its payload segment must also be canonical unpadded base64.
pub open spec fn spec_bearer_token(h: Seq<char>, unsigned_tokens: bool) -> Result<Seq<char>, AuthError> {
    if h.len() <= bearer_prefix().len() {
        Err(AuthError::EmptyCredential)
    } else if h.subrange(0, bearer_prefix().len() as int) != bearer_prefix() {
        Err(AuthError::MalformedCredential)
    } else {
        let t = h.subrange(bearer_prefix().len() as int, h.len() as int);
        if !all_visible_ascii(t) {
            Err(AuthError::MalformedCredential)
        } else if unsigned_tokens && !unsigned_payload_decodes(t) {
            Err(AuthError::MalformedCredential)
        } else {
            Ok(t)
        }
    }
}

pub open spec fn opt_view(s: Option<String>) -> Option<Seq<char>> {
    match s {
        Some(t) => Some(t@),
        None => None,
    }
}

/// The supplied secret is present and equals the configured one.
pub open spec fn admin_override(configured: Option<Seq<char>>, supplied: Option<Seq<char>>) -> bool {
    configured is Some && supplied is Some && configured->Some_0 == supplied->Some_0
}

/// The result of a bearer credential, given what the verifier says of its token.
pub open spec fn bearer_result(h: Seq<char>, unsigned_tokens: bool, verified: bool) -> Result<Admission, AuthError> {
    match spec_bearer_token(h, unsigned_tokens) {
        Ok(_) => if verified {
            Ok(Admission::User)
        } else {
            Err(AuthError::VerificationFailed)
        },
        Err(e) => Err(e),
    }
}

/// The result of an HTTP request, given what the verifier says of its token.
pub open spec fn http_result(
    configured: Option<Seq<char>>,
    unsigned_tokens: bool,
    authorization: Option<Seq<char>>,
    admin_header: Option<Seq<char>>,
    verified: bool,
) -> Result<Admission, AuthError> {
    if admin_override(configured, admin_header) {
        Ok(Admission::Admin)
    } else {
        match authorization {
            None => Err(AuthError::MissingCredential),
            Some(h) => bearer_result(h, unsigned_tokens, verified),
        }
    }
}

/// The result of a WebSocket handshake, given what the verifier says of its token.
/// `None` stands for a first message that could not be read as an object.
pub open spec fn ws_result(
    configured: Option<Seq<char>>,
    unsigned_tokens: bool,
    payload: Option<InitPayload>,
    verified: bool,
) -> Result<Admission, AuthError> {
    match payload {
        None => Err(AuthError::MissingCredential),
        Some(p) => if admin_override(configured, opt_view(p.admin_secret)) {
            Ok(Admission::Admin)
        } else {
            match p.authorization {
                None => Err(AuthError::MissingCredential),
                Some(h) => bearer_result(h@, unsigned_tokens, verified),
            }
        },
    }
}

/// What a decision comes to, given what the verifier says of the token.
pub open spec fn decision_outcome(d: Decision, verified: bool) -> Result<Admission, AuthError> {
    match d {
        Decision::Admit(a) => Ok(a),
        Decision::Verify(_) => if verified {
            Ok(Admission::User)
        } else {
            Err(AuthError::VerificationFailed)
        },
        Decision::Reject(e) => Err(e),
    }
}

pub open spec fn spec_message(e: AuthError, t: Transport) -> Seq<char> {
    match e {
        AuthError::MissingCredential => match t {
            Transport::Http => "No Authorization header"@,
            Transport::WebSocket => "Token is required"@,
        },
        AuthError::EmptyCredential => "Token is empty"@,
        AuthError::MalformedCredential => "Invalid token"@,
        AuthError::VerificationFailed => "Invalid token"@,
    }
}

impl AuthError {
    /// The text that a client receives for this error.
    pub fn message(&self, transport: Transport) -> (r: String)
        ensures
            r@ == spec_message(*self, transport),
    {
        match self {
            AuthError::MissingCredential => match transport {
                Transport::Http => String::from_str("No Authorization header"),
                Transport::WebSocket => String::from_str("Token is required"),
            },
            AuthError::EmptyCredential => String::from_str("Token is empty"),
            AuthError::MalformedCredential => String::from_str("Invalid token"),
            AuthError::VerificationFailed => String::from_str("Invalid token"),
        }
    }
}

/// Compares two strings character by character.
pub fn same_text(a: &str, b: &str) -> (r: bool)
    ensures
        r == (a@ == b@),
{
    let n = a.unicode_len();
    if n != b.unicode_len() {
        return false;
    }
    let mut i: usize = 0;
    while i < n
        invariant
            n == a@.len(),
            n == b@.len(),
            i <= n,
            forall|j: int| 0 <= j < i ==> a@[j] == b@[j],
        decreases n - i,
    {
        if a.get_char(i) != b.get_char(i) {
            return false;
        }
        i = i + 1;
    }
    assert(a@ =~= b@);
    true
}

/// Splits the token off an authorization value of the form `Bearer <token>`.
/// The token must be visible ASCII and, while unsigned tokens are taken, carry
/// a payload segment that decodes as canonical unpadded base64.
pub fn bearer_token(header: &str, unsigned_tokens: bool) -> (r: Result<&str, AuthError>)
    ensures
        match r {
            Ok(t) => spec_bearer_token(header@, unsigned_tokens) == Ok::<Seq<char>, AuthError>(t@),
            Err(e) => spec_bearer_token(header@, unsigned_tokens) == Err::<Seq<char>, AuthError>(e),
        },
{
    let prefix = "Bearer ";
    proof {
        reveal_strlit("Bearer ");
        assert(prefix@ =~= bearer_prefix());
    }
    let n = header.unicode_len();
    if n <= 7 {
        return Err(AuthError::EmptyCredential);
    }
    let head = header.substring_char(0, 7);
    if !same_text(head, prefix) {
        return Err(AuthError::MalformedCredential);
    }
    let token = header.substring_char(7, n);
    if !visible_ascii(token) {
        return Err(AuthError::MalformedCredential);
    }
    if unsigned_tokens && !unsigned_payload_ok(token) {
        return Err(AuthError::MalformedCredential);
    }
    Ok(token)
}

/// Whether a supplied admin secret matches the configured one.
pub fn admin_matches(config: &GatewayConfig, supplied: Option<&str>) -> (r: bool)
    ensures
        r == admin_override(opt_view(config.admin_secret), match supplied {
            Some(s) => Some(s@),
            None => None,
        }),
{
    match (&config.admin_secret, supplied) {
        (Some(c), Some(s)) => same_text(c.as_str(), s),
        _ => false,
    }
}

/// The decision for a bearer credential.
fn decide_bearer(header: &str, unsigned_tokens: bool) -> (r: Decision)
    ensures
        forall|v: bool| #[trigger] decision_outcome(r, v) == bearer_result(header@, unsigned_tokens, v),
        r is Verify ==> spec_bearer_token(header@, unsigned_tokens) == Ok::<Seq<char>, AuthError>(r->Verify_0@),
{
    match bearer_token(header, unsigned_tokens) {
        Ok(t) => Decision::Verify(String::from_str(t)),
        Err(e) => Decision::Reject(e),
    }
}

/// The decision for an HTTP request: the admin secret lets it in, else its
/// authorization header must carry a bearer token.
pub fn decide_http(config: &GatewayConfig, authorization: Option<&str>, admin_header: Option<&str>) -> (r: Decision)
    ensures
        forall|v: bool| #[trigger] decision_outcome(r, v) == http_result(
            opt_view(config.admin_secret),
            config.unsigned_tokens,
            match authorization { Some(h) => Some(h@), None => None },
            match admin_header { Some(s) => Some(s@), None => None },
            v,
        ),
        r is Verify ==> authorization is Some && spec_bearer_token(authorization->Some_0@, config.unsigned_tokens)
            == Ok::<Seq<char>, AuthError>(r->Verify_0@),
{
    if admin_matches(config, admin_header) {
        return Decision::Admit(Admission::Admin);
    }
    match authorization {
        None => Decision::Reject(AuthError::MissingCredential),
        Some(h) => decide_bearer(h, config.unsigned_tokens),
    }
}

/// The decision for the first message of a WebSocket connection; `None` stands
/// for a message that could not be read as an object.
pub fn decide_ws(config: &GatewayConfig, payload: Option<&InitPayload>) -> (r: Decision)
    ensures
        forall|v: bool| #[trigger] decision_outcome(r, v) == ws_result(
            opt_view(config.admin_secret),
            config.unsigned_tokens,
            match payload { Some(p) => Some(*p), None => None },
            v,
        ),
        r is Verify ==> payload is Some && payload->Some_0.authorization is Some
            && spec_bearer_token(payload->Some_0.authorization->Some_0@, config.unsigned_tokens)
            == Ok::<Seq<char>, AuthError>(r->Verify_0@),
{
    match payload {
        None => Decision::Reject(AuthError::MissingCredential),
        Some(p) => {
            let supplied = match &p.admin_secret {
                Some(s) => Some(s.as_str()),
                None => None,
            };
            if admin_matches(config, supplied) {
                return Decision::Admit(Admission::Admin);
            }
            match &p.authorization {
                None => Decision::Reject(AuthError::MissingCredential),
                Some(h) => decide_bearer(h.as_str(), config.unsigned_tokens),
            }
        },
    }
}

/// Completes a decision with what the verifier said of its token.
pub fn outcome(decision: &Decision, verified: bool) -> (r: Result<Admission, AuthError>)
    ensures
        r == decision_outcome(*decision, verified),
{
    match decision {
        Decision::Admit(a) => Ok(*a),
        Decision::Verify(_) => if verified {
            Ok(Admission::User)
        } else {
            Err(AuthError::VerificationFailed)
        },
        Decision::Reject(e) => Err(*e),
    }
}


/// A request whose authorization header is `Bearer ` followed by a non-empty
/// token, which the verifier accepts, is admitted and gets no error. The token
/// is visible ASCII, as every header value is, and, while unsigned tokens are
/// taken, carries a payload segment that decodes.
pub proof fn lemma_verified_bearer_admitted(
    configured: Option<Seq<char>>,
    unsigned_tokens: bool,
    token: Seq<char>,
    admin_header: Option<Seq<char>>,
)
    requires
        token.len() > 0,
        all_visible_ascii(token),
        unsigned_tokens ==> unsigned_payload_decodes(token),
    ensures
        http_result(configured, unsigned_tokens, Some(bearer_prefix() + token), admin_header, true) is Ok,
{
    let h = bearer_prefix() + token;
    assert(h.subrange(0, 7) =~= bearer_prefix());
    assert(h.subrange(7, h.len() as int) =~= token);
}

/// Without an authorization header, and unless the admin secret matches, a
/// request is refused with "No Authorization header", whatever the verifier says.
pub proof fn lemma_missing_header_refused(
    configured: Option<Seq<char>>,
    unsigned_tokens: bool,
    admin_header: Option<Seq<char>>,
    verified: bool,
)
    requires
        !admin_override(configured, admin_header),
    ensures
        http_result(configured, unsigned_tokens, None, admin_header, verified) == Err::<Admission, AuthError>(
            AuthError::MissingCredential,
        ),
        spec_message(AuthError::MissingCredential, Transport::Http) == "No Authorization header"@,
{
}

/// A header that is the bare `Bearer ` prefix, unless the admin secret matches,
/// is refused with "Token is empty", whatever the verifier says.
pub proof fn lemma_bare_prefix_refused(
    configured: Option<Seq<char>>,
    unsigned_tokens: bool,
    admin_header: Option<Seq<char>>,
    verified: bool,
)
    requires
        !admin_override(configured, admin_header),
    ensures
        http_result(configured, unsigned_tokens, Some(bearer_prefix()), admin_header, verified)
            == Err::<Admission, AuthError>(AuthError::EmptyCredential),
        spec_message(AuthError::EmptyCredential, Transport::Http) == "Token is empty"@,
{
}

/// A matching admin secret admits an HTTP request, with or without an
/// authorization header, whatever the verifier says.
pub proof fn lemma_admin_header_admitted(
    secret: Seq<char>,
    unsigned_tokens: bool,
    authorization: Option<Seq<char>>,
    verified: bool,
)
    ensures
        http_result(Some(secret), unsigned_tokens, authorization, Some(secret), verified) == Ok::<Admission, AuthError>(
            Admission::Admin,
        ),
{
}

/// A first message that cannot be read as an object closes the connection with
/// "Token is required", whatever the configuration.
pub proof fn lemma_unreadable_init_refused(
    configured: Option<Seq<char>>,
    unsigned_tokens: bool,
    verified: bool,
)
    ensures
        ws_result(configured, unsigned_tokens, None, verified) == Err::<Admission, AuthError>(
            AuthError::MissingCredential,
        ),
        spec_message(AuthError::MissingCredential, Transport::WebSocket) == "Token is required"@,
{
}

/// A first message that carries the configured admin secret admits the
/// connection, whatever its authorization field holds.
pub proof fn lemma_admin_init_admitted(
    configured: Seq<char>,
    unsigned_tokens: bool,
    payload: InitPayload,
    verified: bool,
)
    requires
        payload.admin_secret is Some,
        payload.admin_secret->Some_0@ == configured,
    ensures
        ws_result(Some(configured), unsigned_tokens, Some(payload), verified) == Ok::<Admission, AuthError>(
            Admission::Admin,
        ),
{
}

/// A request or a connection is admitted only where the admin secret matched,
/// or where its bearer token was well formed and the verifier accepted it.
pub proof fn lemma_admitted_only_by_secret_or_token(
    configured: Option<Seq<char>>,
    unsigned_tokens: bool,
    authorization: Option<Seq<char>>,
    admin_header: Option<Seq<char>>,
    payload: Option<InitPayload>,
    verified: bool,
)
    ensures
        http_result(configured, unsigned_tokens, authorization, admin_header, verified) == Ok::<Admission, AuthError>(
            Admission::Admin,
        ) ==> admin_override(configured, admin_header),
        http_result(configured, unsigned_tokens, authorization, admin_header, verified) == Ok::<Admission, AuthError>(
            Admission::User,
        ) ==> verified && authorization is Some && spec_bearer_token(authorization->Some_0, unsigned_tokens) is Ok,
        ws_result(configured, unsigned_tokens, payload, verified) == Ok::<Admission, AuthError>(Admission::Admin)
            ==> payload is Some && admin_override(configured, opt_view(payload->Some_0.admin_secret)),
        ws_result(configured, unsigned_tokens, payload, verified) == Ok::<Admission, AuthError>(Admission::User)
            ==> verified && payload is Some && payload->Some_0.authorization is Some
            && spec_bearer_token(payload->Some_0.authorization->Some_0@, unsigned_tokens) is Ok,
{
}

} // verus!
