//! The delivery client: building the gateway request and deciding the
//! bounded retry loop.
//!
//! The network call itself is outside work; callers perform one attempt at
//! a time and feed its outcome to [`next_attempt_step`], which decides
//! whether the message is delivered, a backoff-then-retry is due, or the
//! delivery has finally failed.

use vstd::prelude::*;
use vstd::string::StrSliceExecFns;
use vstd::string::StringExecFns;
use crate::digits::{dec_str, u64_to_dec};

verus! {

/// Nanoseconds in one backoff unit (one second).
pub const NS_PER_SEC: u64 = 1_000_000_000;

/// Total delivery attempts before giving up.
pub const MAX_ATTEMPTS: u64 = 3;

/// What the percent-encoding of `s` is. The encoding depends on the
/// characters alone.
pub uninterp spec fn percent_encoded_of(s: Seq<char>) -> Seq<char>;

/// What the standard base64 encoding of the UTF-8 bytes of `s` is. The
/// encoding depends on the characters alone.
pub uninterp spec fn base64_of(s: Seq<char>) -> Seq<char>;

/// Relies on urlencoding::encode: percent-encodes every byte except
/// alphanumerics and `-`, `_`, `.`, `~`; the result is a function of the
/// input string alone.
#[verifier::external_body]
fn percent_encode(s: &str) -> (r: String)
    ensures
        r@ == percent_encoded_of(s@),
{
    urlencoding::encode(s).into_owned()
}

/// Relies on base64's general-purpose engine with the standard alphabet
/// and padding: the result is a function of the input bytes alone.
#[verifier::external_body]
fn base64_encode(s: &str) -> (r: String)
    ensures
        r@ == base64_of(s@),
{
    base64::Engine::encode(&base64::engine::general_purpose::STANDARD, s)
}

/// The destination number with a leading '+' ensured; no other format
/// validation is done.
pub open spec fn normalized(p: Seq<char>) -> Seq<char> {
    if p.len() > 0 && p[0] == '+' {
        p
    } else {
        seq!['+'] + p
    }
}

/// Prefixes '+' unless the number already starts with it.
pub fn normalize_phone(phone: &String) -> (r: String)
    ensures
        r@ == normalized(phone@),
{
    let s = phone.as_str();
    if s.unicode_len() > 0 && s.get_char(0) == '+' {
        phone.clone()
    } else {
        let mut r = String::from_str("+");
        proof {
            reveal_strlit("+");
            assert(r@ =~= seq!['+']);
        }
        r.append(s);
        r
    }
}

/// Injected gateway credentials and sender number.
pub struct SmsConfig {
    pub account_sid: String,
    pub auth_token: String,
    pub from_number: String,
}

/// One fully built message-send request: the target URL, the two header
/// values, and the form-encoded body.
pub struct SmsRequest {
    pub url: String,
    pub auth_header: String,
    pub content_type: String,
    pub body: String,
}

/// The gateway's message-send endpoint for an account.
pub open spec fn sms_url_chars(sid: Seq<char>) -> Seq<char> {
    "https://api.twilio.com/2010-04-01/Accounts/"@ + sid + "/Messages.json"@
}

/// The Basic-Authorization header value for an account's credentials.
pub open spec fn auth_header_chars(sid: Seq<char>, token: Seq<char>) -> Seq<char> {
    "Basic "@ + base64_of(sid + ":"@ + token)
}

/// The form-encoded body carrying destination, sender and code, each
/// percent-encoded; the destination is normalized first.
pub open spec fn body_chars(to: Seq<char>, from: Seq<char>, code: Seq<char>) -> Seq<char> {
    "To="@ + percent_encoded_of(normalized(to)) + "&From="@ + percent_encoded_of(from) + "&Body="@
        + percent_encoded_of(code)
}

/// Builds the outbound request for sending `code` to `to`.
pub fn build_request(cfg: &SmsConfig, to: &String, code: &String) -> (r: SmsRequest)
    ensures
        r.url@ == sms_url_chars(cfg.account_sid@),
        r.auth_header@ == auth_header_chars(cfg.account_sid@, cfg.auth_token@),
        r.content_type@ == "application/x-www-form-urlencoded"@,
        r.body@ == body_chars(to@, cfg.from_number@, code@),
{
    let mut url = String::from_str("https://api.twilio.com/2010-04-01/Accounts/");
    url.append(cfg.account_sid.as_str());
    url.append("/Messages.json");

    let mut cred = cfg.account_sid.clone();
    cred.append(":");
    cred.append(cfg.auth_token.as_str());
    let encoded = base64_encode(cred.as_str());
    let mut auth = String::from_str("Basic ");
    auth.append(encoded.as_str());

    let to_norm = normalize_phone(to);
    let enc_to = percent_encode(to_norm.as_str());
    let enc_from = percent_encode(cfg.from_number.as_str());
    let enc_code = percent_encode(code.as_str());
    let mut body = String::from_str("To=");
    body.append(enc_to.as_str());
    body.append("&From=");
    body.append(enc_from.as_str());
    body.append("&Body=");
    body.append(enc_code.as_str());

    SmsRequest {
        url,
        auth_header: auth,
        content_type: String::from_str("application/x-www-form-urlencoded"),
        body,
    }
}

/// One delivery attempt's observable result: an HTTP status with the
/// response body's text, or a transport-level failure description.
pub enum AttemptOutcome {
    Status { code: u32, body: String },
    Transport { detail: String },
}

/// Whether the gateway accepted the message (status 200 or 201).
pub open spec fn attempt_delivered(o: AttemptOutcome) -> bool {
    match o {
        AttemptOutcome::Status { code, .. } => code == 200 || code == 201,
        AttemptOutcome::Transport { .. } => false,
    }
}

/// The error detail retained from a failed attempt.
pub open spec fn attempt_error(attempt: int, o: AttemptOutcome) -> Seq<char> {
    match o {
        AttemptOutcome::Status { code, body } => "Twilio error "@ + dec_str(code as int) + ": "@
            + body@,
        AttemptOutcome::Transport { detail } => "HTTP request failed (attempt "@ + dec_str(attempt)
            + "): "@ + detail@,
    }
}

/// The decision taken after one attempt, at the specification level.
pub enum StepModel {
    Delivered,
    Retry { delay_ns: u64, error: Seq<char> },
    Failed { error: Seq<char> },
}

/// The decision the client owes after attempt number `attempt` (counted
/// from one) came back with `o`: success stops immediately; a failure
/// before the last attempt waits `attempt` backoff units and retries; a
/// failure on the last attempt is final and keeps that attempt's error.
pub open spec fn step_model(attempt: int, o: AttemptOutcome) -> StepModel {
    if attempt_delivered(o) {
        StepModel::Delivered
    } else if attempt < MAX_ATTEMPTS {
        StepModel::Retry {
            delay_ns: (attempt * NS_PER_SEC) as u64,
            error: attempt_error(attempt, o),
        }
    } else {
        StepModel::Failed { error: attempt_error(attempt, o) }
    }
}

/// The executable decision after one attempt.
pub enum AttemptStep {
    Delivered,
    Retry { delay_ns: u64, error: String },
    Failed { error: String },
}

/// The specification-level reading of an executable decision.
pub open spec fn step_view(s: AttemptStep) -> StepModel {
    match s {
        AttemptStep::Delivered => StepModel::Delivered,
        AttemptStep::Retry { delay_ns, error } => StepModel::Retry { delay_ns, error: error@ },
        AttemptStep::Failed { error } => StepModel::Failed { error: error@ },
    }
}

/// Decides, after attempt `attempt` came back with `outcome`, whether the
/// delivery is done, must retry after a linear backoff, or has failed for
/// good.
pub fn next_attempt_step(attempt: u64, outcome: AttemptOutcome) -> (s: AttemptStep)
    requires
        1 <= attempt <= MAX_ATTEMPTS,
    ensures
        step_view(s) == step_model(attempt as int, outcome),
{
    match outcome {
        AttemptOutcome::Status { code, body } => {
            if code == 200 || code == 201 {
                AttemptStep::Delivered
            } else {
                let digits = u64_to_dec(code as u64);
                let mut err = String::from_str("Twilio error ");
                err.append(digits.as_str());
                err.append(": ");
                err.append(body.as_str());
                if attempt < MAX_ATTEMPTS {
                    AttemptStep::Retry { delay_ns: attempt * NS_PER_SEC, error: err }
                } else {
                    AttemptStep::Failed { error: err }
                }
            }
        },
        AttemptOutcome::Transport { detail } => {
            let digits = u64_to_dec(attempt);
            let mut err = String::from_str("HTTP request failed (attempt ");
            err.append(digits.as_str());
            err.append("): ");
            err.append(detail.as_str());
            if attempt < MAX_ATTEMPTS {
                AttemptStep::Retry { delay_ns: attempt * NS_PER_SEC, error: err }
            } else {
                AttemptStep::Failed { error: err }
            }
        },
    }
}

/// Against persistently failing responses the client makes exactly three
/// attempts: the first two failures each schedule a retry whose backoff
/// grows linearly with the attempt number, and the third failure is final,
/// reporting that last attempt's error detail.
pub proof fn lemma_delivery_exhausts_three_attempts(
    o1: AttemptOutcome,
    o2: AttemptOutcome,
    o3: AttemptOutcome,
)
    requires
        !attempt_delivered(o1),
        !attempt_delivered(o2),
        !attempt_delivered(o3),
    ensures
        step_model(1, o1) == (StepModel::Retry {
            delay_ns: NS_PER_SEC,
            error: attempt_error(1, o1),
        }),
        step_model(2, o2) == (StepModel::Retry {
            delay_ns: (2 * NS_PER_SEC) as u64,
            error: attempt_error(2, o2),
        }),
        step_model(3, o3) == (StepModel::Failed { error: attempt_error(3, o3) }),
{
}

} // verus!
