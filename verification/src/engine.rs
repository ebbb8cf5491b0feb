//! The verification engine: the externally visible operations over the
//! pending-passcode store and the verified-phone set.
//!
//! Sending is split at the delivery boundary: [`OtpService::prepare_send`]
//! checks the single-flight rule and derives the new code, the caller then
//! drives the delivery attempts, and only on delivery success does
//! [`OtpService::commit_send`] write the record. Verification is entirely
//! synchronous and lives in [`OtpService::verify_otp`].

use vstd::prelude::*;
use vstd::string::StringExecFns;
use crate::codegen::{code_value_of, generate_code, otp_code_chars};
use crate::delivery::{normalize_phone, normalized, NS_PER_SEC};
use crate::digits::{dec_str, u64_to_dec};
use crate::store::{remaining_secs, OtpStore, VerifiedSet};

verus! {

/// Nanoseconds a fresh passcode stays valid (thirty seconds).
pub const EXPIRY_NS: u64 = 30_000_000_000;

/// What a public operation reports back to the caller.
pub struct Response {
    pub success: bool,
    pub message: String,
}

/// The engine's abstract state: the pending records and the verified set,
/// both keyed by normalized phone number.
#[verifier::ext_equal]
pub struct EngineState {
    pub store: Map<Seq<char>, (Seq<char>, u64)>,
    pub verified: Set<Seq<char>>,
}

/// A pending, still unexpired record for `p` blocks a new send.
pub open spec fn send_blocked(store: Map<Seq<char>, (Seq<char>, u64)>, p: Seq<char>, now: u64) -> bool {
    store.contains_key(p) && now < store[p].1
}

/// Whole seconds a blocked sender is told to wait.
pub open spec fn wait_secs(store: Map<Seq<char>, (Seq<char>, u64)>, p: Seq<char>, now: u64) -> int {
    (store[p].1 - now) / (NS_PER_SEC as int)
}

/// The rejection message for a blocked send.
pub open spec fn wait_message(secs: int) -> Seq<char> {
    "OTP already sent. Please wait "@ + dec_str(secs) + " seconds."@
}

/// The outcome a verification attempt owes: the successor state, whether
/// it succeeded, and the message reported. A missing record, an expired
/// record, and a wrong code each fail without any state change; the exact
/// stored code before expiry consumes the record and marks the phone
/// verified.
pub open spec fn verify_transition(
    v: EngineState,
    p: Seq<char>,
    code: Seq<char>,
    now: u64,
) -> (EngineState, bool, Seq<char>) {
    if !v.store.contains_key(p) {
        (v, false, "No OTP requested for this phone."@)
    } else if now > v.store[p].1 {
        (v, false, "OTP expired."@)
    } else if v.store[p].0 != code {
        (v, false, "Invalid OTP."@)
    } else {
        (
            EngineState { store: v.store.remove(p), verified: v.verified.insert(p) },
            true,
            "OTP verified successfully!"@,
        )
    }
}

/// What a successful send commits: the record for `p`, overwriting any
/// prior one.
pub open spec fn commit_transition(v: EngineState, p: Seq<char>, code: Seq<char>, expires_at: u64) -> EngineState {
    EngineState { store: v.store.insert(p, (code, expires_at)), verified: v.verified }
}

/// The plan a permitted send carries into delivery: the code to send and
/// the expiry it will be committed with.
pub struct SendPlan {
    pub code: String,
    pub expires_at: u64,
}

/// What `prepare_send` decides: a rejection response, or a plan.
pub enum SendPrep {
    Rejected(Response),
    Proceed(SendPlan),
}

/// The engine state owning the two collections.
pub struct OtpService {
    store: OtpStore,
    verified: VerifiedSet,
}

impl View for OtpService {
    type V = EngineState;

    closed spec fn view(&self) -> EngineState {
        EngineState { store: self.store@, verified: self.verified@ }
    }
}

impl OtpService {
    /// Both collections keep at most one entry per phone number.
    pub closed spec fn wf(&self) -> bool {
        self.store.wf() && self.verified.wf()
    }

    /// A fresh engine with nothing pending and nothing verified.
    pub fn new() -> (s: OtpService)
        ensures
            s.wf(),
            s@.store == Map::<Seq<char>, (Seq<char>, u64)>::empty(),
            s@.verified == Set::<Seq<char>>::empty(),
    {
        OtpService { store: OtpStore::new(), verified: VerifiedSet::new() }
    }

    /// The first half of a send: rejects with the remaining wait time while
    /// a prior, unexpired code is pending; otherwise derives the new code
    /// from `randomness` and the expiry `now + EXPIRY_NS`. Nothing is
    /// committed yet: the caller must first deliver the code.
    pub fn prepare_send(&self, phone: &String, now: u64, randomness: Option<Vec<u8>>) -> (d: SendPrep)
        requires
            self.wf(),
            now <= u64::MAX - EXPIRY_NS,
            randomness matches Some(b) ==> b@.len() >= 8,
        ensures
            send_blocked(self@.store, normalized(phone@), now) ==> (d matches SendPrep::Rejected(
                resp,
            ) && resp.success == false && resp.message@ == wait_message(
                wait_secs(self@.store, normalized(phone@), now),
            )),
            !send_blocked(self@.store, normalized(phone@), now) ==> (d matches SendPrep::Proceed(
                plan,
            ) && plan.expires_at == now + EXPIRY_NS && plan.code@ == otp_code_chars(
                code_value_of(randomness),
            )),
    {
        let p = normalize_phone(phone);
        let blocking_expiry: Option<u64> = match self.store.get(&p) {
            Some(entry) => if now < entry.1 {
                Some(entry.1)
            } else {
                None
            },
            None => None,
        };
        match blocking_expiry {
            Some(expiry) => {
                let secs = (expiry - now) / NS_PER_SEC;
                let digits = u64_to_dec(secs);
                let mut msg = String::from_str("OTP already sent. Please wait ");
                msg.append(digits.as_str());
                msg.append(" seconds.");
                SendPrep::Rejected(Response { success: false, message: msg })
            },
            None => {
                let code = generate_code(&randomness);
                SendPrep::Proceed(SendPlan { code, expires_at: now + EXPIRY_NS })
            },
        }
    }

    /// The second half of a successful send: commits the delivered code,
    /// overwriting any prior record for the phone.
    pub fn commit_send(&mut self, phone: &String, plan: SendPlan) -> (r: Response)
        requires
            old(self).wf(),
        ensures
            final(self).wf(),
            final(self)@ == commit_transition(
                old(self)@,
                normalized(phone@),
                plan.code@,
                plan.expires_at,
            ),
            r.success == true,
            r.message@ == "OTP sent successfully!"@,
    {
        let p = normalize_phone(phone);
        self.store.put(&p, plan.code, plan.expires_at);
        Response { success: true, message: String::from_str("OTP sent successfully!") }
    }

    /// The caller-facing failure after all delivery attempts are exhausted:
    /// nothing is committed and the last error detail is reported.
    pub fn delivery_failure_response(last_error: String) -> (r: Response)
        ensures
            r.success == false,
            r.message@ == last_error@,
    {
        Response { success: false, message: last_error }
    }

    /// Checks a submitted code: exactly the `verify_transition` outcome on
    /// the normalized phone number.
    pub fn verify_otp(&mut self, phone: &String, otp: &String, now: u64) -> (r: Response)
        requires
            old(self).wf(),
        ensures
            final(self).wf(),
            ({
                let (post, ok, msg) = verify_transition(old(self)@, normalized(phone@), otp@, now);
                final(self)@ == post && r.success == ok && r.message@ == msg
            }),
    {
        let p = normalize_phone(phone);
        match self.store.get(&p) {
            None => Response {
                success: false,
                message: String::from_str("No OTP requested for this phone."),
            },
            Some(entry) => {
                if now > entry.1 {
                    Response { success: false, message: String::from_str("OTP expired.") }
                } else if entry.0 != *otp {
                    Response { success: false, message: String::from_str("Invalid OTP.") }
                } else {
                    self.store.remove(&p);
                    self.verified.insert(&p);
                    Response {
                        success: true,
                        message: String::from_str("OTP verified successfully!"),
                    }
                }
            },
        }
    }

    /// Diagnostic projection of the pending records with their remaining
    /// whole seconds at `now`; expired records are clamped to zero.
    pub fn debug_print_otps(&self, now: u64) -> (r: Vec<(String, String, u64)>)
        requires
            self.wf(),
        ensures
            forall|i: int|
                0 <= i < r@.len() ==> self@.store.contains_key(#[trigger] r@[i].0@)
                    && self@.store[r@[i].0@].0 == r@[i].1@
                    && r@[i].2 == remaining_secs(self@.store[r@[i].0@].1, now),
            forall|p: Seq<char>|
                #[trigger] self@.store.contains_key(p) ==> exists|i: int|
                    0 <= i < r@.len() && (#[trigger] r@[i].0@) == p,
            forall|i: int, j: int| 0 <= i < j < r@.len() ==> r@[i].0@ != r@[j].0@,
    {
        self.store.snapshot_all(now)
    }

    /// Every phone number that has completed verification, each once.
    pub fn get_verified_phones(&self) -> (r: Vec<String>)
        requires
            self.wf(),
        ensures
            forall|i: int| 0 <= i < r@.len() ==> self@.verified.contains(#[trigger] r@[i]@),
            forall|p: Seq<char>|
                #[trigger] self@.verified.contains(p) ==> exists|i: int|
                    0 <= i < r@.len() && (#[trigger] r@[i]@) == p,
            forall|i: int, j: int| 0 <= i < j < r@.len() ==> r@[i]@ != r@[j]@,
    {
        self.verified.list_all()
    }
}

/// A send for a phone with no pending record is not blocked, and the
/// committed record carries exactly the expiry `now + EXPIRY_NS`.
pub proof fn lemma_send_fresh(v: EngineState, p: Seq<char>, code: Seq<char>, now: u64)
    requires
        !v.store.contains_key(p),
        now <= u64::MAX - EXPIRY_NS,
    ensures
        !send_blocked(v.store, p, now),
        commit_transition(v, p, code, (now + EXPIRY_NS) as u64).store.contains_key(p),
        commit_transition(v, p, code, (now + EXPIRY_NS) as u64).store[p] == (
            code,
            (now + EXPIRY_NS) as u64,
        ),
        commit_transition(v, p, code, (now + EXPIRY_NS) as u64).verified == v.verified,
{
}

/// A second send before expiry is blocked and reports the remaining wait;
/// rejection happens before any commit, so the pending record stands.
pub proof fn lemma_send_rate_limited(v: EngineState, p: Seq<char>, now: u64)
    requires
        v.store.contains_key(p),
        now < v.store[p].1,
    ensures
        send_blocked(v.store, p, now),
        wait_secs(v.store, p, now) == (v.store[p].1 - now) / (NS_PER_SEC as int),
{
}

/// Once the pending record has expired, a new send is allowed again and
/// its commit overwrites the prior record.
pub proof fn lemma_send_after_expiry(v: EngineState, p: Seq<char>, code: Seq<char>, now: u64)
    requires
        v.store.contains_key(p),
        v.store[p].1 <= now,
        now <= u64::MAX - EXPIRY_NS,
    ensures
        !send_blocked(v.store, p, now),
        commit_transition(v, p, code, (now + EXPIRY_NS) as u64).store[p] == (
            code,
            (now + EXPIRY_NS) as u64,
        ),
{
}

/// The exact stored code before expiry verifies: the record is consumed,
/// the phone joins the verified set, and the same code afterwards finds no
/// record any more, whatever time the second attempt is made at.
pub proof fn lemma_verify_consumes(
    v: EngineState,
    p: Seq<char>,
    code: Seq<char>,
    now: u64,
    later: u64,
)
    requires
        v.store.contains_key(p),
        now <= v.store[p].1,
        v.store[p].0 == code,
    ensures
        ({
            let (v2, ok, msg) = verify_transition(v, p, code, now);
            &&& ok
            &&& msg == "OTP verified successfully!"@
            &&& !v2.store.contains_key(p)
            &&& v2.verified.contains(p)
            &&& {
                let (v3, ok2, msg2) = verify_transition(v2, p, code, later);
                &&& !ok2
                &&& msg2 == "No OTP requested for this phone."@
                &&& v3 == v2
            }
        }),
{
}

/// A wrong guess before expiry fails, leaves the whole state unchanged,
/// and the correct code still verifies afterwards while unexpired.
pub proof fn lemma_verify_mismatch_keeps_record(
    v: EngineState,
    p: Seq<char>,
    wrong: Seq<char>,
    now: u64,
    later: u64,
)
    requires
        v.store.contains_key(p),
        now <= v.store[p].1,
        v.store[p].0 != wrong,
        later <= v.store[p].1,
    ensures
        ({
            let (v2, ok, msg) = verify_transition(v, p, wrong, now);
            &&& !ok
            &&& msg == "Invalid OTP."@
            &&& v2 == v
            &&& verify_transition(v2, p, v.store[p].0, later).1
        }),
{
}

/// After expiry every submitted code is rejected as expired, and nothing
/// changes, regardless of code correctness.
pub proof fn lemma_verify_expired(v: EngineState, p: Seq<char>, now: u64)
    requires
        v.store.contains_key(p),
        now > v.store[p].1,
    ensures
        forall|code: Seq<char>| #[trigger]
            verify_transition(v, p, code, now) == (v, false, "OTP expired."@),
{
}

} // verus!

