//! End-to-end scenarios over the OTP engine: send, rate limit, expiry,
//! verification transitions, and the delivery retry decisions.

use sms_otp::codegen::generate_code;
use sms_otp::delivery::{
    build_request, next_attempt_step, normalize_phone, AttemptOutcome, AttemptStep, SmsConfig,
};
use sms_otp::engine::{OtpService, Response, SendPlan, SendPrep};

const SEC: u64 = 1_000_000_000;

fn seed() -> Option<Vec<u8>> {
    Some(vec![0x15, 0xCD, 0x5B, 0x07, 0, 0, 0, 0])
}

fn send_now(service: &mut OtpService, phone: &str, now: u64) -> (Response, String) {
    let phone = phone.to_string();
    match service.prepare_send(&phone, now, seed()) {
        SendPrep::Rejected(resp) => (resp, String::new()),
        SendPrep::Proceed(plan) => {
            let code = plan.code.clone();
            (service.commit_send(&phone, plan), code)
        }
    }
}

#[test]
fn fresh_send_commits_record_with_thirty_second_expiry() {
    let mut service = OtpService::new();
    let phone = "15551234567".to_string();
    let now: u64 = 5 * SEC;
    let plan = match service.prepare_send(&phone, now, seed()) {
        SendPrep::Proceed(plan) => plan,
        SendPrep::Rejected(_) => panic!("fresh send must proceed"),
    };
    assert_eq!(plan.expires_at, now + 30 * SEC);
    assert_eq!(plan.code.len(), 6);
    assert!(plan.code.chars().all(|c| c.is_ascii_digit()));
    let code = plan.code.clone();
    let resp = service.commit_send(&phone, plan);
    assert!(resp.success);
    assert_eq!(resp.message, "OTP sent successfully!");
    let snapshot = service.debug_print_otps(now);
    assert_eq!(snapshot.len(), 1);
    assert_eq!(snapshot[0].0, "+15551234567");
    assert_eq!(snapshot[0].1, code);
    assert_eq!(snapshot[0].2, 30);
}

#[test]
fn second_send_before_expiry_is_rejected_with_wait_time() {
    let mut service = OtpService::new();
    let (first, code) = send_now(&mut service, "15551234567", 0);
    assert!(first.success);
    let phone = "15551234567".to_string();
    let resp = match service.prepare_send(&phone, 1_500_000_000, seed()) {
        SendPrep::Rejected(resp) => resp,
        SendPrep::Proceed(_) => panic!("send while pending must be rejected"),
    };
    assert!(!resp.success);
    assert_eq!(resp.message, "OTP already sent. Please wait 28 seconds.");
    let snapshot = service.debug_print_otps(1_500_000_000);
    assert_eq!(snapshot.len(), 1);
    assert_eq!(snapshot[0].1, code);
}

#[test]
fn wait_time_is_whole_seconds_rounded_down() {
    let mut service = OtpService::new();
    let (first, _) = send_now(&mut service, "15551234567", 0);
    assert!(first.success);
    let phone = "15551234567".to_string();
    match service.prepare_send(&phone, 0, seed()) {
        SendPrep::Rejected(resp) => {
            assert_eq!(resp.message, "OTP already sent. Please wait 30 seconds.");
        }
        SendPrep::Proceed(_) => panic!("send while pending must be rejected"),
    }
    match service.prepare_send(&phone, 30 * SEC - 1, seed()) {
        SendPrep::Rejected(resp) => {
            assert_eq!(resp.message, "OTP already sent. Please wait 0 seconds.");
        }
        SendPrep::Proceed(_) => panic!("send one nanosecond before expiry must be rejected"),
    }
}

#[test]
fn send_after_expiry_overwrites_prior_record() {
    let mut service = OtpService::new();
    let (first, _) = send_now(&mut service, "15551234567", 0);
    assert!(first.success);
    let later: u64 = 30 * SEC;
    let (second, code) = send_now(&mut service, "15551234567", later);
    assert!(second.success);
    let snapshot = service.debug_print_otps(later);
    assert_eq!(snapshot.len(), 1);
    assert_eq!(snapshot[0].0, "+15551234567");
    assert_eq!(snapshot[0].1, code);
    assert_eq!(snapshot[0].2, 30);
}

#[test]
fn correct_code_verifies_once_and_consumes_the_record() {
    let mut service = OtpService::new();
    let (sent, code) = send_now(&mut service, "15551234567", 0);
    assert!(sent.success);
    let phone = "15551234567".to_string();
    let resp = service.verify_otp(&phone, &code, 20 * SEC);
    assert!(resp.success);
    assert_eq!(resp.message, "OTP verified successfully!");
    assert_eq!(service.debug_print_otps(20 * SEC).len(), 0);
    let verified = service.get_verified_phones();
    assert_eq!(verified, vec!["+15551234567".to_string()]);
    let again = service.verify_otp(&phone, &code, 21 * SEC);
    assert!(!again.success);
    assert_eq!(again.message, "No OTP requested for this phone.");
}

#[test]
fn wrong_code_leaves_record_usable_until_expiry() {
    let mut service = OtpService::new();
    let (sent, code) = send_now(&mut service, "15551234567", 0);
    assert!(sent.success);
    let phone = "15551234567".to_string();
    let wrong = if code == "000000" { "111111".to_string() } else { "000000".to_string() };
    let resp = service.verify_otp(&phone, &wrong, 10 * SEC);
    assert!(!resp.success);
    assert_eq!(resp.message, "Invalid OTP.");
    assert_eq!(service.debug_print_otps(10 * SEC).len(), 1);
    let retry = service.verify_otp(&phone, &code, 20 * SEC);
    assert!(retry.success);
    assert_eq!(retry.message, "OTP verified successfully!");
}

#[test]
fn expired_code_is_rejected_even_when_correct() {
    let mut service = OtpService::new();
    let (sent, code) = send_now(&mut service, "15551234567", 0);
    assert!(sent.success);
    let phone = "15551234567".to_string();
    let resp = service.verify_otp(&phone, &code, 30 * SEC + 1);
    assert!(!resp.success);
    assert_eq!(resp.message, "OTP expired.");
    let snapshot = service.debug_print_otps(30 * SEC + 1);
    assert_eq!(snapshot.len(), 1);
    assert_eq!(snapshot[0].2, 0);
}

#[test]
fn verify_without_any_send_reports_not_found() {
    let mut service = OtpService::new();
    let phone = "15551234567".to_string();
    let code = "123456".to_string();
    let resp = service.verify_otp(&phone, &code, 0);
    assert!(!resp.success);
    assert_eq!(resp.message, "No OTP requested for this phone.");
    assert!(service.get_verified_phones().is_empty());
}

#[test]
fn retry_decisions_make_exactly_three_attempts() {
    let failing = |body: &str| AttemptOutcome::Status { code: 500, body: body.to_string() };
    match next_attempt_step(1, failing("Server Error")) {
        AttemptStep::Retry { delay_ns, error } => {
            assert_eq!(delay_ns, SEC);
            assert_eq!(error, "Twilio error 500: Server Error");
        }
        _ => panic!("first failure must schedule a retry"),
    }
    match next_attempt_step(2, failing("Server Error")) {
        AttemptStep::Retry { delay_ns, error } => {
            assert_eq!(delay_ns, 2 * SEC);
            assert_eq!(error, "Twilio error 500: Server Error");
        }
        _ => panic!("second failure must schedule a retry"),
    }
    match next_attempt_step(3, failing("Server Error")) {
        AttemptStep::Failed { error } => {
            assert_eq!(error, "Twilio error 500: Server Error");
        }
        _ => panic!("third failure must be final"),
    }
}

#[test]
fn transport_failures_keep_the_attempt_number_in_the_detail() {
    let outcome = AttemptOutcome::Transport { detail: "connection reset".to_string() };
    match next_attempt_step(2, outcome) {
        AttemptStep::Retry { delay_ns, error } => {
            assert_eq!(delay_ns, 2 * SEC);
            assert_eq!(error, "HTTP request failed (attempt 2): connection reset");
        }
        _ => panic!("transport failure before the last attempt must retry"),
    }
}

#[test]
fn delivery_success_statuses_are_200_and_201() {
    let ok200 = AttemptOutcome::Status { code: 200, body: String::new() };
    let ok201 = AttemptOutcome::Status { code: 201, body: String::new() };
    let nearly = AttemptOutcome::Status { code: 204, body: String::new() };
    assert!(matches!(next_attempt_step(1, ok200), AttemptStep::Delivered));
    assert!(matches!(next_attempt_step(3, ok201), AttemptStep::Delivered));
    assert!(!matches!(next_attempt_step(1, nearly), AttemptStep::Delivered));
}

#[test]
fn exhausted_delivery_reports_last_error_and_commits_nothing() {
    let mut service = OtpService::new();
    let phone = "15551234567".to_string();
    let plan = match service.prepare_send(&phone, 0, seed()) {
        SendPrep::Proceed(plan) => plan,
        SendPrep::Rejected(_) => panic!("fresh send must proceed"),
    };
    let mut last_error = String::new();
    let mut attempt: u64 = 1;
    loop {
        let outcome = AttemptOutcome::Status { code: 500, body: "Server Error".to_string() };
        match next_attempt_step(attempt, outcome) {
            AttemptStep::Delivered => panic!("the gateway never accepts here"),
            AttemptStep::Retry { error, .. } => {
                last_error = error;
                attempt += 1;
            }
            AttemptStep::Failed { error } => {
                last_error = error;
                break;
            }
        }
    }
    assert_eq!(attempt, 3);
    let resp = OtpService::delivery_failure_response(last_error);
    assert!(!resp.success);
    assert!(resp.message.contains("Twilio error 500"));
    assert_eq!(service.debug_print_otps(0).len(), 0);
    drop(plan);
}

#[test]
fn generated_code_reduces_random_bytes_modulo_one_million() {
    assert_eq!(generate_code(&seed()), "456789");
    assert_eq!(generate_code(&None), "000000");
    let all_ones = Some(vec![0xFF; 8]);
    assert_eq!(generate_code(&all_ones), "551615");
    let with_tail = Some(vec![0x15, 0xCD, 0x5B, 0x07, 0, 0, 0, 0, 0xAB, 0xCD]);
    assert_eq!(generate_code(&with_tail), "456789");
}

#[test]
fn built_request_matches_the_gateway_contract() {
    let cfg = SmsConfig {
        account_sid: "AC123".to_string(),
        auth_token: "secret".to_string(),
        from_number: "+15550000000".to_string(),
    };
    let to = "15551234567".to_string();
    let code = "123456".to_string();
    let req = build_request(&cfg, &to, &code);
    assert_eq!(req.url, "https://api.twilio.com/2010-04-01/Accounts/AC123/Messages.json");
    assert_eq!(req.auth_header, "Basic QUMxMjM6c2VjcmV0");
    assert_eq!(req.content_type, "application/x-www-form-urlencoded");
    assert_eq!(req.body, "To=%2B15551234567&From=%2B15550000000&Body=123456");
}

#[test]
fn normalization_adds_the_plus_prefix_only_when_missing() {
    let bare = "15551234567".to_string();
    let plussed = "+15551234567".to_string();
    let empty = "".to_string();
    assert_eq!(normalize_phone(&bare), "+15551234567");
    assert_eq!(normalize_phone(&plussed), "+15551234567");
    assert_eq!(normalize_phone(&empty), "+");
}

#[test]
fn send_and_verify_agree_on_the_normalized_phone() {
    let mut service = OtpService::new();
    let (sent, code) = send_now(&mut service, "15551234567", 0);
    assert!(sent.success);
    let plussed = "+15551234567".to_string();
    let resp = service.verify_otp(&plussed, &code, 1);
    assert!(resp.success);
    assert_eq!(service.get_verified_phones(), vec!["+15551234567".to_string()]);
}

#[test]
fn verified_set_keeps_each_phone_once() {
    let mut service = OtpService::new();
    for phone in ["15551234567", "+15551234567", "15557654321"] {
        let (sent, code) = send_now(&mut service, phone, 60 * SEC * 10);
        assert!(sent.success);
        let resp = service.verify_otp(&phone.to_string(), &code, 60 * SEC * 10 + 1);
        assert!(resp.success, "{phone}");
    }
    let mut verified = service.get_verified_phones();
    verified.sort();
    assert_eq!(
        verified,
        vec!["+15551234567".to_string(), "+15557654321".to_string()]
    );
}

#[test]
fn commit_send_writes_exactly_the_given_plan() {
    let mut service = OtpService::new();
    let phone = "15551234567".to_string();
    let plan = SendPlan { code: "999999".to_string(), expires_at: 30 * SEC };
    let resp = service.commit_send(&phone, plan);
    assert!(resp.success);
    let snapshot = service.debug_print_otps(0);
    assert_eq!(snapshot.len(), 1);
    assert_eq!(snapshot[0].1, "999999");
}
