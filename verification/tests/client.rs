use live_client::live::client::{
    decode_body, decode_response, next_step, replay, status_is_success, ResponseInfo, SendOutcome,
    Step,
};
use live_client::live::config::LiveClientConfig;
use live_client::live::decode::DecodeError;
use live_client::live::error::{Cause, LiveClientError};
use live_client::live::models::PlayerScore;

fn config(retries: u8) -> LiveClientConfig {
    LiveClientConfig::with_base_url("https://127.0.0.1:2999", retries).unwrap()
}

fn statuses(codes: &[u16]) -> Vec<SendOutcome> {
    codes.iter().map(|c| SendOutcome::Responded(*c)).collect()
}

fn failures_then_success(failures: usize) -> Vec<SendOutcome> {
    let mut outcomes = statuses(&vec![503; failures]);
    outcomes.push(SendOutcome::Responded(200));
    outcomes
}

#[test]
fn default_config() {
    let config = LiveClientConfig::new();
    assert_eq!(config.base_url, "https://127.0.0.1:2999");
    assert_eq!(config.retries, 3);
    assert_eq!(LiveClientConfig::DEFAULT_BASE_URL, "https://127.0.0.1:2999");
    assert_eq!(LiveClientConfig::DEFAULT_RETRIES, 3);
}

#[test]
fn config_refuses_empty_address() {
    assert!(LiveClientConfig::with_base_url("", 3).is_none());
    let config = LiveClientConfig::with_base_url("https://localhost:1", 0).unwrap();
    assert_eq!(config.base_url, "https://localhost:1");
    assert_eq!(config.retries, 0);
}

#[test]
fn url_is_base_then_path() {
    let config = LiveClientConfig::new();
    assert_eq!(
        config.url_for("/liveclientdata/playerlist"),
        "https://127.0.0.1:2999/liveclientdata/playerlist"
    );
    assert_eq!(config.url_for(""), "https://127.0.0.1:2999");
}

#[test]
fn success_range() {
    assert!(!status_is_success(199));
    assert!(status_is_success(200));
    assert!(status_is_success(204));
    assert!(status_is_success(299));
    assert!(!status_is_success(300));
    assert!(!status_is_success(404));
    assert!(!status_is_success(500));
    assert!(!status_is_success(0));
}

#[test]
fn first_success_is_delivered_without_retries() {
    let end = replay(&config(3), &statuses(&[200])).unwrap().unwrap();
    assert_eq!(end, ResponseInfo { status: 200, retries: 0 });
}

#[test]
fn three_failures_then_success_with_ceiling_three() {
    let end = replay(&config(3), &statuses(&[500, 500, 500, 200])).unwrap().unwrap();
    assert_eq!(end.status, 200);
    assert_eq!(end.retries, 3);
}

#[test]
fn ceiling_zero_fails_on_the_second_answer() {
    let error = replay(&config(0), &statuses(&[500, 500])).unwrap().unwrap_err();
    assert!(error.is_http_status());
    assert!(matches!(error.cause, Cause::HttpStatus(500)));
    assert_eq!(error.retries, 1);
    assert_eq!(error.status_code, Some(500));
}

#[test]
fn ceiling_zero_sends_again_after_one_failure() {
    assert!(replay(&config(0), &statuses(&[500])).is_none());
    let end = replay(&config(0), &statuses(&[500, 200])).unwrap().unwrap();
    assert_eq!(end, ResponseInfo { status: 200, retries: 1 });
}

#[test]
fn retry_boundary_for_several_ceilings() {
    for ceiling in [0u8, 1, 3, 7, 255] {
        let n = ceiling as usize;
        for failures in 0..=(n + 1) {
            let end = replay(&config(ceiling), &failures_then_success(failures)).unwrap().unwrap();
            assert_eq!(end, ResponseInfo { status: 200, retries: failures as u16 });
        }
        for failures in (n + 2)..(n + 5) {
            let error =
                replay(&config(ceiling), &failures_then_success(failures)).unwrap().unwrap_err();
            assert!(matches!(error.cause, Cause::HttpStatus(503)));
            assert_eq!(error.retries, ceiling as u16 + 1);
            assert_eq!(error.status_code, Some(503));
        }
    }
}

#[test]
fn a_server_that_never_succeeds_is_asked_ceiling_plus_two_times() {
    for ceiling in [0u8, 3, 255] {
        let n = ceiling as usize;
        assert!(replay(&config(ceiling), &statuses(&vec![500; n + 1])).is_none());
        let error = replay(&config(ceiling), &statuses(&vec![500; n + 2])).unwrap().unwrap_err();
        assert_eq!(error.retries, ceiling as u16 + 1);
        let mut last_differs = statuses(&vec![500; n + 1]);
        last_differs.push(SendOutcome::Responded(404));
        last_differs.push(SendOutcome::Responded(200));
        let error = replay(&config(ceiling), &last_differs).unwrap().unwrap_err();
        assert!(matches!(error.cause, Cause::HttpStatus(404)));
        assert_eq!(error.status_code, Some(404));
    }
}

#[test]
fn connection_failure_is_not_retried() {
    let outcomes = vec![
        SendOutcome::Failed("connection refused".to_string()),
        SendOutcome::Responded(200),
    ];
    let error = replay(&config(3), &outcomes).unwrap().unwrap_err();
    assert!(error.is_connection());
    assert!(matches!(&error.cause, Cause::Connection(detail) if detail == "connection refused"));
    assert_eq!(error.retries, 0);
    assert_eq!(error.status_code, None);
}

#[test]
fn connection_failure_after_retries_reports_the_count() {
    let outcomes = vec![
        SendOutcome::Responded(500),
        SendOutcome::Responded(502),
        SendOutcome::Failed("reset".to_string()),
    ];
    let error = replay(&config(3), &outcomes).unwrap().unwrap_err();
    assert!(error.is_connection());
    assert_eq!(error.retries, 2);
    assert_eq!(error.status_code, None);
}

#[test]
fn no_outcomes_no_end() {
    assert!(replay(&config(3), &Vec::new()).is_none());
}

#[test]
fn next_step_decides_each_case() {
    let c = config(1);
    assert!(matches!(
        next_step(&c, 0, &SendOutcome::Responded(201)),
        Step::Deliver(ResponseInfo { status: 201, retries: 0 })
    ));
    assert!(matches!(next_step(&c, 0, &SendOutcome::Responded(500)), Step::Resend(1)));
    assert!(matches!(next_step(&c, 1, &SendOutcome::Responded(500)), Step::Resend(2)));
    match next_step(&c, 2, &SendOutcome::Responded(418)) {
        Step::Fail(error) => {
            assert!(matches!(error.cause, Cause::HttpStatus(418)));
            assert_eq!(error.retries, 2);
            assert_eq!(error.status_code, Some(418));
        }
        other => panic!("{:?}", other),
    }
    match next_step(&c, 2, &SendOutcome::Failed("tls".to_string())) {
        Step::Fail(error) => {
            assert!(matches!(&error.cause, Cause::Connection(d) if d == "tls"));
            assert_eq!(error.retries, 2);
            assert_eq!(error.status_code, None);
        }
        other => panic!("{:?}", other),
    }
}

#[test]
fn error_keeps_its_parts() {
    let error = LiveClientError::new(Cause::Decode(DecodeError::MissingField), 2, Some(200));
    assert!(error.is_decode());
    assert!(!error.is_connection());
    assert!(!error.is_http_status());
    assert_eq!(error.retries, 2);
    assert_eq!(error.status_code, Some(200));
}

#[test]
fn response_decodes_to_the_value() {
    let info = ResponseInfo { status: 200, retries: 1 };
    let body = r#"{"assists": 10, "creepScore": 100, "deaths": 0, "kills": 1, "wardScore": 0}"#;
    let score: PlayerScore = decode_response(info, body.as_bytes()).unwrap();
    assert_eq!(score.assists, 10);
    assert_eq!(score.creep_score, 100);
    assert_eq!(score.kills, 1);
}

#[test]
fn decode_failure_carries_status_and_retries() {
    let info = ResponseInfo { status: 206, retries: 2 };
    let error = decode_response::<PlayerScore>(info, b"{\"assists\": 10}").unwrap_err();
    assert!(matches!(error.cause, Cause::Decode(DecodeError::MissingField)));
    assert_eq!(error.retries, 2);
    assert_eq!(error.status_code, Some(206));
    let error = decode_response::<PlayerScore>(info, b"not json").unwrap_err();
    assert!(matches!(error.cause, Cause::Decode(DecodeError::Syntax)));
    assert_eq!(error.status_code, Some(206));
}

#[test]
fn decoding_twice_gives_equal_values() {
    let body = r#"{"assists": 4, "creepScore": 17, "deaths": 2, "kills": 9, "wardScore": 1}"#;
    let first: PlayerScore = decode_body(body.as_bytes()).unwrap();
    let second: PlayerScore = decode_body(body.as_bytes()).unwrap();
    assert_eq!(format!("{:?}", first), format!("{:?}", second));
    assert_eq!(first.kills, 9);
    let bad = b"[1, 2";
    assert_eq!(decode_body::<Vec<i32>>(bad).unwrap_err(), DecodeError::Syntax);
    assert_eq!(decode_body::<Vec<i32>>(bad).unwrap_err(), DecodeError::Syntax);
}
