use ai_lib::gateway::{
    Backoff, GatewayError, GatewayStep, MAX_WAITS, MAX_WAIT_SECONDS, TOO_MANY_REQUESTS,
};

#[test]
fn limits_are_those_of_the_schedule() {
    assert_eq!(TOO_MANY_REQUESTS, 429);
    assert_eq!(MAX_WAIT_SECONDS, 60);
    assert_eq!(MAX_WAITS, 6);
}

#[test]
fn other_statuses_are_decoded() {
    let mut backoff = Backoff::new();
    for status in [200u16, 201, 400, 401, 404, 428, 430, 500, 503, 0, 65535] {
        assert_eq!(backoff.on_status(status), GatewayStep::Decode);
        assert_eq!(backoff.waits(), 0);
    }
}

#[test]
fn waits_double_from_one_second() {
    let mut backoff = Backoff::new();
    let mut waits = vec![];
    for _ in 0..6 {
        match backoff.on_status(429) {
            GatewayStep::Wait { seconds } => waits.push(seconds),
            other => panic!("expected a wait, got {:?}", other),
        }
    }
    assert_eq!(waits, vec![1, 2, 4, 8, 16, 32]);
    assert_eq!(backoff.waits(), 6);
}

#[test]
fn seventh_rate_limited_answer_gives_up() {
    let mut backoff = Backoff::new();
    for _ in 0..6 {
        assert!(matches!(backoff.on_status(429), GatewayStep::Wait { .. }));
    }
    assert_eq!(backoff.on_status(429), GatewayStep::GiveUp);
    assert_eq!(backoff.on_status(429), GatewayStep::GiveUp);
    assert_eq!(backoff.waits(), 6);
}

#[test]
fn an_answer_after_waits_is_decoded() {
    let mut backoff = Backoff::new();
    assert_eq!(backoff.on_status(429), GatewayStep::Wait { seconds: 1 });
    assert_eq!(backoff.on_status(429), GatewayStep::Wait { seconds: 2 });
    assert_eq!(backoff.on_status(200), GatewayStep::Decode);
    assert_eq!(backoff.waits(), 2);
    assert_eq!(backoff.on_status(429), GatewayStep::Wait { seconds: 4 });
}

#[test]
fn an_answer_after_giving_up_is_still_decoded() {
    let mut backoff = Backoff::new();
    for _ in 0..7 {
        backoff.on_status(429);
    }
    assert_eq!(backoff.on_status(200), GatewayStep::Decode);
}

#[test]
fn gateway_errors_have_messages() {
    assert_eq!(GatewayError::RateLimited.message(), "exceeded max wait time");
    assert_eq!(
        GatewayError::MalformedBody("missing field `choices`".to_string()).message(),
        "malformed response body: missing field `choices`"
    );
    assert_eq!(
        GatewayError::Transport("connection reset".to_string()).message(),
        "transport failure: connection reset"
    );
}
