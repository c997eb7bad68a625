use shiplift::http_client::response::{
    fault, get_error_message, pick_fault_message, upgraded, Interpreter, Verdict,
};
use shiplift::stream::Pulled;
use shiplift::Error;

fn expect_fault(e: Error, code: u16, message: &str) {
    match e {
        Error::Fault { code: c, message: m } => {
            assert_eq!(c, code);
            assert_eq!(m, message);
        }
        other => panic!("expected a fault, got {:?}", other),
    }
}

#[test]
fn fault_takes_the_message_of_the_error_body() {
    expect_fault(
        fault(404, b"{\"message\":\"no such container: abc\"}"),
        404,
        "no such container: abc",
    );
}

#[test]
fn fault_falls_back_to_the_reason_phrase() {
    expect_fault(fault(500, b"<html>boom</html>"), 500, "Internal Server Error");
    expect_fault(fault(409, b""), 409, "Conflict");
    expect_fault(fault(404, b"{\"msg\":\"x\"}"), 404, "Not Found");
    expect_fault(fault(404, b"{\"message\":5}"), 404, "Not Found");
    expect_fault(fault(400, b"\"message\""), 400, "Bad Request");
    expect_fault(fault(400, b"{\"message\":\"cut"), 400, "Bad Request");
}

#[test]
fn fault_of_a_status_without_reason_phrase() {
    expect_fault(fault(599, b"nope"), 599, "unknown error code");
    expect_fault(fault(42, b"nope"), 42, "unknown error code");
    expect_fault(fault(599, b"{\"message\":\"said\"}"), 599, "said");
}

#[test]
fn fault_message_ignores_other_members() {
    expect_fault(fault(500, b"{\"code\":1,\"message\":\"m\",\"x\":[1]}"), 500, "m");
    expect_fault(fault(500, b"  {\"message\":\"\"}  "), 500, "");
}

#[test]
fn picking_the_fault_message() {
    let s = |t: &str| Some(t.to_string());
    assert_eq!(pick_fault_message(s("parsed"), s("reason")), "parsed");
    assert_eq!(pick_fault_message(s("parsed"), None), "parsed");
    assert_eq!(pick_fault_message(None, s("reason")), "reason");
    assert_eq!(pick_fault_message(None, None), "unknown error code");
}

#[test]
fn only_101_is_an_upgrade() {
    assert!(upgraded(101).is_ok());
    for status in [100u16, 200, 201, 204, 301, 400, 404, 500] {
        assert!(matches!(upgraded(status), Err(Error::ConnectionNotUpgraded)));
    }
}

#[test]
fn success_statuses_deliver_the_body_unread() {
    for status in [200u16, 201, 204, 101] {
        let (mut interpreter, verdict) = Interpreter::start(status);
        assert!(matches!(verdict, Verdict::Deliver), "status {}", status);
        assert!(matches!(interpreter.step(Pulled::End), Verdict::Nothing));
        assert!(matches!(interpreter.step(Pulled::Chunk(vec![1])), Verdict::Nothing));
    }
}

#[test]
fn other_statuses_drain_the_body_before_the_fault() {
    for status in [100u16, 202, 301, 400, 404, 500] {
        let (mut interpreter, verdict) = Interpreter::start(status);
        assert!(matches!(verdict, Verdict::Pull), "status {}", status);
        assert!(matches!(interpreter.step(Pulled::Chunk(b"{\"mess".to_vec())), Verdict::Pull));
        assert!(matches!(interpreter.step(Pulled::Chunk(vec![])), Verdict::Pull));
        assert!(matches!(
            interpreter.step(Pulled::Chunk(b"age\":\"gone\"}".to_vec())),
            Verdict::Pull
        ));
        match interpreter.step(Pulled::End) {
            Verdict::Fail(e) => expect_fault(e, status, "gone"),
            other => panic!("expected a fault, got {:?}", other),
        }
        assert!(matches!(interpreter.step(Pulled::End), Verdict::Nothing));
        assert!(matches!(interpreter.step(Pulled::Chunk(vec![1])), Verdict::Nothing));
    }
}

#[test]
fn fault_scenarios_end_to_end() {
    let (mut interpreter, _) = Interpreter::start(404);
    interpreter.step(Pulled::Chunk(b"{\"message\":\"no such container: abc\"}".to_vec()));
    match interpreter.step(Pulled::End) {
        Verdict::Fail(e) => expect_fault(e, 404, "no such container: abc"),
        other => panic!("expected a fault, got {:?}", other),
    }
    let (mut interpreter, _) = Interpreter::start(500);
    interpreter.step(Pulled::Chunk(vec![0xff, 0xfe]));
    match interpreter.step(Pulled::End) {
        Verdict::Fail(e) => expect_fault(e, 500, "Internal Server Error"),
        other => panic!("expected a fault, got {:?}", other),
    }
}

#[test]
fn failed_pull_while_draining_is_passed_on() {
    let (mut interpreter, _) = Interpreter::start(500);
    assert!(matches!(interpreter.step(Pulled::Chunk(b"{".to_vec())), Verdict::Pull));
    match interpreter.step(Pulled::Failed(Error::Hyper("broken pipe".to_string()))) {
        Verdict::Fail(Error::Hyper(cause)) => assert_eq!(cause, "broken pipe"),
        other => panic!("expected the transport's failure, got {:?}", other),
    }
    assert!(matches!(interpreter.step(Pulled::End), Verdict::Nothing));
}

#[test]
fn error_message_is_the_member_called_message() {
    assert_eq!(get_error_message(b"{\"message\":\"m\"}"), Some("m".to_string()));
    assert_eq!(
        get_error_message(b"{\"error\":\"e\",\"message\":\"m\",\"msg\":\"x\"}"),
        Some("m".to_string())
    );
    assert_eq!(get_error_message(b"{\"Message\":\"m\"}"), None);
    assert_eq!(get_error_message(b"{\"error\":\"e\"}"), None);
    assert_eq!(get_error_message(b"{\"message\":null}"), None);
    assert_eq!(get_error_message(b"[\"message\"]"), None);
    assert_eq!(get_error_message(b""), None);
}
