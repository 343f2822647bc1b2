use iaiken::channels::{
    continues_after_send, control_step, heartbeat_step, iopub_step, select, LoopEvent,
};
use iaiken::control::{cancel_after_reply, control_message, LoopStep};
use iaiken::envelope::JupyterMessage;
use iaiken::messages::{ConnectionConfig, MessageHeader};
use iaiken::shell::Action;

fn config() -> ConnectionConfig {
    ConnectionConfig {
        transport: "tcp".to_string(),
        ip: "127.0.0.1".to_string(),
        signature_scheme: "hmac-sha256".to_string(),
        key: String::new(),
        control_port: 1,
        shell_port: 2,
        stdin_port: 3,
        hb_port: 4,
        iopub_port: 5,
    }
}

fn request(msg_type: &str, content: &str) -> Vec<Vec<u8>> {
    let header = MessageHeader::with_id_and_date(
        "req-1".to_string(),
        "2024-01-01T00:00:00Z".to_string(),
        "session-9".to_string(),
        msg_type.to_string(),
    );
    vec![
        b"peer".to_vec(),
        b"<IDS|MSG>".to_vec(),
        Vec::new(),
        header.to_json(),
        b"{}".to_vec(),
        b"{}".to_vec(),
        content.as_bytes().to_vec(),
    ]
}

fn shutdown_actions(content: &str) -> Vec<Action> {
    match control_message(request("shutdown_request", content), &config()) {
        LoopStep::Shutdown(actions) => actions,
        other => panic!("expected a shutdown, got {:?}", other),
    }
}

fn restart_flag(action: &Action) -> serde_json::Value {
    match action {
        Action::Reply(frames) => {
            assert_eq!(frames[0], b"peer".to_vec());
            let msg = JupyterMessage::from_multipart(frames, "", "s").unwrap();
            assert_eq!(msg.header.msg_type, "shutdown_reply");
            assert_eq!(msg.parent_header.unwrap().msg_id, "req-1");
            let content: serde_json::Value = serde_json::from_slice(&msg.content).unwrap();
            assert_eq!(content.as_object().unwrap().len(), 1);
            content["restart"].clone()
        }
        other => panic!("expected a reply, got {:?}", other),
    }
}

#[test]
fn shutdown_is_answered_once_and_cancels_the_kernel() {
    let actions = shutdown_actions("{\"restart\":false}");
    assert_eq!(actions.len(), 2);
    match &actions[0] {
        Action::Publish(frames) => {
            let msg = JupyterMessage::from_multipart(frames, "", "s").unwrap();
            assert_eq!(msg.header.msg_type, "status");
            assert_eq!(msg.content, b"{\"execution_state\":\"busy\"}".to_vec());
        }
        other => panic!("expected a broadcast, got {:?}", other),
    }
    assert_eq!(restart_flag(&actions[1]), false);
    // the kernel is cancelled once the reply is out, and only then
    assert!(cancel_after_reply(true));
    assert!(!cancel_after_reply(false));
    assert_eq!(actions.iter().filter(|a| matches!(a, Action::Reply(_))).count(), 1);
}

#[test]
fn shutdown_gives_the_restart_flag_back() {
    assert_eq!(restart_flag(&shutdown_actions("{\"restart\":true}")[1]), true);
    assert_eq!(restart_flag(&shutdown_actions("{}")[1]), false);
    assert_eq!(restart_flag(&shutdown_actions("{\"restart\":\"yes\"}")[1]), false);
}

#[test]
fn other_control_messages_are_passed_over() {
    for frames in [
        request("kernel_info_request", "{}"),
        request("interrupt_request", "{}"),
        vec![b"no delimiter".to_vec()],
    ] {
        match control_message(frames, &config()) {
            LoopStep::Continue(actions) => assert!(actions.is_empty()),
            other => panic!("the loop ended with {:?}", other),
        }
    }
}

#[test]
fn control_loop_ends_silently_on_its_own_cancellation() {
    for event in [LoopEvent::Cancelled, LoopEvent::Failed] {
        match control_step(event, &config()) {
            LoopStep::Stop(actions) => assert!(actions.is_empty()),
            other => panic!("the loop goes on with {:?}", other),
        }
    }
    let step = control_step(LoopEvent::Message(request("shutdown_request", "{}")), &config());
    assert!(matches!(step, LoopStep::Shutdown(ref a) if a.len() == 2));
}

#[test]
fn heartbeat_returns_the_bytes_unmodified() {
    for frames in [
        vec![b"ping".to_vec()],
        vec![Vec::new()],
        vec![b"\x00\xff<IDS|MSG>".to_vec(), b"second".to_vec()],
        Vec::new(),
    ] {
        match heartbeat_step(LoopEvent::Message(frames.clone())) {
            LoopStep::Continue(actions) => {
                assert_eq!(actions.len(), 1);
                assert!(matches!(&actions[0], Action::Reply(f) if *f == frames));
            }
            other => panic!("the loop ended with {:?}", other),
        }
    }
    assert!(matches!(heartbeat_step(LoopEvent::Cancelled), LoopStep::Stop(ref a) if a.is_empty()));
    assert!(matches!(heartbeat_step(LoopEvent::Failed), LoopStep::Stop(ref a) if a.is_empty()));
}

#[test]
fn broadcaster_forwards_in_order_and_ends_when_the_queue_closes() {
    let frames = vec![b"<IDS|MSG>".to_vec(), b"x".to_vec()];
    assert!(matches!(
        iopub_step(LoopEvent::Message(frames.clone())),
        LoopStep::Continue(ref a) if a.len() == 1 && matches!(&a[0], Action::Reply(f) if *f == frames)
    ));
    assert!(matches!(iopub_step(LoopEvent::Failed), LoopStep::Stop(ref a) if a.is_empty()));
    assert!(matches!(iopub_step(LoopEvent::Cancelled), LoopStep::Stop(ref a) if a.is_empty()));
}

#[test]
fn a_failed_send_ends_the_loop() {
    assert!(continues_after_send(true));
    assert!(!continues_after_send(false));
}

#[test]
fn cancellation_wins_ties() {
    let frames = vec![b"m".to_vec()];
    assert!(matches!(select(true, Some(Ok(frames.clone()))), Some(LoopEvent::Cancelled)));
    assert!(matches!(select(true, Some(Err(()))), Some(LoopEvent::Cancelled)));
    assert!(matches!(select(true, None), Some(LoopEvent::Cancelled)));
    assert!(matches!(select(false, Some(Ok(frames.clone()))), Some(LoopEvent::Message(f)) if f == frames));
    assert!(matches!(select(false, Some(Err(()))), Some(LoopEvent::Failed)));
    assert!(select(false, None).is_none());
}
