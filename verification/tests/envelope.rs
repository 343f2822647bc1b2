use iaiken::envelope::{frame_is_blank, normalise, JupyterMessage};
use iaiken::iopub::build_pub;
use iaiken::messages::MessageHeader;
use iaiken::wire::WireError;

fn header(msg_type: &str) -> MessageHeader {
    MessageHeader::with_id_and_date(
        "id-1".to_string(),
        "2024-01-01T00:00:00Z".to_string(),
        "session-1".to_string(),
        msg_type.to_string(),
    )
}

fn request(identities: &[&[u8]], content: &[u8]) -> Vec<Vec<u8>> {
    let mut frames: Vec<Vec<u8>> = identities.iter().map(|i| i.to_vec()).collect();
    frames.push(b"<IDS|MSG>".to_vec());
    frames.push(Vec::new());
    frames.push(header("execute_request").to_json());
    frames.push(b"{}".to_vec());
    frames.push(Vec::new());
    frames.push(content.to_vec());
    frames
}

#[test]
fn reads_a_message_without_key() {
    let frames = request(&[b"peer"], b"{\"code\":\"1 + 2\"}");
    let msg = JupyterMessage::from_multipart(&frames, "", "hmac-sha256").unwrap();
    assert_eq!(msg.header.msg_id, "id-1");
    assert_eq!(msg.header.session, "session-1");
    assert_eq!(msg.header.username, "kernel");
    assert_eq!(msg.header.date, "2024-01-01T00:00:00Z");
    assert_eq!(msg.header.msg_type, "execute_request");
    assert_eq!(msg.header.version, "5.4");
    assert!(msg.parent_header.is_none());
    assert_eq!(msg.metadata, b"{}".to_vec());
    assert_eq!(msg.content, b"{\"code\":\"1 + 2\"}".to_vec());
}

#[test]
fn blank_frames_read_as_empty_objects() {
    for blank in [&b""[..], &b"{}"[..]] {
        let frames = request(&[], blank);
        let msg = JupyterMessage::from_multipart(&frames, "", "hmac-sha256").unwrap();
        assert_eq!(msg.content, b"{}".to_vec());
        assert_eq!(msg.metadata, b"{}".to_vec());
    }
    assert!(frame_is_blank(b""));
    assert!(frame_is_blank(b"{}"));
    assert!(!frame_is_blank(b"{ }"));
    assert!(!frame_is_blank(b"[]"));
    assert_eq!(normalise(b""), b"{}".to_vec());
    assert_eq!(normalise(b"{\"a\":1}"), b"{\"a\":1}".to_vec());
}

#[test]
fn faults_are_reported_in_order() {
    let mut frames = request(&[b"peer"], b"{}");
    assert!(matches!(
        JupyterMessage::from_multipart(&frames, "secret", "hmac-sha256"),
        Err(WireError::AuthenticationFailed)
    ));
    frames[3] = b"not json".to_vec();
    assert!(matches!(
        JupyterMessage::from_multipart(&frames, "", "hmac-sha256"),
        Err(WireError::InvalidPayload)
    ));
    frames.truncate(6);
    assert!(matches!(
        JupyterMessage::from_multipart(&frames, "", "hmac-sha256"),
        Err(WireError::TruncatedMessage)
    ));
    frames.remove(1);
    assert!(matches!(
        JupyterMessage::from_multipart(&frames, "", "hmac-sha256"),
        Err(WireError::MalformedMessage)
    ));
}

#[test]
fn payload_must_be_json() {
    let mut frames = request(&[], b"{\"a\":");
    assert!(matches!(
        JupyterMessage::from_multipart(&frames, "", "s"),
        Err(WireError::InvalidPayload)
    ));
    frames[5] = b"{\"a\":1}".to_vec();
    frames[4] = b"[1,".to_vec();
    assert!(matches!(
        JupyterMessage::from_multipart(&frames, "", "s"),
        Err(WireError::InvalidPayload)
    ));
    frames[4] = b"[1,2]".to_vec();
    frames[3] = b"{\"msg_id\":\"x\"}".to_vec();
    assert!(matches!(
        JupyterMessage::from_multipart(&frames, "", "s"),
        Err(WireError::InvalidPayload)
    ));
    frames[3] = header("status").to_json();
    let msg = JupyterMessage::from_multipart(&frames, "", "s").unwrap();
    assert_eq!(msg.parent_header.unwrap().msg_type, "status");
    assert_eq!(msg.metadata, b"[1,2]".to_vec());
}

#[test]
fn written_message_reads_back_with_the_same_content() {
    for key in ["", "a-secret-key"] {
        let incoming = request(&[b"peer-1", b"peer-2"], b"{}");
        let reply = JupyterMessage {
            header: header("execute_reply"),
            parent_header: Some(header("execute_request")),
            metadata: b"{}".to_vec(),
            content: "{\"status\":\"ok\",\"text\":\"h\u{e9}llo \\\" \\n\"}".as_bytes().to_vec(),
        };
        let out = reply.to_envelope_multipart(incoming, 2, key, "hmac-sha256");
        assert_eq!(out.len(), 8);
        assert_eq!(out[0], b"peer-1".to_vec());
        assert_eq!(out[1], b"peer-2".to_vec());
        assert_eq!(out[2], b"<IDS|MSG>".to_vec());
        let read = JupyterMessage::from_multipart(&out, key, "hmac-sha256").unwrap();
        assert_eq!(read.content, reply.content);
        assert_eq!(read.metadata, reply.metadata);
        assert_eq!(read.header.msg_type, "execute_reply");
        assert_eq!(read.header.msg_id, "id-1");
        assert_eq!(read.parent_header.unwrap().msg_type, "execute_request");
    }
}

#[test]
fn a_changed_byte_is_refused_under_a_key() {
    let incoming = request(&[b"peer"], b"{}");
    let reply = JupyterMessage {
        header: header("execute_reply"),
        parent_header: Some(header("execute_request")),
        metadata: b"{}".to_vec(),
        content: b"{\"n\":1}".to_vec(),
    };
    let mut out = reply.to_envelope_multipart(incoming, 1, "secret", "hmac-sha256");
    out[6] = b"{\"n\":2}".to_vec();
    assert!(matches!(
        JupyterMessage::from_multipart(&out, "secret", "hmac-sha256"),
        Err(WireError::AuthenticationFailed)
    ));
    assert!(JupyterMessage::from_multipart(&out, "", "hmac-sha256").is_ok());
}

#[test]
fn broadcast_has_no_identity_frames() {
    let h = header("status");
    let parent = Some(header("execute_request"));
    let out = build_pub(&h, &parent, b"{}", b"{\"execution_state\":\"busy\"}", "k", "hmac-sha256");
    assert_eq!(out.len(), 6);
    assert_eq!(out[0], b"<IDS|MSG>".to_vec());
    assert_eq!(out[2], h.to_json());
    assert_eq!(out[3], header("execute_request").to_json());
    assert_eq!(out[4], b"{}".to_vec());
    assert_eq!(out[5], b"{\"execution_state\":\"busy\"}".to_vec());
    let read = JupyterMessage::from_multipart(&out, "k", "hmac-sha256").unwrap();
    assert_eq!(read.header.msg_type, "status");
    let none = build_pub(&h, &None, b"{}", b"{}", "", "hmac-sha256");
    assert_eq!(none[1], Vec::<u8>::new());
    assert_eq!(none[3], b"{}".to_vec());
    let read = JupyterMessage::from_multipart(&none, "", "hmac-sha256").unwrap();
    assert!(read.parent_header.is_none());
}

#[test]
fn message_without_parent_reads_back_without_one() {
    for key in ["", "a-secret-key"] {
        let first = JupyterMessage {
            header: header("shutdown_request"),
            parent_header: None,
            metadata: b"{\"m\":[1,2]}".to_vec(),
            content: b"{\"restart\":false}".to_vec(),
        };
        let out = first.to_envelope_multipart(vec![b"<IDS|MSG>".to_vec()], 0, key, "hmac-sha256");
        assert_eq!(out.len(), 6);
        assert_eq!(out[3], b"{}".to_vec());
        assert_eq!(first.parent_to_json(), b"{}".to_vec());
        let read = JupyterMessage::from_multipart(&out, key, "hmac-sha256").unwrap();
        assert!(read.parent_header.is_none());
        assert_eq!(read.content, first.content);
        assert_eq!(read.metadata, first.metadata);
        assert_eq!(read.header.msg_id, first.header.msg_id);
        assert_eq!(read.header.msg_type, "shutdown_request");
    }
}

#[test]
fn message_with_parent_reads_back_whole() {
    let msg = JupyterMessage {
        header: header("execute_reply"),
        parent_header: Some(header("execute_request")),
        metadata: b"{}".to_vec(),
        content: b"{\"status\":\"ok\"}".to_vec(),
    };
    for identities in [0usize, 1, 3] {
        let mut prefix: Vec<Vec<u8>> = (0..identities).map(|i| vec![i as u8, 0xff]).collect();
        prefix.push(b"<IDS|MSG>".to_vec());
        prefix.push(b"left over from the request".to_vec());
        for key in ["", "k"] {
            let out = msg.to_envelope_multipart(prefix.clone(), identities, key, "hmac-sha256");
            assert_eq!(out.len(), identities + 6);
            let read = JupyterMessage::from_multipart(&out, key, "hmac-sha256").unwrap();
            assert_eq!(read.content, msg.content);
            assert_eq!(read.metadata, msg.metadata);
            assert_eq!(read.header.to_json(), msg.header.to_json());
            assert_eq!(
                read.parent_header.unwrap().to_json(),
                msg.parent_header.as_ref().unwrap().to_json()
            );
        }
    }
}
