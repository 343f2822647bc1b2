use iaiken::kernel_info::{KernelInfoReply, KI_LI_MIMETYPE};
use iaiken::messages::{ConnectionConfig, KernelSpec, MessageHeader, PROTOCOL_VERSION};

fn config() -> ConnectionConfig {
    ConnectionConfig {
        transport: "tcp".to_string(),
        ip: "127.0.0.1".to_string(),
        signature_scheme: "hmac-sha256".to_string(),
        key: "secret".to_string(),
        control_port: 50001,
        shell_port: 50002,
        stdin_port: 50003,
        hb_port: 50004,
        iopub_port: 65535,
    }
}

#[test]
fn addresses_are_scheme_ip_port() {
    let c = config();
    assert_eq!(c.shell_address(), "tcp://127.0.0.1:50002");
    assert_eq!(c.control_address(), "tcp://127.0.0.1:50001");
    assert_eq!(c.stdin_address(), "tcp://127.0.0.1:50003");
    assert_eq!(c.hb_address(), "tcp://127.0.0.1:50004");
    assert_eq!(c.iopub_address(), "tcp://127.0.0.1:65535");
    assert_eq!(c.duplicate().iopub_address(), c.iopub_address());
    assert_eq!(c.duplicate().key, "secret");
    let zero = ConnectionConfig { transport: "ipc".to_string(), ip: "".to_string(), shell_port: 0, ..config() };
    assert_eq!(zero.shell_address(), "ipc://:0");
}

#[test]
fn connection_file_is_read() {
    let text = br#"{
        "shell_port": 1, "iopub_port": 2, "stdin_port": 3, "control_port": 4, "hb_port": 5,
        "ip": "10.0.0.1", "key": "abc", "transport": "tcp",
        "signature_scheme": "hmac-sha256", "kernel_name": "aiken"
    }"#;
    let c = ConnectionConfig::from_json(text).unwrap();
    assert_eq!(c.transport, "tcp");
    assert_eq!(c.ip, "10.0.0.1");
    assert_eq!(c.key, "abc");
    assert_eq!(c.signature_scheme, "hmac-sha256");
    assert_eq!((c.shell_port, c.iopub_port, c.stdin_port, c.control_port, c.hb_port), (1, 2, 3, 4, 5));
}

#[test]
fn connection_file_with_a_fault_is_refused() {
    assert!(ConnectionConfig::from_json(b"not json").is_none());
    assert!(ConnectionConfig::from_json(b"{}").is_none());
    let missing = br#"{"shell_port":1,"iopub_port":2,"stdin_port":3,"control_port":4,
        "ip":"i","key":"k","transport":"t","signature_scheme":"s"}"#;
    assert!(ConnectionConfig::from_json(missing).is_none());
    let too_large = br#"{"shell_port":65536,"iopub_port":2,"stdin_port":3,"control_port":4,
        "hb_port":5,"ip":"i","key":"k","transport":"t","signature_scheme":"s"}"#;
    assert!(ConnectionConfig::from_json(too_large).is_none());
    let text_port = br#"{"shell_port":"1","iopub_port":2,"stdin_port":3,"control_port":4,
        "hb_port":5,"ip":"i","key":"k","transport":"t","signature_scheme":"s"}"#;
    assert!(ConnectionConfig::from_json(text_port).is_none());
}

#[test]
fn fresh_headers_belong_to_the_kernel() {
    let a = MessageHeader::new("s-1".to_string(), "status".to_string());
    let b = MessageHeader::new("s-1".to_string(), "status".to_string());
    assert_eq!(a.session, "s-1");
    assert_eq!(a.msg_type, "status");
    assert_eq!(a.username, "kernel");
    assert_eq!(a.version, PROTOCOL_VERSION);
    assert_eq!(PROTOCOL_VERSION, "5.4");
    assert_eq!(a.msg_id.len(), 36);
    assert_ne!(a.msg_id, b.msg_id);
    assert!(!a.date.is_empty());
}

#[test]
fn header_is_written_as_json_in_field_order() {
    let h = MessageHeader::with_id_and_date(
        "i\"d".to_string(),
        "d".to_string(),
        "s\n".to_string(),
        "t".to_string(),
    );
    assert_eq!(
        String::from_utf8(h.to_json()).unwrap(),
        "{\"msg_id\":\"i\\\"d\",\"session\":\"s\\n\",\"username\":\"kernel\",\"date\":\"d\",\"msg_type\":\"t\",\"version\":\"5.4\"}"
    );
    let back = MessageHeader::from_json(&h.to_json()).unwrap();
    assert_eq!(back.msg_id, "i\"d");
    assert_eq!(back.session, "s\n");
    let copy = h.duplicate();
    assert_eq!(copy.to_json(), h.to_json());
}

#[test]
fn header_needs_all_six_strings() {
    assert!(MessageHeader::from_json(b"").is_none());
    assert!(MessageHeader::from_json(b"null").is_none());
    assert!(MessageHeader::from_json(
        br#"{"msg_id":"a","session":"b","username":"c","date":"d","msg_type":"e"}"#
    )
    .is_none());
    assert!(MessageHeader::from_json(
        br#"{"msg_id":"a","session":"b","username":"c","date":"d","msg_type":"e","version":5}"#
    )
    .is_none());
    let h = MessageHeader::from_json(
        br#"{"version":"5.3","extra":[1],"msg_id":"a","session":"b","username":"c","date":"d","msg_type":"e"}"#,
    )
    .unwrap();
    assert_eq!(h.version, "5.3");
    assert_eq!(h.msg_type, "e");
}

#[test]
fn kernel_spec_starts_the_executable_with_the_connection_file() {
    let spec = KernelSpec::new("/usr/bin/iaiken");
    assert_eq!(spec.argv, vec!["/usr/bin/iaiken", "--connection-file", "{connection_file}"]);
    assert_eq!(spec.display_name, "Aiken");
    assert_eq!(spec.language, "aiken");
    assert!(spec.env.is_none());
}

#[test]
fn kernel_info_describes_this_kernel() {
    let reply = KernelInfoReply::new();
    assert_eq!(reply.status, "ok");
    assert_eq!(reply.protocol_version, "5.4");
    assert_eq!(reply.implementation, "aiken");
    assert_eq!(reply.language_info.file_extension, ".ak");
    assert_eq!(reply.language_info.mimetype, KI_LI_MIMETYPE);
    assert_eq!(reply.help_links.len(), 1);
    assert!(!reply.debugger);
    let json: serde_json::Value = serde_json::from_slice(&reply.to_json()).unwrap();
    assert_eq!(json["status"], "ok");
    assert_eq!(json["protocol_version"], "5.4");
    assert_eq!(json["implementation_version"], "0.0.1");
    assert_eq!(json["language_info"]["name"], "aiken");
    assert_eq!(json["language_info"]["mimetype"], "text/x-aiken");
    assert_eq!(json["language_info"]["pygments_lexer"], "aiken");
    assert_eq!(json["language_info"]["codemirror_mode"], "aiken");
    assert_eq!(json["language_info"]["nbconvert_exporter"], "script");
    assert_eq!(json["banner"], "Aiken Kernel v0.1.0\nCardano Smart Contract Language");
    assert_eq!(json["debugger"], false);
    assert_eq!(json["help_links"][0]["text"], "Aiken Documentation");
    assert_eq!(json["help_links"][0]["url"], "https://aiken-lang.org/");
    assert!(json["supported_features"].is_null());
    assert_eq!(json.as_object().unwrap().len(), 9);
}
