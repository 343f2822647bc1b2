//! The protocol's values: message headers, the connection settings and the
//! kernel specification.

use crate::json::{
    field, json_number_field, json_text_field, number_field, object, quoted, text_field,
    text_value, to_bytes, write_object, Field,
};
use crate::text::{decimal, push_decimal, push_str, string_of};
use vstd::prelude::*;

verus! {

/// The version of the messaging protocol that this kernel speaks.
pub const PROTOCOL_VERSION: &'static str = "5.4";

/// The header of one message.
#[derive(Debug)]
pub struct MessageHeader {
    /// Identifies this message; fresh for every message.
    pub msg_id: String,
    /// Identifies the session; the same for the kernel's lifetime.
    pub session: String,
    /// Who sent the message.
    pub username: String,
    /// When the message was made, ISO 8601.
    pub date: String,
    /// The message type, such as `execute_request`.
    pub msg_type: String,
    /// The protocol version.
    pub version: String,
}

/// The header as a JSON object, members in the order of the fields.
pub open spec fn header_json(h: MessageHeader) -> Seq<char> {
    object(
        seq![
            ("msg_id"@, quoted(h.msg_id@)),
            ("session"@, quoted(h.session@)),
            ("username"@, quoted(h.username@)),
            ("date"@, quoted(h.date@)),
            ("msg_type"@, quoted(h.msg_type@)),
            ("version"@, quoted(h.version@)),
        ],
    )
}

/// The bytes are a JSON object with a string under each of the six header
/// fields.
pub open spec fn is_header_json(bytes: Seq<u8>) -> bool {
    &&& text_field(bytes, "msg_id"@).is_some()
    &&& text_field(bytes, "session"@).is_some()
    &&& text_field(bytes, "username"@).is_some()
    &&& text_field(bytes, "date"@).is_some()
    &&& text_field(bytes, "msg_type"@).is_some()
    &&& text_field(bytes, "version"@).is_some()
}

/// `h` holds what the bytes say under the six header fields.
pub open spec fn is_header_of(h: MessageHeader, bytes: Seq<u8>) -> bool {
    &&& text_field(bytes, "msg_id"@) == Some(h.msg_id@)
    &&& text_field(bytes, "session"@) == Some(h.session@)
    &&& text_field(bytes, "username"@) == Some(h.username@)
    &&& text_field(bytes, "date"@) == Some(h.date@)
    &&& text_field(bytes, "msg_type"@) == Some(h.msg_type@)
    &&& text_field(bytes, "version"@) == Some(h.version@)
}

/// `h` is a header that this kernel makes for `session` and `msg_type`:
/// sent by `kernel`, in the protocol version of this kernel. Its identifier
/// and date are whatever they were drawn as.
pub open spec fn is_kernel_header(h: MessageHeader, session: Seq<char>, msg_type: Seq<char>) -> bool {
    &&& h.session@ == session
    &&& h.msg_type@ == msg_type
    &&& h.username@ == "kernel"@
    &&& h.version@ == PROTOCOL_VERSION@
}

/// Trusted: `uuid::Uuid::new_v4` and its `to_string`. A random identifier;
/// nothing is promised of it.
#[verifier::external_body]
fn fresh_message_id() -> (id: String) {
    uuid::Uuid::new_v4().to_string()
}

/// Trusted: `chrono::Utc::now` and `DateTime::to_rfc3339`. The current time
/// as text; nothing is promised of it.
#[verifier::external_body]
fn current_timestamp() -> (date: String) {
    chrono::Utc::now().to_rfc3339()
}

impl MessageHeader {
    /// A header of this kernel with the given identifier and date.
    pub fn with_id_and_date(msg_id: String, date: String, session: String, msg_type: String) -> (h:
        MessageHeader)
        ensures
            h.msg_id == msg_id,
            h.date == date,
            is_kernel_header(h, session@, msg_type@),
    {
        MessageHeader {
            msg_id,
            session,
            username: "kernel".to_owned(),
            date,
            msg_type,
            version: PROTOCOL_VERSION.to_owned(),
        }
    }

    /// A header of this kernel with a fresh identifier and the current time.
    pub fn new(session: String, msg_type: String) -> (h: MessageHeader)
        ensures
            is_kernel_header(h, session@, msg_type@),
    {
        MessageHeader::with_id_and_date(fresh_message_id(), current_timestamp(), session, msg_type)
    }

    /// A copy of the header.
    pub fn duplicate(&self) -> (h: MessageHeader)
        ensures
            h == *self,
    {
        MessageHeader {
            msg_id: self.msg_id.clone(),
            session: self.session.clone(),
            username: self.username.clone(),
            date: self.date.clone(),
            msg_type: self.msg_type.clone(),
            version: self.version.clone(),
        }
    }

    /// The header as JSON text.
    pub fn to_json_text(&self) -> (out: Vec<char>)
        ensures
            out@ == header_json(*self),
    {
        let mut fields: Vec<Field> = Vec::new();
        fields.push(field("msg_id", text_value(self.msg_id.as_str())));
        fields.push(field("session", text_value(self.session.as_str())));
        fields.push(field("username", text_value(self.username.as_str())));
        fields.push(field("date", text_value(self.date.as_str())));
        fields.push(field("msg_type", text_value(self.msg_type.as_str())));
        fields.push(field("version", text_value(self.version.as_str())));
        let out = write_object(&fields);
        assert(crate::json::field_views(fields@) =~= seq![
            ("msg_id"@, quoted(self.msg_id@)),
            ("session"@, quoted(self.session@)),
            ("username"@, quoted(self.username@)),
            ("date"@, quoted(self.date@)),
            ("msg_type"@, quoted(self.msg_type@)),
            ("version"@, quoted(self.version@)),
        ]);
        out
    }

    /// The header as the bytes of its frame.
    pub fn to_json(&self) -> (out: Vec<u8>)
        ensures
            out@ == vstd::utf8::encode_utf8(header_json(*self)),
    {
        let text = self.to_json_text();
        to_bytes(text.as_slice())
    }

    /// Reads a header frame. All six fields must be there as strings;
    /// other members are ignored.
    pub fn from_json(bytes: &[u8]) -> (r: Option<MessageHeader>)
        ensures
            r.is_some() == is_header_json(bytes@),
            r.is_some() ==> is_header_of(r.unwrap(), bytes@),
    {
        let msg_id = json_text_field(bytes, "msg_id");
        let session = json_text_field(bytes, "session");
        let username = json_text_field(bytes, "username");
        let date = json_text_field(bytes, "date");
        let msg_type = json_text_field(bytes, "msg_type");
        let version = json_text_field(bytes, "version");
        match (msg_id, session, username, date, msg_type, version) {
            (Some(msg_id), Some(session), Some(username), Some(date), Some(msg_type), Some(version)) => {
                Some(MessageHeader { msg_id, session, username, date, msg_type, version })
            },
            _ => None,
        }
    }
}

/// How the kernel is reached: transport, address, signing key and scheme,
/// and one port for each of the five channels.
#[derive(Debug)]
pub struct ConnectionConfig {
    pub transport: String,
    pub ip: String,
    pub signature_scheme: String,
    pub key: String,
    pub control_port: u16,
    pub shell_port: u16,
    pub stdin_port: u16,
    pub hb_port: u16,
    pub iopub_port: u16,
}

/// The address of a channel: `transport://ip:port`.
pub open spec fn address(transport: Seq<char>, ip: Seq<char>, port: u16) -> Seq<char> {
    transport + "://"@ + ip + ":"@ + decimal(port as nat)
}

/// The port under `field`, where the bytes hold a number there that fits
/// sixteen bits.
pub open spec fn port_field(bytes: Seq<u8>, field: Seq<char>) -> Option<u16> {
    match number_field(bytes, field) {
        Some(n) => if n <= u16::MAX {
            Some(n as u16)
        } else {
            None
        },
        None => None,
    }
}

/// The bytes are a connection file: an object with the four texts and the
/// five ports.
pub open spec fn is_connection_json(bytes: Seq<u8>) -> bool {
    &&& text_field(bytes, "transport"@).is_some()
    &&& text_field(bytes, "ip"@).is_some()
    &&& text_field(bytes, "signature_scheme"@).is_some()
    &&& text_field(bytes, "key"@).is_some()
    &&& port_field(bytes, "control_port"@).is_some()
    &&& port_field(bytes, "shell_port"@).is_some()
    &&& port_field(bytes, "stdin_port"@).is_some()
    &&& port_field(bytes, "hb_port"@).is_some()
    &&& port_field(bytes, "iopub_port"@).is_some()
}

/// `c` holds what the bytes of a connection file say.
pub open spec fn is_connection_of(c: ConnectionConfig, bytes: Seq<u8>) -> bool {
    &&& text_field(bytes, "transport"@) == Some(c.transport@)
    &&& text_field(bytes, "ip"@) == Some(c.ip@)
    &&& text_field(bytes, "signature_scheme"@) == Some(c.signature_scheme@)
    &&& text_field(bytes, "key"@) == Some(c.key@)
    &&& port_field(bytes, "control_port"@) == Some(c.control_port)
    &&& port_field(bytes, "shell_port"@) == Some(c.shell_port)
    &&& port_field(bytes, "stdin_port"@) == Some(c.stdin_port)
    &&& port_field(bytes, "hb_port"@) == Some(c.hb_port)
    &&& port_field(bytes, "iopub_port"@) == Some(c.iopub_port)
}

fn read_port(bytes: &[u8], field: &str) -> (r: Option<u16>)
    ensures
        r == port_field(bytes@, field@),
{
    match json_number_field(bytes, field) {
        Some(n) => if n <= 65535 {
            Some(n as u16)
        } else {
            None
        },
        None => None,
    }
}

fn channel_address(transport: &str, ip: &str, port: u16) -> (out: String)
    ensures
        out@ == address(transport@, ip@, port),
{
    let mut out: Vec<char> = Vec::new();
    push_str(&mut out, transport);
    push_str(&mut out, "://");
    push_str(&mut out, ip);
    push_str(&mut out, ":");
    push_decimal(&mut out, port as u64);
    assert(out@ =~= address(transport@, ip@, port));
    string_of(out.as_slice())
}

impl ConnectionConfig {
    /// Reads a connection file. Every field must be there, the ports as
    /// numbers below 65536.
    pub fn from_json(bytes: &[u8]) -> (r: Option<ConnectionConfig>)
        ensures
            r.is_some() == is_connection_json(bytes@),
            r.is_some() ==> is_connection_of(r.unwrap(), bytes@),
    {
        let transport = json_text_field(bytes, "transport");
        let ip = json_text_field(bytes, "ip");
        let signature_scheme = json_text_field(bytes, "signature_scheme");
        let key = json_text_field(bytes, "key");
        let control_port = read_port(bytes, "control_port");
        let shell_port = read_port(bytes, "shell_port");
        let stdin_port = read_port(bytes, "stdin_port");
        let hb_port = read_port(bytes, "hb_port");
        let iopub_port = read_port(bytes, "iopub_port");
        match (transport, ip, signature_scheme, key) {
            (Some(transport), Some(ip), Some(signature_scheme), Some(key)) => {
                match (control_port, shell_port, stdin_port, hb_port, iopub_port) {
                    (
                        Some(control_port),
                        Some(shell_port),
                        Some(stdin_port),
                        Some(hb_port),
                        Some(iopub_port),
                    ) => Some(
                        ConnectionConfig {
                            transport,
                            ip,
                            signature_scheme,
                            key,
                            control_port,
                            shell_port,
                            stdin_port,
                            hb_port,
                            iopub_port,
                        },
                    ),
                    _ => None,
                }
            },
            _ => None,
        }
    }

    /// A copy of the settings.
    pub fn duplicate(&self) -> (c: ConnectionConfig)
        ensures
            c == *self,
    {
        ConnectionConfig {
            transport: self.transport.clone(),
            ip: self.ip.clone(),
            signature_scheme: self.signature_scheme.clone(),
            key: self.key.clone(),
            control_port: self.control_port,
            shell_port: self.shell_port,
            stdin_port: self.stdin_port,
            hb_port: self.hb_port,
            iopub_port: self.iopub_port,
        }
    }

    /// The address of the shell channel.
    pub fn shell_address(&self) -> (out: String)
        ensures
            out@ == address(self.transport@, self.ip@, self.shell_port),
    {
        channel_address(self.transport.as_str(), self.ip.as_str(), self.shell_port)
    }

    /// The address of the control channel.
    pub fn control_address(&self) -> (out: String)
        ensures
            out@ == address(self.transport@, self.ip@, self.control_port),
    {
        channel_address(self.transport.as_str(), self.ip.as_str(), self.control_port)
    }

    /// The address of the stdin channel.
    pub fn stdin_address(&self) -> (out: String)
        ensures
            out@ == address(self.transport@, self.ip@, self.stdin_port),
    {
        channel_address(self.transport.as_str(), self.ip.as_str(), self.stdin_port)
    }

    /// The address of the heartbeat channel.
    pub fn hb_address(&self) -> (out: String)
        ensures
            out@ == address(self.transport@, self.ip@, self.hb_port),
    {
        channel_address(self.transport.as_str(), self.ip.as_str(), self.hb_port)
    }

    /// The address of the IOPub channel.
    pub fn iopub_address(&self) -> (out: String)
        ensures
            out@ == address(self.transport@, self.ip@, self.iopub_port),
    {
        channel_address(self.transport.as_str(), self.ip.as_str(), self.iopub_port)
    }
}

/// What a frontend needs to start the kernel.
#[derive(Debug)]
pub struct KernelSpec {
    /// The command line that starts the kernel.
    pub argv: Vec<String>,
    /// The kernel's name in a user interface.
    pub display_name: String,
    /// The language that the kernel runs.
    pub language: String,
    /// Environment variables to set for the kernel.
    pub env: Option<Vec<(String, String)>>,
}

impl KernelSpec {
    /// The specification of this kernel, started from `executable_path`
    /// with the connection file handed in by the frontend.
    pub fn new(executable_path: &str) -> (spec: KernelSpec)
        ensures
            crate::session::texts(spec.argv@) == seq![
                executable_path@,
                "--connection-file"@,
                "{connection_file}"@,
            ],
            spec.display_name@ == "Aiken"@,
            spec.language@ == "aiken"@,
            spec.env.is_none(),
    {
        let mut argv: Vec<String> = Vec::new();
        argv.push(executable_path.to_owned());
        argv.push("--connection-file".to_owned());
        argv.push("{connection_file}".to_owned());
        assert(crate::session::texts(argv@) =~= seq![
            executable_path@,
            "--connection-file"@,
            "{connection_file}"@,
        ]);
        KernelSpec {
            argv,
            display_name: "Aiken".to_owned(),
            language: "aiken".to_owned(),
            env: None,
        }
    }
}

} // verus!
