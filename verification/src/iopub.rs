//! The events that the kernel broadcasts: status, echoed input, results,
//! streams and errors, each as the frames of a signed message.

use crate::contents::{text_array, write_text_array};
use crate::envelope::{empty_object, parent_json, JupyterMessage};
use crate::json::{
    field, field_views, number_value, object, quoted, text_value, to_bytes, write_object, Field,
};
use crate::messages::{header_json, is_kernel_header, MessageHeader};
use crate::session::texts;
use crate::text::decimal;
use crate::wire::{delimiter, frame_views, seal_frames, sealed};
use vstd::prelude::*;
use vstd::string::StringSliceAdditionalSpecFns;

verus! {

/// The content of a status event.
pub open spec fn status_json(state: Seq<char>) -> Seq<char> {
    object(seq![("execution_state"@, quoted(state))])
}

/// The content of an echoed input.
pub open spec fn execute_input_json(code: Seq<char>, execution_count: u32) -> Seq<char> {
    object(seq![("code"@, quoted(code)), ("execution_count"@, decimal(execution_count as nat))])
}

/// The content of a stream event.
pub open spec fn stream_json(name: Seq<char>, text: Seq<char>) -> Seq<char> {
    object(seq![("name"@, quoted(name)), ("text"@, quoted(text))])
}

/// The content of a result event; `data` and `metadata` are JSON text.
pub open spec fn execute_result_json(
    execution_count: u32,
    data: Seq<char>,
    metadata: Seq<char>,
) -> Seq<char> {
    object(
        seq![
            ("data"@, data),
            ("execution_count"@, decimal(execution_count as nat)),
            ("metadata"@, metadata),
        ],
    )
}

/// The content of an error event.
pub open spec fn error_json(ename: Seq<char>, evalue: Seq<char>, traceback: Seq<Seq<char>>) -> Seq<
    char,
> {
    object(
        seq![
            ("ename"@, quoted(ename)),
            ("evalue"@, quoted(evalue)),
            ("traceback"@, text_array(traceback)),
        ],
    )
}

/// The frames of a broadcast message: the delimiter, the signature and the
/// four payload frames. A broadcast has no identity frames.
pub open spec fn published(
    key: Seq<u8>,
    header: MessageHeader,
    parent_header: Option<MessageHeader>,
    metadata: Seq<u8>,
    content: Seq<u8>,
) -> Seq<Seq<u8>> {
    sealed(
        seq![delimiter()],
        key,
        vstd::utf8::encode_utf8(header_json(header)),
        vstd::utf8::encode_utf8(parent_json(parent_header)),
        metadata,
        content,
    )
}

/// `frames` broadcast `content` as a message of type `msg_type` in answer to
/// `request`: under a header of this kernel for the request's session, with
/// the request's header as parent and empty metadata.
pub open spec fn is_event(
    frames: Seq<Seq<u8>>,
    key: Seq<u8>,
    request: MessageHeader,
    msg_type: Seq<char>,
    content: Seq<char>,
) -> bool {
    exists|h: MessageHeader|
        is_kernel_header(h, request.session@, msg_type) && frames == #[trigger] published(
            key,
            h,
            Some(request),
            empty_object(),
            vstd::utf8::encode_utf8(content),
        )
}

/// Signs and frames a broadcast message.
pub fn build_pub(
    header: &MessageHeader,
    parent_header: &Option<MessageHeader>,
    metadata: &[u8],
    content: &[u8],
    key: &str,
    scheme: &str,
) -> (out: Vec<Vec<u8>>)
    ensures
        frame_views(out@) == published(
            key.spec_bytes(),
            *header,
            *parent_header,
            metadata@,
            content@,
        ),
{
    let mut marker: Vec<u8> = Vec::new();
    marker.push(60);
    marker.push(73);
    marker.push(68);
    marker.push(83);
    marker.push(124);
    marker.push(77);
    marker.push(83);
    marker.push(71);
    marker.push(62);
    assert(marker@ =~= delimiter());
    let mut prefix: Vec<Vec<u8>> = Vec::new();
    prefix.push(marker);
    assert(frame_views(prefix@).subrange(0, 1) =~= seq![delimiter()]);
    let h = header.to_json();
    let p = match parent_header {
        Some(parent) => parent.to_json(),
        None => {
            let text = crate::text::chars_of("{}");
            to_bytes(text.as_slice())
        },
    };
    seal_frames(prefix.as_slice(), 0, key, scheme, h.as_slice(), p.as_slice(), metadata, content)
}

impl JupyterMessage {
    /// Broadcasts `content` under `header` in answer to this message.
    pub fn to_iopub(&self, header: MessageHeader, content: &[char], key: &str, scheme: &str) -> (out:
        Vec<Vec<u8>>)
        ensures
            frame_views(out@) == published(
                key.spec_bytes(),
                header,
                Some(self.header),
                empty_object(),
                vstd::utf8::encode_utf8(content@),
            ),
    {
        let parent = Some(self.header.duplicate());
        let mut metadata: Vec<u8> = Vec::new();
        metadata.push(123);
        metadata.push(125);
        assert(metadata@ =~= empty_object());
        let bytes = to_bytes(content);
        build_pub(&header, &parent, metadata.as_slice(), bytes.as_slice(), key, scheme)
    }

    /// The kernel's state, `busy` or `idle`, as a broadcast.
    pub fn to_iopub_status(&self, key: &str, scheme: &str, state: &str) -> (out: Vec<Vec<u8>>)
        ensures
            is_event(
                frame_views(out@),
                key.spec_bytes(),
                self.header,
                "status"@,
                status_json(state@),
            ),
    {
        let header = MessageHeader::new(self.header.session.clone(), "status".to_owned());
        let mut fields: Vec<Field> = Vec::new();
        fields.push(field("execution_state", text_value(state)));
        assert(field_views(fields@) =~= seq![("execution_state"@, quoted(state@))]);
        let content = write_object(&fields);
        self.to_iopub(header, content.as_slice(), key, scheme)
    }

    /// The code that is about to run, with its number, as a broadcast.
    pub fn to_iopub_execute_input(
        &self,
        key: &str,
        scheme: &str,
        code: &str,
        execution_count: u32,
    ) -> (out: Vec<Vec<u8>>)
        ensures
            is_event(
                frame_views(out@),
                key.spec_bytes(),
                self.header,
                "execute_input"@,
                execute_input_json(code@, execution_count),
            ),
    {
        let header = MessageHeader::new(self.header.session.clone(), "execute_input".to_owned());
        let mut fields: Vec<Field> = Vec::new();
        fields.push(field("code", text_value(code)));
        fields.push(field("execution_count", number_value(execution_count as u64)));
        assert(field_views(fields@) =~= seq![
            ("code"@, quoted(code@)),
            ("execution_count"@, decimal(execution_count as nat)),
        ]);
        let content = write_object(&fields);
        self.to_iopub(header, content.as_slice(), key, scheme)
    }

    /// Text for the named stream, `stdout` or `stderr`, as a broadcast.
    pub fn to_iopub_stream(&self, key: &str, scheme: &str, name: &str, text: &str) -> (out: Vec<
        Vec<u8>,
    >)
        ensures
            is_event(
                frame_views(out@),
                key.spec_bytes(),
                self.header,
                "stream"@,
                stream_json(name@, text@),
            ),
    {
        let header = MessageHeader::new(self.header.session.clone(), "stream".to_owned());
        let mut fields: Vec<Field> = Vec::new();
        fields.push(field("name", text_value(name)));
        fields.push(field("text", text_value(text)));
        assert(field_views(fields@) =~= seq![("name"@, quoted(name@)), ("text"@, quoted(text@))]);
        let content = write_object(&fields);
        self.to_iopub(header, content.as_slice(), key, scheme)
    }

    /// The result of an execution, with its number, as a broadcast. `data`
    /// and `metadata` are JSON text.
    pub fn to_iopub_execute_result(
        &self,
        key: &str,
        scheme: &str,
        execution_count: u32,
        data: &[char],
        metadata: &[char],
    ) -> (out: Vec<Vec<u8>>)
        ensures
            is_event(
                frame_views(out@),
                key.spec_bytes(),
                self.header,
                "execute_result"@,
                execute_result_json(execution_count, data@, metadata@),
            ),
    {
        let header = MessageHeader::new(self.header.session.clone(), "execute_result".to_owned());
        let mut fields: Vec<Field> = Vec::new();
        assert(data@.subrange(0, data@.len() as int) =~= data@);
        assert(metadata@.subrange(0, metadata@.len() as int) =~= metadata@);
        fields.push(field("data", crate::text::slice_chars(data, 0, data.len())));
        fields.push(field("execution_count", number_value(execution_count as u64)));
        fields.push(field("metadata", crate::text::slice_chars(metadata, 0, metadata.len())));
        assert(field_views(fields@) =~= seq![
            ("data"@, data@),
            ("execution_count"@, decimal(execution_count as nat)),
            ("metadata"@, metadata@),
        ]);
        let content = write_object(&fields);
        self.to_iopub(header, content.as_slice(), key, scheme)
    }

    /// A failed execution as a broadcast: the error's name, its value and
    /// its lines.
    pub fn to_iopub_error(
        &self,
        key: &str,
        scheme: &str,
        ename: &str,
        evalue: &str,
        traceback: &Vec<String>,
    ) -> (out: Vec<Vec<u8>>)
        ensures
            is_event(
                frame_views(out@),
                key.spec_bytes(),
                self.header,
                "error"@,
                error_json(ename@, evalue@, texts(traceback@)),
            ),
    {
        let header = MessageHeader::new(self.header.session.clone(), "error".to_owned());
        let mut fields: Vec<Field> = Vec::new();
        fields.push(field("ename", text_value(ename)));
        fields.push(field("evalue", text_value(evalue)));
        fields.push(field("traceback", write_text_array(traceback)));
        assert(field_views(fields@) =~= seq![
            ("ename"@, quoted(ename@)),
            ("evalue"@, quoted(evalue@)),
            ("traceback"@, text_array(texts(traceback@))),
        ]);
        let content = write_object(&fields);
        self.to_iopub(header, content.as_slice(), key, scheme)
    }
}

} // verus!
