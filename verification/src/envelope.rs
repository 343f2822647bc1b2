//! The envelope: a message's header, parent header, metadata and content,
//! read from and written to signed frames.

use crate::json::{is_json, json_is_valid};
use crate::messages::{header_json, is_header_json, is_header_of, MessageHeader};
use crate::wire::{
    copy_bytes, frame_views, is_first_delimiter, law_sealed_frames_open,
    open_frames, opened, seal_frames, sealed, WireError,
};
use vstd::prelude::*;
use vstd::string::StringSliceAdditionalSpecFns;

verus! {

/// One message. Metadata and content are held as the JSON bytes of their
/// frames; an absent or empty one is held as `{}`.
#[derive(Debug)]
pub struct JupyterMessage {
    /// The header of this message.
    pub header: MessageHeader,
    /// The header of the message that this one answers.
    pub parent_header: Option<MessageHeader>,
    /// Metadata, as JSON.
    pub metadata: Vec<u8>,
    /// Content, as JSON; its members depend on the message type.
    pub content: Vec<u8>,
}

/// The bytes of the empty JSON object, `{}`.
pub open spec fn empty_object() -> Seq<u8> {
    seq![123u8, 125u8]
}

/// A frame that stands for nothing: empty, or `{}`.
pub open spec fn is_blank(frame: Seq<u8>) -> bool {
    frame.len() == 0 || frame == empty_object()
}

/// A frame as it is held in a message: `{}` for a blank one.
pub open spec fn normalised(frame: Seq<u8>) -> Seq<u8> {
    if is_blank(frame) {
        empty_object()
    } else {
        frame
    }
}

/// The four payload frames can be read: a header, a parent header or a
/// blank, and JSON or a blank for metadata and for content.
pub open spec fn payload_ok(
    header: Seq<u8>,
    parent_header: Seq<u8>,
    metadata: Seq<u8>,
    content: Seq<u8>,
) -> bool {
    &&& is_header_json(header)
    &&& is_blank(parent_header) || is_header_json(parent_header)
    &&& is_blank(metadata) || is_json(metadata)
    &&& is_blank(content) || is_json(content)
}

/// `msg` is what the four payload frames say.
pub open spec fn is_decoded(
    msg: JupyterMessage,
    header: Seq<u8>,
    parent_header: Seq<u8>,
    metadata: Seq<u8>,
    content: Seq<u8>,
) -> bool {
    &&& is_header_of(msg.header, header)
    &&& if is_blank(parent_header) {
        msg.parent_header.is_none()
    } else {
        msg.parent_header.is_some() && is_header_of(msg.parent_header.unwrap(), parent_header)
    }
    &&& msg.metadata@ == normalised(metadata)
    &&& msg.content@ == normalised(content)
}

/// `result` is the reading of `frames` under `key`: the first fault in the
/// order delimiter, length, signature, payload; or the message.
pub open spec fn is_decoding(
    result: Result<JupyterMessage, WireError>,
    frames: Seq<Vec<u8>>,
    key: Seq<u8>,
) -> bool {
    match opened(frames, key) {
        Err(e) => result matches Err(x) && x == e,
        Ok(d) => if payload_ok(frames[d + 2]@, frames[d + 3]@, frames[d + 4]@, frames[d + 5]@) {
            result matches Ok(msg) && is_decoded(
                msg,
                frames[d + 2]@,
                frames[d + 3]@,
                frames[d + 4]@,
                frames[d + 5]@,
            )
        } else {
            result matches Err(x) && x == WireError::InvalidPayload
        },
    }
}

/// The parent header's frame: the header's JSON, or `{}` for none, which
/// reads back as none.
pub open spec fn parent_json(parent: Option<MessageHeader>) -> Seq<char> {
    match parent {
        Some(h) => header_json(h),
        None => "{}"@,
    }
}

/// Whether a frame is empty or `{}`.
pub fn frame_is_blank(frame: &[u8]) -> (r: bool)
    ensures
        r == is_blank(frame@),
{
    if frame.len() == 0 {
        return true;
    }
    let r = frame.len() == 2 && frame[0] == 123 && frame[1] == 125;
    proof {
        if r {
            assert(frame@ =~= empty_object());
        }
    }
    r
}

/// A frame as it is held in a message.
pub fn normalise(frame: &[u8]) -> (out: Vec<u8>)
    ensures
        out@ == normalised(frame@),
{
    if frame_is_blank(frame) {
        let mut out: Vec<u8> = Vec::new();
        out.push(123);
        out.push(125);
        assert(out@ =~= empty_object());
        out
    } else {
        copy_bytes(frame)
    }
}

impl JupyterMessage {
    /// Reads a message from its frames: finds the delimiter, checks the
    /// length and the signature, then reads the four payload frames.
    pub fn from_multipart(frames: &[Vec<u8>], config_key: &str, config_signature_scheme: &str) -> (r:
        Result<JupyterMessage, WireError>)
        ensures
            is_decoding(r, frames@, config_key.spec_bytes()),
    {
        let d = match open_frames(frames, config_key, config_signature_scheme) {
            Ok(d) => d,
            Err(e) => {
                return Err(e);
            },
        };
        let header_bytes = frames[d + 2].as_slice();
        let parent_bytes = frames[d + 3].as_slice();
        let metadata_bytes = frames[d + 4].as_slice();
        let content_bytes = frames[d + 5].as_slice();
        let header = match MessageHeader::from_json(header_bytes) {
            Some(h) => h,
            None => {
                return Err(WireError::InvalidPayload);
            },
        };
        let parent_header = if frame_is_blank(parent_bytes) {
            None
        } else {
            match MessageHeader::from_json(parent_bytes) {
                Some(h) => Some(h),
                None => {
                    return Err(WireError::InvalidPayload);
                },
            }
        };
        if !frame_is_blank(metadata_bytes) && !json_is_valid(metadata_bytes) {
            return Err(WireError::InvalidPayload);
        }
        if !frame_is_blank(content_bytes) && !json_is_valid(content_bytes) {
            return Err(WireError::InvalidPayload);
        }
        Ok(
            JupyterMessage {
                header,
                parent_header,
                metadata: normalise(metadata_bytes),
                content: normalise(content_bytes),
            },
        )
    }

    /// The parent header as the bytes of its frame.
    pub fn parent_to_json(&self) -> (out: Vec<u8>)
        ensures
            out@ == vstd::utf8::encode_utf8(parent_json(self.parent_header)),
    {
        match &self.parent_header {
            Some(h) => h.to_json(),
            None => {
                let text = crate::text::chars_of("{}");
                crate::json::to_bytes(text.as_slice())
            },
        }
    }

    /// Writes the message as frames behind the routing prefix of the request
    /// that it answers, `frames[..= delim_index]`, signed under `key`.
    pub fn to_envelope_multipart(
        &self,
        frames: Vec<Vec<u8>>,
        delim_index: usize,
        key: &str,
        scheme: &str,
    ) -> (out: Vec<Vec<u8>>)
        requires
            delim_index < frames.len(),
        ensures
            frame_views(out@) == sealed(
                frame_views(frames@).subrange(0, delim_index + 1),
                key.spec_bytes(),
                vstd::utf8::encode_utf8(header_json(self.header)),
                vstd::utf8::encode_utf8(parent_json(self.parent_header)),
                self.metadata@,
                self.content@,
            ),
    {
        let h = self.header.to_json();
        let p = self.parent_to_json();
        seal_frames(
            frames.as_slice(),
            delim_index,
            key,
            scheme,
            h.as_slice(),
            p.as_slice(),
            self.metadata.as_slice(),
            self.content.as_slice(),
        )
    }
}

/// The text `{}` is the two bytes of the empty object.
pub proof fn lemma_empty_object_text()
    ensures
        vstd::utf8::encode_utf8("{}"@) == empty_object(),
{
    reveal_strlit("{}");
    let text = "{}"@;
    assert(vstd::utf8::is_ascii_chars(text));
    vstd::utf8::is_ascii_chars_encode_utf8(text);
    assert(vstd::utf8::encode_utf8(text) =~= empty_object());
}

/// The frame of a header is never blank: an object with six members is
/// longer than `{}`.
pub proof fn lemma_header_frame_is_not_blank(h: MessageHeader)
    ensures
        !is_blank(vstd::utf8::encode_utf8(header_json(h))),
{
    let text = header_json(h);
    assert(text.len() >= 3);
    crate::text::lemma_encoding_is_no_shorter(text);
}

/// `read` is what comes back of `msg`: content and metadata byte for byte,
/// a blank one as `{}`, and a parent where and only where `msg` has one,
/// read from the frame that was written for it.
pub open spec fn reads_back(read: JupyterMessage, msg: JupyterMessage) -> bool {
    &&& read.content@ == normalised(msg.content@)
    &&& read.metadata@ == normalised(msg.metadata@)
    &&& is_header_of(read.header, vstd::utf8::encode_utf8(header_json(msg.header)))
    &&& match msg.parent_header {
        Some(parent) => read.parent_header.is_some() && is_header_of(
            read.parent_header.unwrap(),
            vstd::utf8::encode_utf8(header_json(parent)),
        ),
        None => read.parent_header.is_none(),
    }
}

/// What reading gives back of a message that was written: never a fault of
/// framing or signature, whatever the key and however many identity frames.
/// Where the payload is read, the content and the metadata are those that
/// were written, byte for byte, and the message has a parent exactly if the
/// written one had. A message without a parent, the first of a causal
/// chain, reads back without one.
pub proof fn law_envelope_round_trip(
    msg: JupyterMessage,
    prefix: Seq<Vec<u8>>,
    delim: int,
    key: Seq<u8>,
    frames: Seq<Vec<u8>>,
    result: Result<JupyterMessage, WireError>,
)
    requires
        is_first_delimiter(prefix, delim),
        frame_views(frames) == sealed(
            frame_views(prefix).subrange(0, delim + 1),
            key,
            vstd::utf8::encode_utf8(header_json(msg.header)),
            vstd::utf8::encode_utf8(parent_json(msg.parent_header)),
            msg.metadata@,
            msg.content@,
        ),
        is_decoding(result, frames, key),
    ensures
        match result {
            Ok(read) => reads_back(read, msg) && (msg.content@.len() > 0 ==> read.content@
                == msg.content@),
            Err(e) => e == WireError::InvalidPayload,
        },
{
    law_sealed_frames_open(
        prefix,
        delim,
        key,
        vstd::utf8::encode_utf8(header_json(msg.header)),
        vstd::utf8::encode_utf8(parent_json(msg.parent_header)),
        msg.metadata@,
        msg.content@,
        frames,
    );
    match msg.parent_header {
        Some(parent) => {
            lemma_header_frame_is_not_blank(parent);
        },
        None => {
            lemma_empty_object_text();
        },
    }
}

/// Whether a written message is read again depends on the header alone:
/// the read succeeds exactly if the header's frame is read as a header, and
/// the parent's frame where there is a parent, and metadata and content are
/// JSON or blank.
pub proof fn law_written_message_is_read(
    msg: JupyterMessage,
    prefix: Seq<Vec<u8>>,
    delim: int,
    key: Seq<u8>,
    frames: Seq<Vec<u8>>,
    result: Result<JupyterMessage, WireError>,
)
    requires
        is_first_delimiter(prefix, delim),
        frame_views(frames) == sealed(
            frame_views(prefix).subrange(0, delim + 1),
            key,
            vstd::utf8::encode_utf8(header_json(msg.header)),
            vstd::utf8::encode_utf8(parent_json(msg.parent_header)),
            msg.metadata@,
            msg.content@,
        ),
        is_decoding(result, frames, key),
    ensures
        result.is_ok() == payload_ok(
            vstd::utf8::encode_utf8(header_json(msg.header)),
            vstd::utf8::encode_utf8(parent_json(msg.parent_header)),
            msg.metadata@,
            msg.content@,
        ),
{
    law_sealed_frames_open(
        prefix,
        delim,
        key,
        vstd::utf8::encode_utf8(header_json(msg.header)),
        vstd::utf8::encode_utf8(parent_json(msg.parent_header)),
        msg.metadata@,
        msg.content@,
        frames,
    );
}

/// Without a key, reading never fails for the signature, whatever the
/// signature frame holds.
pub proof fn law_empty_key_never_fails_authentication(
    frames: Seq<Vec<u8>>,
    key: Seq<u8>,
    result: Result<JupyterMessage, WireError>,
)
    requires
        key.len() == 0,
        is_decoding(result, frames, key),
    ensures
        !(result matches Err(e) && e == WireError::AuthenticationFailed),
{
    crate::wire::law_empty_key_accepts_any_signature(frames, key);
}

} // verus!
