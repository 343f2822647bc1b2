//! Framing of the multi-part wire message: identity frames, the delimiter
//! frame, then signature, header, parent header, metadata and content.

use crate::crypto::{sign_message, signature_frame};
use crate::text::{decimal, push_decimal, push_str, string_of};
use vstd::prelude::*;
use vstd::string::StringSliceAdditionalSpecFns;

verus! {

/// What can be wrong with an incoming frame list.
#[derive(Debug, Clone, Copy, PartialEq, Eq, Structural)]
pub enum WireError {
    /// No frame holds the delimiter marker.
    MalformedMessage,
    /// Fewer than five frames follow the delimiter.
    TruncatedMessage,
    /// The signature frame does not match the signature of the payload.
    AuthenticationFailed,
    /// A payload frame is not the JSON that its position calls for.
    InvalidPayload,
}

impl WireError {
    /// The fault in words, for a frame list of `frames` frames.
    pub open spec fn text(self, frames: nat) -> Seq<char> {
        match self {
            WireError::MalformedMessage => "Malformed message: missing <IDS|MSG> delimiter with "@
                + decimal(frames) + " frames"@,
            WireError::TruncatedMessage => "Invalid message format: Only "@ + decimal(frames)
                + " frames!"@,
            WireError::AuthenticationFailed => "Warning: incoming HMAC mismatch"@,
            WireError::InvalidPayload => "Invalid message payload"@,
        }
    }

    /// The fault in words, for a frame list of `frames` frames.
    pub fn message(&self, frames: usize) -> (out: String)
        ensures
            out@ == self.text(frames as nat),
    {
        let mut out: Vec<char> = Vec::new();
        match self {
            WireError::MalformedMessage => {
                push_str(&mut out, "Malformed message: missing <IDS|MSG> delimiter with ");
                push_decimal(&mut out, frames as u64);
                push_str(&mut out, " frames");
            },
            WireError::TruncatedMessage => {
                push_str(&mut out, "Invalid message format: Only ");
                push_decimal(&mut out, frames as u64);
                push_str(&mut out, " frames!");
            },
            WireError::AuthenticationFailed => {
                push_str(&mut out, "Warning: incoming HMAC mismatch");
            },
            WireError::InvalidPayload => {
                push_str(&mut out, "Invalid message payload");
            },
        }
        assert(out@ =~= self.text(frames as nat));
        string_of(out.as_slice())
    }
}

/// The marker bytes of the delimiter frame, `<IDS|MSG>`.
pub open spec fn delimiter() -> Seq<u8> {
    seq![60u8, 73u8, 68u8, 83u8, 124u8, 77u8, 83u8, 71u8, 62u8]
}

/// `frames[i]` is the first delimiter frame.
pub open spec fn is_first_delimiter(frames: Seq<Vec<u8>>, i: int) -> bool {
    &&& 0 <= i < frames.len()
    &&& frames[i]@ == delimiter()
    &&& forall|j: int| 0 <= j < i ==> (#[trigger] frames[j])@ != delimiter()
}

/// No frame is a delimiter frame.
pub open spec fn has_no_delimiter(frames: Seq<Vec<u8>>) -> bool {
    forall|j: int| 0 <= j < frames.len() ==> (#[trigger] frames[j])@ != delimiter()
}

/// Whether one frame holds exactly the delimiter marker.
pub fn is_delimiter(frame: &Vec<u8>) -> (r: bool)
    ensures
        r == (frame@ == delimiter()),
{
    if frame.len() != 9 {
        return false;
    }
    let r = frame[0] == 60 && frame[1] == 73 && frame[2] == 68 && frame[3] == 83 && frame[4]
        == 124 && frame[5] == 77 && frame[6] == 83 && frame[7] == 71 && frame[8] == 62;
    proof {
        if r {
            assert(frame@ =~= delimiter());
        }
    }
    r
}

/// Finds the delimiter by a scan from the front, so that any number of
/// identity frames may precede it.
pub fn delim_index(frames: &[Vec<u8>]) -> (r: Result<usize, WireError>)
    ensures
        match r {
            Ok(i) => is_first_delimiter(frames@, i as int),
            Err(e) => e == WireError::MalformedMessage && has_no_delimiter(frames@),
        },
{
    let mut i: usize = 0;
    while i < frames.len()
        invariant
            i <= frames.len(),
            forall|j: int| 0 <= j < i ==> (#[trigger] frames@[j])@ != delimiter(),
        decreases frames.len() - i,
    {
        if is_delimiter(&frames[i]) {
            return Ok(i);
        }
        i += 1;
    }
    Err(WireError::MalformedMessage)
}

/// Whether two byte strings are equal.
pub fn bytes_eq(a: &[u8], b: &[u8]) -> (r: bool)
    ensures
        r == (a@ == b@),
{
    if a.len() != b.len() {
        return false;
    }
    let mut i: usize = 0;
    while i < a.len()
        invariant
            i <= a.len(),
            a.len() == b.len(),
            forall|j: int| 0 <= j < i ==> a@[j] == b@[j],
        decreases a.len() - i,
    {
        if a[i] != b[i] {
            return false;
        }
        i += 1;
    }
    assert(a@ =~= b@);
    true
}

/// The signature frame of the message that starts at `delim` is accepted
/// under `key`: there is no key, or the frame is the signature of the four
/// frames behind it.
pub open spec fn signature_accepted(frames: Seq<Vec<u8>>, key: Seq<u8>, delim: int) -> bool {
    key.len() == 0 || frames[delim + 1]@ == signature_frame(
        key,
        frames[delim + 2]@,
        frames[delim + 3]@,
        frames[delim + 4]@,
        frames[delim + 5]@,
    )
}

/// Checks the signature frame against the payload frames as they were
/// received. Without a key nothing is looked at: every frame list is
/// accepted, whatever its length and whatever the signature frame holds.
pub fn verify_incoming_hmac(
    frames: &[Vec<u8>],
    config_key: &str,
    config_signature_scheme: &str,
    delim_index: usize,
) -> (r: Result<(), WireError>)
    requires
        config_key@.len() > 0 ==> delim_index + 5 < frames.len(),
    ensures
        r.is_ok() == signature_accepted(frames@, config_key.spec_bytes(), delim_index as int),
        r.is_err() ==> r == Err::<(), WireError>(WireError::AuthenticationFailed),
        config_key@.len() == 0 ==> r.is_ok(),
{
    proof {
        crate::text::lemma_encoding_is_no_shorter(config_key@);
    }
    if config_key.is_empty() {
        return Ok(());
    }
    let expected = sign_message(
        config_key,
        config_signature_scheme,
        frames[delim_index + 2].as_slice(),
        frames[delim_index + 3].as_slice(),
        frames[delim_index + 4].as_slice(),
        frames[delim_index + 5].as_slice(),
    );
    if bytes_eq(frames[delim_index + 1].as_slice(), expected.as_str().as_bytes()) {
        Ok(())
    } else {
        Err(WireError::AuthenticationFailed)
    }
}

/// What `open_frames` answers for a frame list: the place of the delimiter,
/// or the first thing that is wrong, in the order delimiter, length,
/// signature.
pub open spec fn opened(frames: Seq<Vec<u8>>, key: Seq<u8>) -> Result<int, WireError> {
    if has_no_delimiter(frames) {
        Err(WireError::MalformedMessage)
    } else {
        let d = choose|i: int| is_first_delimiter(frames, i);
        if frames.len() < d + 6 {
            Err(WireError::TruncatedMessage)
        } else if !signature_accepted(frames, key, d) {
            Err(WireError::AuthenticationFailed)
        } else {
            Ok(d)
        }
    }
}

/// There is at most one first delimiter.
pub proof fn lemma_first_delimiter_unique(frames: Seq<Vec<u8>>, i: int, j: int)
    requires
        is_first_delimiter(frames, i),
        is_first_delimiter(frames, j),
    ensures
        i == j,
{
    if i < j {
        assert(frames[i]@ != delimiter());
    } else if j < i {
        assert(frames[j]@ != delimiter());
    }
}

/// Where `d` is the first delimiter, `opened` speaks of `d`.
pub proof fn lemma_opened_at(frames: Seq<Vec<u8>>, key: Seq<u8>, d: int)
    requires
        is_first_delimiter(frames, d),
    ensures
        opened(frames, key) == if frames.len() < d + 6 {
            Err::<int, WireError>(WireError::TruncatedMessage)
        } else if !signature_accepted(frames, key, d) {
            Err(WireError::AuthenticationFailed)
        } else {
            Ok(d)
        },
{
    assert(!has_no_delimiter(frames)) by {
        if has_no_delimiter(frames) {
            assert(frames[d]@ != delimiter());
        }
    }
    let c = choose|i: int| is_first_delimiter(frames, i);
    lemma_first_delimiter_unique(frames, c, d);
}

/// Finds the delimiter, checks that five frames follow it, and checks the
/// signature. On success the payload is `frames[d + 2 ..= d + 5]`.
pub fn open_frames(frames: &[Vec<u8>], key: &str, scheme: &str) -> (r: Result<usize, WireError>)
    ensures
        match r {
            Ok(d) => opened(frames@, key.spec_bytes()) == Ok::<int, WireError>(d as int)
                && is_first_delimiter(frames@, d as int) && d + 5 < frames.len(),
            Err(e) => opened(frames@, key.spec_bytes()) == Err::<int, WireError>(e),
        },
{
    let d = match delim_index(frames) {
        Ok(d) => d,
        Err(e) => {
            return Err(e);
        },
    };
    proof {
        lemma_opened_at(frames@, key.spec_bytes(), d as int);
    }
    if frames.len() - d < 6 {
        return Err(WireError::TruncatedMessage);
    }
    match verify_incoming_hmac(frames, key, scheme, d) {
        Ok(_) => Ok(d),
        Err(e) => Err(e),
    }
}

/// The frames of an outgoing message: the prefix up to and including its
/// delimiter, the signature, and the four payload frames.
pub open spec fn sealed(
    prefix: Seq<Seq<u8>>,
    key: Seq<u8>,
    header: Seq<u8>,
    parent_header: Seq<u8>,
    metadata: Seq<u8>,
    content: Seq<u8>,
) -> Seq<Seq<u8>> {
    prefix + seq![
        signature_frame(key, header, parent_header, metadata, content),
        header,
        parent_header,
        metadata,
        content,
    ]
}

/// The byte strings of a frame list.
pub open spec fn frame_views(frames: Seq<Vec<u8>>) -> Seq<Seq<u8>> {
    frames.map_values(|f: Vec<u8>| f@)
}

/// A copy of a byte string.
pub fn copy_bytes(src: &[u8]) -> (out: Vec<u8>)
    ensures
        out@ == src@,
{
    let mut out: Vec<u8> = Vec::new();
    crate::crypto::append_bytes(&mut out, src);
    assert(out@ =~= src@);
    out
}

/// Signs a payload and frames it behind the routing prefix of the request
/// that it answers: `frames[..= delim_index]` is reused as it came.
pub fn seal_frames(
    frames: &[Vec<u8>],
    delim_index: usize,
    key: &str,
    scheme: &str,
    header: &[u8],
    parent_header: &[u8],
    metadata: &[u8],
    content: &[u8],
) -> (out: Vec<Vec<u8>>)
    requires
        delim_index < frames.len(),
    ensures
        frame_views(out@) == sealed(
            frame_views(frames@).subrange(0, delim_index + 1),
            key.spec_bytes(),
            header@,
            parent_header@,
            metadata@,
            content@,
        ),
{
    let mut out: Vec<Vec<u8>> = Vec::new();
    let mut i: usize = 0;
    while i <= delim_index
        invariant
            i <= delim_index + 1,
            delim_index < frames.len(),
            frame_views(out@) == frame_views(frames@).subrange(0, i as int),
        decreases delim_index + 1 - i,
    {
        let ghost before = frame_views(out@);
        let f = copy_bytes(frames[i].as_slice());
        out.push(f);
        assert(frame_views(out@) =~= before.push(f@));
        i += 1;
        assert(frame_views(out@) =~= frame_views(frames@).subrange(0, i as int));
    }
    let ghost prefix = frame_views(out@);
    let sig = sign_message(key, scheme, header, parent_header, metadata, content);
    let s = copy_bytes(sig.as_str().as_bytes());
    let h = copy_bytes(header);
    let p = copy_bytes(parent_header);
    let m = copy_bytes(metadata);
    let c = copy_bytes(content);
    out.push(s);
    out.push(h);
    out.push(p);
    out.push(m);
    out.push(c);
    assert(frame_views(out@) =~= prefix + seq![s@, h@, p@, m@, c@]);
    out
}

/// However many identity frames stand in front, and whatever they hold
/// short of the delimiter marker itself, `delim_index` answers their number.
pub proof fn law_delim_index_counts_identities(
    identities: Seq<Vec<u8>>,
    marker: Vec<u8>,
    payload: Seq<Vec<u8>>,
    answer: Result<usize, WireError>,
)
    requires
        has_no_delimiter(identities),
        marker@ == delimiter(),
        match answer {
            Ok(i) => is_first_delimiter(identities + seq![marker] + payload, i as int),
            Err(e) => e == WireError::MalformedMessage && has_no_delimiter(
                identities + seq![marker] + payload,
            ),
        },
    ensures
        answer == Ok::<usize, WireError>(identities.len() as usize),
        identities.len() <= usize::MAX,
{
    let frames = identities + seq![marker] + payload;
    let n = identities.len() as int;
    assert(frames[n] == marker);
    assert forall|j: int| 0 <= j < n implies (#[trigger] frames[j])@ != delimiter() by {
        assert(frames[j] == identities[j]);
    }
    assert(is_first_delimiter(frames, n));
    match answer {
        Ok(i) => {
            lemma_first_delimiter_unique(frames, i as int, n);
        },
        Err(_) => {
            assert(frames[n]@ != delimiter());
        },
    }
}

/// Without a key no frame list is refused for its signature, whatever the
/// signature frame holds.
pub proof fn law_empty_key_accepts_any_signature(frames: Seq<Vec<u8>>, key: Seq<u8>)
    requires
        key.len() == 0,
    ensures
        forall|d: int| signature_accepted(frames, key, d),
        opened(frames, key) != Err::<int, WireError>(WireError::AuthenticationFailed),
{
}

/// A message that was sealed behind a prefix that ends in its first
/// delimiter opens again under the same key, at that delimiter, and its four
/// payload frames are those that were sealed.
pub proof fn law_sealed_frames_open(
    prefix: Seq<Vec<u8>>,
    delim: int,
    key: Seq<u8>,
    header: Seq<u8>,
    parent_header: Seq<u8>,
    metadata: Seq<u8>,
    content: Seq<u8>,
    frames: Seq<Vec<u8>>,
)
    requires
        is_first_delimiter(prefix, delim),
        frame_views(frames) == sealed(
            frame_views(prefix).subrange(0, delim + 1),
            key,
            header,
            parent_header,
            metadata,
            content,
        ),
    ensures
        opened(frames, key) == Ok::<int, WireError>(delim),
        frames.len() == delim + 6,
        frames[delim + 2]@ == header,
        frames[delim + 3]@ == parent_header,
        frames[delim + 4]@ == metadata,
        frames[delim + 5]@ == content,
{
    let fv = frame_views(frames);
    let pv = frame_views(prefix).subrange(0, delim + 1);
    let tail = seq![
        signature_frame(key, header, parent_header, metadata, content),
        header,
        parent_header,
        metadata,
        content,
    ];
    assert(fv.len() == frames.len());
    assert(fv.len() == delim + 6);
    assert forall|j: int| 0 <= j < frames.len() implies (#[trigger] frames[j])@ == fv[j] by {}
    assert forall|j: int| 0 <= j <= delim implies (#[trigger] frames[j])@ == prefix[j]@ by {
        assert(fv[j] == pv[j]);
        assert(pv[j] == frame_views(prefix)[j]);
    }
    assert(frames[delim + 1]@ == tail[0]) by {
        assert(fv[delim + 1] == tail[0]);
    }
    assert(frames[delim + 2]@ == header) by {
        assert(fv[delim + 2] == tail[1]);
    }
    assert(frames[delim + 3]@ == parent_header) by {
        assert(fv[delim + 3] == tail[2]);
    }
    assert(frames[delim + 4]@ == metadata) by {
        assert(fv[delim + 4] == tail[3]);
    }
    assert(frames[delim + 5]@ == content) by {
        assert(fv[delim + 5] == tail[4]);
    }
    assert(is_first_delimiter(frames, delim)) by {
        assert forall|j: int| 0 <= j < delim implies (#[trigger] frames[j])@ != delimiter() by {
            assert(frames[j]@ == prefix[j]@);
        }
    }
    lemma_opened_at(frames, key, delim);
}

} // verus!
