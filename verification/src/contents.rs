//! The contents of the messages that this kernel reads and writes, and their
//! JSON.

use crate::json::{
    array, bool_field, bool_value, boolean, field, field_views, has_field, json_bool_field,
    json_has_field, json_text_entries, json_text_field, number_value, object, quoted,
    text_entries, text_field, text_value, to_bytes, write_array, write_object, Field,
};
use crate::session::texts;
use crate::text::{decimal, views};
use vstd::prelude::*;

verus! {

/// A request to run code.
#[derive(Debug)]
pub struct ExecuteRequest {
    /// The source code to run.
    pub code: String,
    /// Run as quietly as possible: nothing is broadcast but the status.
    pub silent: bool,
    /// Whether the frontend keeps this input in its history.
    pub store_history: bool,
    /// Expressions to evaluate after the code, each under a name.
    pub user_expressions: Vec<(String, String)>,
    /// Whether the code may prompt the user.
    pub allow_stdin: bool,
    /// Whether later requests are dropped after a failure.
    pub stop_on_error: bool,
}

/// The texts of a list of pairs of strings.
pub open spec fn pair_views(pairs: Seq<(String, String)>) -> Seq<(Seq<char>, Seq<char>)> {
    pairs.map_values(|p: (String, String)| (p.0@, p.1@))
}

/// The members whose value is a string, in order.
pub open spec fn text_pairs(entries: Seq<(Seq<char>, Option<Seq<char>>)>) -> Seq<
    (Seq<char>, Seq<char>),
>
    decreases entries.len(),
{
    if entries.len() == 0 {
        Seq::empty()
    } else {
        let last = entries[entries.len() - 1];
        match last.1 {
            Some(t) => text_pairs(entries.drop_last()).push((last.0, t)),
            None => text_pairs(entries.drop_last()),
        }
    }
}

/// The bytes are the content of an execute request: the code as a string,
/// the four flags as booleans, and some member `user_expressions`.
pub open spec fn is_execute_request_json(bytes: Seq<u8>) -> bool {
    &&& text_field(bytes, "code"@).is_some()
    &&& bool_field(bytes, "silent"@).is_some()
    &&& bool_field(bytes, "store_history"@).is_some()
    &&& has_field(bytes, "user_expressions"@)
    &&& bool_field(bytes, "allow_stdin"@).is_some()
    &&& bool_field(bytes, "stop_on_error"@).is_some()
}

/// `req` holds what the bytes of an execute request say. Of the user
/// expressions it holds those that are strings.
pub open spec fn is_execute_request_of(req: ExecuteRequest, bytes: Seq<u8>) -> bool {
    &&& text_field(bytes, "code"@) == Some(req.code@)
    &&& bool_field(bytes, "silent"@) == Some(req.silent)
    &&& bool_field(bytes, "store_history"@) == Some(req.store_history)
    &&& pair_views(req.user_expressions@) == text_pairs(
        text_entries(bytes, "user_expressions"@),
    )
    &&& bool_field(bytes, "allow_stdin"@) == Some(req.allow_stdin)
    &&& bool_field(bytes, "stop_on_error"@) == Some(req.stop_on_error)
}

fn keep_text_pairs(entries: Vec<(String, Option<String>)>) -> (out: Vec<(String, String)>)
    ensures
        pair_views(out@) == text_pairs(crate::json::entry_views(entries@)),
{
    let ghost all = crate::json::entry_views(entries@);
    let mut out: Vec<(String, String)> = Vec::new();
    let mut entries = entries;
    let mut rest: Vec<(String, Option<String>)> = Vec::new();
    let mut i: usize = 0;
    let n = entries.len();
    assert(all.subrange(0, 0) =~= Seq::empty());
    assert(pair_views(out@) =~= Seq::empty());
    while i < n
        invariant
            i <= n,
            n == entries.len(),
            all == crate::json::entry_views(entries@),
            pair_views(out@) == text_pairs(all.subrange(0, i as int)),
        decreases n - i,
    {
        let ghost before = pair_views(out@);
        let name = entries[i].0.clone();
        let value = match &entries[i].1 {
            Some(t) => Some(t.clone()),
            None => None,
        };
        proof {
            let next = all.subrange(0, i + 1);
            assert(next.drop_last() =~= all.subrange(0, i as int));
            assert(next[next.len() - 1] == all[i as int]);
            assert(all[i as int] == crate::json::entry_view(entries@[i as int]));
        }
        match value {
            Some(t) => {
                out.push((name, t));
                assert(pair_views(out@) =~= before.push((name@, t@)));
            },
            None => {},
        }
        i += 1;
    }
    assert(all.subrange(0, n as int) =~= all);
    out
}

impl ExecuteRequest {
    /// Reads the content of an execute request. Every member must be there
    /// with its type; a `user_expressions` that is no object counts as empty.
    pub fn from_content(bytes: &[u8]) -> (r: Option<ExecuteRequest>)
        ensures
            r.is_some() == is_execute_request_json(bytes@),
            r.is_some() ==> is_execute_request_of(r.unwrap(), bytes@),
    {
        let code = json_text_field(bytes, "code");
        let silent = json_bool_field(bytes, "silent");
        let store_history = json_bool_field(bytes, "store_history");
        let has_expressions = json_has_field(bytes, "user_expressions");
        let allow_stdin = json_bool_field(bytes, "allow_stdin");
        let stop_on_error = json_bool_field(bytes, "stop_on_error");
        if !has_expressions {
            return None;
        }
        match (code, silent, store_history, allow_stdin, stop_on_error) {
            (Some(code), Some(silent), Some(store_history), Some(allow_stdin), Some(stop_on_error)) => {
                let user_expressions = keep_text_pairs(json_text_entries(bytes, "user_expressions"));
                Some(
                    ExecuteRequest {
                        code,
                        silent,
                        store_history,
                        user_expressions,
                        allow_stdin,
                        stop_on_error,
                    },
                )
            },
            _ => None,
        }
    }
}

/// How a request ended.
#[derive(Debug, Clone, Copy, PartialEq, Eq, Structural)]
pub enum Status {
    Success,
    Error,
}

/// The answer to an execute request.
#[allow(inconsistent_fields)]
#[derive(Debug)]
pub enum ExecuteReply {
    /// The code ran. The user expressions, where there were any, each with
    /// the text that stands for its value.
    Success { execution_count: u32, user_expressions: Option<Vec<(String, String)>> },
    /// The code failed: the error's name, its first line, and all its lines.
    Error { execution_count: u32, ename: String, evalue: String, traceback: Vec<String> },
}

/// A MIME bundle that holds one plain text.
pub open spec fn bundle_json(text: Seq<char>) -> Seq<char> {
    object(seq![("text/plain"@, quoted(text))])
}

/// An object that gives each name its text as a MIME bundle.
pub open spec fn bundles_json(pairs: Seq<(Seq<char>, Seq<char>)>) -> Seq<char> {
    object(pairs.map_values(|p: (Seq<char>, Seq<char>)| (p.0, bundle_json(p.1))))
}

/// An array of JSON strings.
pub open spec fn text_array(items: Seq<Seq<char>>) -> Seq<char> {
    array(items.map_values(|t: Seq<char>| quoted(t)))
}

/// The content of a reply to code that ran: the status first, then the
/// number; user expressions are left out where there are none.
pub open spec fn success_reply_json(
    execution_count: u32,
    user_expressions: Option<Seq<(Seq<char>, Seq<char>)>>,
) -> Seq<char> {
    match user_expressions {
        Some(u) => object(
            seq![
                ("status"@, quoted("ok"@)),
                ("execution_count"@, decimal(execution_count as nat)),
                ("user_expressions"@, bundles_json(u)),
            ],
        ),
        None => object(
            seq![
                ("status"@, quoted("ok"@)),
                ("execution_count"@, decimal(execution_count as nat)),
            ],
        ),
    }
}

/// The content of a reply to code that failed.
pub open spec fn error_reply_json(
    execution_count: u32,
    ename: Seq<char>,
    evalue: Seq<char>,
    traceback: Seq<Seq<char>>,
) -> Seq<char> {
    object(
        seq![
            ("status"@, quoted("error"@)),
            ("execution_count"@, decimal(execution_count as nat)),
            ("ename"@, quoted(ename)),
            ("evalue"@, quoted(evalue)),
            ("traceback"@, text_array(traceback)),
        ],
    )
}

/// The content of an execute reply.
pub open spec fn execute_reply_json(reply: ExecuteReply) -> Seq<char> {
    match reply {
        ExecuteReply::Success { execution_count, user_expressions } => success_reply_json(
            execution_count,
            match user_expressions {
                Some(u) => Some(pair_views(u@)),
                None => None,
            },
        ),
        ExecuteReply::Error { execution_count, ename, evalue, traceback } => error_reply_json(
            execution_count,
            ename@,
            evalue@,
            texts(traceback@),
        ),
    }
}

/// Writes a MIME bundle that holds one plain text.
pub fn write_bundle(text: &str) -> (out: Vec<char>)
    ensures
        out@ == bundle_json(text@),
{
    let mut fields: Vec<Field> = Vec::new();
    fields.push(field("text/plain", text_value(text)));
    assert(field_views(fields@) =~= seq![("text/plain"@, quoted(text@))]);
    write_object(&fields)
}

/// Writes an object that gives each name its text as a MIME bundle.
pub fn write_bundles(pairs: &Vec<(String, String)>) -> (out: Vec<char>)
    ensures
        out@ == bundles_json(pair_views(pairs@)),
{
    let ghost wanted = pair_views(pairs@).map_values(
        |p: (Seq<char>, Seq<char>)| (p.0, bundle_json(p.1)),
    );
    let mut fields: Vec<Field> = Vec::new();
    let mut i: usize = 0;
    assert(field_views(fields@) =~= wanted.subrange(0, 0));
    while i < pairs.len()
        invariant
            i <= pairs.len(),
            wanted == pair_views(pairs@).map_values(
                |p: (Seq<char>, Seq<char>)| (p.0, bundle_json(p.1)),
            ),
            field_views(fields@) == wanted.subrange(0, i as int),
        decreases pairs.len() - i,
    {
        let ghost before = field_views(fields@);
        let f = field(pairs[i].0.as_str(), write_bundle(pairs[i].1.as_str()));
        assert((f.key@, f.value@) == wanted[i as int]);
        fields.push(f);
        assert(field_views(fields@) =~= before.push((f.key@, f.value@)));
        i += 1;
        assert(field_views(fields@) =~= wanted.subrange(0, i as int));
    }
    assert(wanted.subrange(0, pairs@.len() as int) =~= wanted);
    write_object(&fields)
}

/// Writes an array of JSON strings.
pub fn write_text_array(items: &Vec<String>) -> (out: Vec<char>)
    ensures
        out@ == text_array(texts(items@)),
{
    let ghost wanted = texts(items@).map_values(|t: Seq<char>| quoted(t));
    let mut parts: Vec<Vec<char>> = Vec::new();
    let mut i: usize = 0;
    assert(views(parts@) =~= wanted.subrange(0, 0));
    while i < items.len()
        invariant
            i <= items.len(),
            wanted == texts(items@).map_values(|t: Seq<char>| quoted(t)),
            views(parts@) == wanted.subrange(0, i as int),
        decreases items.len() - i,
    {
        let ghost before = views(parts@);
        let q = text_value(items[i].as_str());
        assert(q@ == wanted[i as int]);
        parts.push(q);
        assert(views(parts@) =~= before.push(q@));
        i += 1;
        assert(views(parts@) =~= wanted.subrange(0, i as int));
    }
    assert(wanted.subrange(0, items@.len() as int) =~= wanted);
    write_array(&parts)
}

impl ExecuteReply {
    /// The number of the execution that is answered.
    pub fn execution_count(&self) -> (n: u32)
        ensures
            n == match *self {
                ExecuteReply::Success { execution_count, .. } => execution_count,
                ExecuteReply::Error { execution_count, .. } => execution_count,
            },
    {
        match self {
            ExecuteReply::Success { execution_count, .. } => *execution_count,
            ExecuteReply::Error { execution_count, .. } => *execution_count,
        }
    }

    /// Whether the execution succeeded or failed.
    pub fn status(&self) -> (s: Status)
        ensures
            s == if *self is Success {
                Status::Success
            } else {
                Status::Error
            },
    {
        match self {
            ExecuteReply::Success { .. } => Status::Success,
            ExecuteReply::Error { .. } => Status::Error,
        }
    }

    /// The reply as the bytes of a content frame.
    pub fn to_json(&self) -> (out: Vec<u8>)
        ensures
            out@ == vstd::utf8::encode_utf8(execute_reply_json(*self)),
    {
        let mut fields: Vec<Field> = Vec::new();
        match self {
            ExecuteReply::Success { execution_count, user_expressions } => {
                fields.push(field("status", text_value("ok")));
                fields.push(field("execution_count", number_value(*execution_count as u64)));
                match user_expressions {
                    Some(u) => {
                        fields.push(field("user_expressions", write_bundles(u)));
                        assert(field_views(fields@) =~= seq![
                            ("status"@, quoted("ok"@)),
                            ("execution_count"@, decimal(*execution_count as nat)),
                            ("user_expressions"@, bundles_json(pair_views(u@))),
                        ]);
                    },
                    None => {
                        assert(field_views(fields@) =~= seq![
                            ("status"@, quoted("ok"@)),
                            ("execution_count"@, decimal(*execution_count as nat)),
                        ]);
                    },
                }
            },
            ExecuteReply::Error { execution_count, ename, evalue, traceback } => {
                fields.push(field("status", text_value("error")));
                fields.push(field("execution_count", number_value(*execution_count as u64)));
                fields.push(field("ename", text_value(ename.as_str())));
                fields.push(field("evalue", text_value(evalue.as_str())));
                fields.push(field("traceback", write_text_array(traceback)));
                assert(field_views(fields@) =~= seq![
                    ("status"@, quoted("error"@)),
                    ("execution_count"@, decimal(*execution_count as nat)),
                    ("ename"@, quoted(ename@)),
                    ("evalue"@, quoted(evalue@)),
                    ("traceback"@, text_array(texts(traceback@))),
                ]);
            },
        }
        let text = write_object(&fields);
        to_bytes(text.as_slice())
    }
}

/// A request to shut the kernel down.
#[derive(Debug, Clone, Copy, PartialEq, Eq, Structural)]
pub struct ShutdownRequest {
    /// Whether the kernel is to be started again afterwards.
    pub restart: bool,
}

/// The answer to a shutdown request.
#[derive(Debug, Clone, Copy, PartialEq, Eq, Structural)]
pub struct ShutdownReply {
    /// The request's flag, given back.
    pub restart: bool,
}

/// The content of a shutdown reply.
pub open spec fn shutdown_reply_json(reply: ShutdownReply) -> Seq<char> {
    object(seq![("restart"@, boolean(reply.restart))])
}

impl ShutdownRequest {
    /// Reads the content of a shutdown request: `restart` must be there as
    /// a boolean.
    pub fn from_content(bytes: &[u8]) -> (r: Option<ShutdownRequest>)
        ensures
            match r {
                Some(req) => bool_field(bytes@, "restart"@) == Some(req.restart),
                None => bool_field(bytes@, "restart"@).is_none(),
            },
    {
        match json_bool_field(bytes, "restart") {
            Some(restart) => Some(ShutdownRequest { restart }),
            None => None,
        }
    }
}

impl ShutdownReply {
    /// The reply as the bytes of a content frame.
    pub fn to_json(&self) -> (out: Vec<u8>)
        ensures
            out@ == vstd::utf8::encode_utf8(shutdown_reply_json(*self)),
    {
        let mut fields: Vec<Field> = Vec::new();
        fields.push(field("restart", bool_value(self.restart)));
        assert(field_views(fields@) =~= seq![("restart"@, boolean(self.restart))]);
        let text = write_object(&fields);
        to_bytes(text.as_slice())
    }
}

} // verus!
