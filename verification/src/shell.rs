//! The shell channel: what the kernel does for each request, as steps that
//! the caller carries out in order.

use crate::contents::{
    bundle_json, error_reply_json, pair_views, success_reply_json, write_bundle, ExecuteReply,
    ExecuteRequest,
};
use crate::envelope::{empty_object, is_decoded, payload_ok, JupyterMessage};
use crate::iopub::{error_json, execute_input_json, execute_result_json, is_event, status_json};
use crate::json::{null_value, text_field};
use crate::kernel_info::{this_kernel_json, KernelInfoReply};
use crate::messages::{header_json, is_kernel_header, ConnectionConfig, MessageHeader};
use crate::session::texts;
use crate::text::{chars_of, lines, lines_of, string_of, views};
use crate::wire::{delim_index, frame_views, opened, seal_frames, sealed};
use vstd::prelude::*;

verus! {

/// One thing for the caller to do.
#[derive(Debug)]
pub enum Action {
    /// Put the frames on the broadcast queue.
    Publish(Vec<Vec<u8>>),
    /// Send the frames on the loop's own socket: a reply goes back on the
    /// channel that the request came in on.
    Reply(Vec<Vec<u8>>),
}

/// The key of a configuration as bytes.
pub open spec fn key_of(config: ConnectionConfig) -> Seq<u8> {
    vstd::utf8::encode_utf8(config.key@)
}

/// The action broadcasts `content` as an event of type `msg_type` in answer
/// to `request`.
pub open spec fn is_publish(
    action: Action,
    key: Seq<u8>,
    request: MessageHeader,
    msg_type: Seq<char>,
    content: Seq<char>,
) -> bool {
    action matches Action::Publish(f) && is_event(frame_views(f@), key, request, msg_type, content)
}

/// `out` answers `request` with `content` as a message of type `msg_type`:
/// behind the request's routing prefix, under a header of this kernel for
/// the request's session, with the request's header as parent.
pub open spec fn is_answer(
    out: Seq<Seq<u8>>,
    prefix: Seq<Seq<u8>>,
    key: Seq<u8>,
    request: MessageHeader,
    msg_type: Seq<char>,
    content: Seq<u8>,
) -> bool {
    exists|h: MessageHeader|
        is_kernel_header(h, request.session@, msg_type) && out == #[trigger] sealed(
            prefix,
            key,
            vstd::utf8::encode_utf8(header_json(h)),
            vstd::utf8::encode_utf8(header_json(request)),
            empty_object(),
            content,
        )
}

/// The action sends the answer `content` to `request`.
pub open spec fn is_reply(
    action: Action,
    prefix: Seq<Seq<u8>>,
    key: Seq<u8>,
    request: MessageHeader,
    msg_type: Seq<char>,
    content: Seq<char>,
) -> bool {
    action matches Action::Reply(f) && is_answer(
        frame_views(f@),
        prefix,
        key,
        request,
        msg_type,
        vstd::utf8::encode_utf8(content),
    )
}

/// The frames of an answer to `raw_msg`.
pub fn reply_frames(
    raw_msg: &JupyterMessage,
    msg_type: &str,
    content: &[u8],
    frames: &Vec<Vec<u8>>,
    delim_index: usize,
    config: &ConnectionConfig,
) -> (out: Vec<Vec<u8>>)
    requires
        delim_index < frames.len(),
    ensures
        is_answer(
            frame_views(out@),
            frame_views(frames@).subrange(0, delim_index + 1),
            key_of(*config),
            raw_msg.header,
            msg_type@,
            content@,
        ),
{
    let header = MessageHeader::new(raw_msg.header.session.clone(), msg_type.to_owned());
    let h = header.to_json();
    let p = raw_msg.header.to_json();
    let mut metadata: Vec<u8> = Vec::new();
    metadata.push(123);
    metadata.push(125);
    assert(metadata@ =~= empty_object());
    seal_frames(
        frames.as_slice(),
        delim_index,
        config.key.as_str(),
        config.signature_scheme.as_str(),
        h.as_slice(),
        p.as_slice(),
        metadata.as_slice(),
        content,
    )
}

fn publish_status(raw_msg: &JupyterMessage, config: &ConnectionConfig, state: &str) -> (action:
    Action)
    ensures
        is_publish(action, key_of(*config), raw_msg.header, "status"@, status_json(state@)),
{
    Action::Publish(
        raw_msg.to_iopub_status(config.key.as_str(), config.signature_scheme.as_str(), state),
    )
}

/// The three actions that answer a kernel-info request: busy, the kernel's
/// description as the reply, idle.
pub open spec fn answers_kernel_info(
    actions: Seq<Action>,
    key: Seq<u8>,
    request: MessageHeader,
    prefix: Seq<Seq<u8>>,
) -> bool {
    &&& actions.len() == 3
    &&& is_publish(actions[0], key, request, "status"@, status_json("busy"@))
    &&& is_reply(actions[1], prefix, key, request, "kernel_info_reply"@, this_kernel_json())
    &&& is_publish(actions[2], key, request, "status"@, status_json("idle"@))
}

/// Answers a kernel-info request: busy, the kernel's description as the
/// reply, idle. The evaluation session is not touched.
pub fn handle_kernel_info_request(
    config: &ConnectionConfig,
    raw_msg: &JupyterMessage,
    frames: &Vec<Vec<u8>>,
    delim_index: usize,
) -> (actions: Vec<Action>)
    requires
        delim_index < frames.len(),
    ensures
        answers_kernel_info(
            actions@,
            key_of(*config),
            raw_msg.header,
            frame_views(frames@).subrange(0, delim_index + 1),
        ),
{
    let reply = KernelInfoReply::new();
    let content = reply.to_json();
    let mut actions: Vec<Action> = Vec::new();
    actions.push(publish_status(raw_msg, config, "busy"));
    actions.push(
        Action::Reply(
            reply_frames(
                raw_msg,
                "kernel_info_reply",
                content.as_slice(),
                frames,
                delim_index,
                config,
            ),
        ),
    );
    actions.push(publish_status(raw_msg, config, "idle"));
    actions
}

/// Where an execution stands: before the engine's answer to the code, or
/// before its answer to the user expression of the given index.
#[derive(Debug, Clone, Copy, PartialEq, Eq, Structural)]
pub enum Stage {
    Main,
    Expression(usize),
}

/// An execute request that waits for the evaluation engine.
#[derive(Debug)]
pub struct Execution {
    /// The request as it was read.
    pub raw_msg: JupyterMessage,
    /// The request's frames; its routing prefix is reused for the reply.
    pub frames: Vec<Vec<u8>>,
    /// Where the delimiter stands in `frames`.
    pub delim_index: usize,
    /// The request's content.
    pub request: ExecuteRequest,
    /// The number of this execution.
    pub execution_count: u32,
    /// What the engine is working on.
    pub stage: Stage,
    /// The user expressions answered so far, each name with the text that
    /// stands for its value.
    pub results: Vec<(String, String)>,
}

/// What the caller does next for a request.
#[derive(Debug)]
pub enum ShellStep {
    /// Carry out the actions; the request is done.
    Done(Vec<Action>),
    /// Carry out the actions, hand the code to the evaluation engine, and
    /// resume the execution with its answer.
    Evaluate(Vec<Action>, String, Execution),
}

/// The name under which every failed execution is reported.
pub open spec fn error_name() -> Seq<char> {
    "AikenError"@
}

/// The text that stands for a user expression that could not be evaluated.
pub open spec fn failed_expression_text() -> Seq<char> {
    "Error evaluating expression"@
}

/// The first line of a text, or nothing where it has no line.
pub open spec fn first_line(text: Seq<char>) -> Seq<char> {
    if lines_of(text).len() > 0 {
        lines_of(text)[0]
    } else {
        Seq::empty()
    }
}

/// The text that stands for the engine's answer to a user expression.
pub open spec fn expression_text(outcome: Result<String, String>) -> Seq<char> {
    match outcome {
        Ok(text) => text@,
        Err(_) => failed_expression_text(),
    }
}

impl Execution {
    /// The delimiter is among the frames, and the stage fits the user
    /// expressions: one result for each expression before the current one,
    /// under its name.
    pub open spec fn wf(self) -> bool {
        &&& self.delim_index < self.frames@.len()
        &&& match self.stage {
            Stage::Main => self.results@.len() == 0,
            Stage::Expression(i) => i < self.request.user_expressions@.len()
                && self.results@.len() == i,
        }
    }

    /// Whether the execution is well formed.
    pub fn is_wf(&self) -> (r: bool)
        ensures
            r == self.wf(),
    {
        self.delim_index < self.frames.len() && match self.stage {
            Stage::Main => self.results.len() == 0,
            Stage::Expression(i) => i < self.request.user_expressions.len() && self.results.len()
                == i,
        }
    }

    /// The routing prefix of the request.
    pub open spec fn prefix(self) -> Seq<Seq<u8>> {
        frame_views(self.frames@).subrange(0, self.delim_index + 1)
    }

    /// The execution is `before` at another stage and with other results.
    pub open spec fn continues(self, before: Execution) -> bool {
        &&& self.raw_msg == before.raw_msg
        &&& self.frames == before.frames
        &&& self.delim_index == before.delim_index
        &&& self.request == before.request
        &&& self.execution_count == before.execution_count
    }
}

/// The actions that open an execution: busy, then the echoed input unless
/// the request is silent.
pub open spec fn opens_execution(
    actions: Seq<Action>,
    key: Seq<u8>,
    request: MessageHeader,
    content: ExecuteRequest,
    execution_count: u32,
) -> bool {
    &&& actions.len() == if content.silent {
        1int
    } else {
        2int
    }
    &&& is_publish(actions[0], key, request, "status"@, status_json("busy"@))
    &&& !content.silent ==> is_publish(
        actions[1],
        key,
        request,
        "execute_input"@,
        execute_input_json(content.code@, execution_count),
    )
}

/// The actions that follow a value: the result as a broadcast unless the
/// request is silent.
pub open spec fn shows_result(
    actions: Seq<Action>,
    key: Seq<u8>,
    before: Execution,
    text: Seq<char>,
) -> bool {
    &&& actions.len() == if before.request.silent {
        0int
    } else {
        1int
    }
    &&& !before.request.silent ==> is_publish(
        actions[0],
        key,
        before.raw_msg.header,
        "execute_result"@,
        execute_result_json(before.execution_count, bundle_json(text), "null"@),
    )
}

/// The two actions that end a successful execution: the reply, then idle.
pub open spec fn closes_execution(
    actions: Seq<Action>,
    key: Seq<u8>,
    before: Execution,
    user_expressions: Option<Seq<(Seq<char>, Seq<char>)>>,
) -> bool {
    &&& actions.len() == 2
    &&& is_reply(
        actions[0],
        before.prefix(),
        key,
        before.raw_msg.header,
        "execute_reply"@,
        success_reply_json(before.execution_count, user_expressions),
    )
    &&& is_publish(actions[1], key, before.raw_msg.header, "status"@, status_json("idle"@))
}

/// The actions that end a successful execution without user expressions:
/// the result as a broadcast unless the request is silent, the reply, idle.
pub open spec fn ends_with_result(
    actions: Seq<Action>,
    key: Seq<u8>,
    before: Execution,
    text: Seq<char>,
) -> bool {
    let shown: int = if before.request.silent {
        0
    } else {
        1
    };
    &&& actions.len() == shown + 2
    &&& !before.request.silent ==> is_publish(
        actions[0],
        key,
        before.raw_msg.header,
        "execute_result"@,
        execute_result_json(before.execution_count, bundle_json(text), "null"@),
    )
    &&& is_reply(
        actions[shown],
        before.prefix(),
        key,
        before.raw_msg.header,
        "execute_reply"@,
        success_reply_json(before.execution_count, None),
    )
    &&& is_publish(
        actions[shown + 1],
        key,
        before.raw_msg.header,
        "status"@,
        status_json("idle"@),
    )
}

/// The three actions that end a failed execution: the error as a broadcast,
/// the error as the reply, then idle.
pub open spec fn reports_failure(
    actions: Seq<Action>,
    key: Seq<u8>,
    before: Execution,
    error: Seq<char>,
) -> bool {
    &&& actions.len() == 3
    &&& is_publish(
        actions[0],
        key,
        before.raw_msg.header,
        "error"@,
        error_json(error_name(), first_line(error), lines_of(error)),
    )
    &&& is_reply(
        actions[1],
        before.prefix(),
        key,
        before.raw_msg.header,
        "execute_reply"@,
        error_reply_json(
            before.execution_count,
            error_name(),
            first_line(error),
            lines_of(error),
        ),
    )
    &&& is_publish(actions[2], key, before.raw_msg.header, "status"@, status_json("idle"@))
}

/// `step` is what follows the engine's answer `outcome` for the execution
/// `before`.
pub open spec fn resumed(
    step: ShellStep,
    before: Execution,
    key: Seq<u8>,
    outcome: Result<String, String>,
) -> bool {
    let expressions = before.request.user_expressions@;
    match before.stage {
        Stage::Main => match outcome {
            Err(error) => step matches ShellStep::Done(actions) && reports_failure(
                actions@,
                key,
                before,
                error@,
            ),
            Ok(text) => if expressions.len() == 0 {
                &&& step matches ShellStep::Done(actions)
                &&& ends_with_result(actions@, key, before, text@)
            } else {
                &&& step matches ShellStep::Evaluate(actions, code, next)
                &&& shows_result(actions@, key, before, text@)
                &&& code@ == expressions[0].1@
                &&& next.continues(before)
                &&& next.stage == Stage::Expression(0)
                &&& next.results@.len() == 0
                &&& next.wf()
            },
        },
        Stage::Expression(i) => {
            let results = pair_views(before.results@).push(
                (expressions[i as int].0@, expression_text(outcome)),
            );
            if i + 1 < expressions.len() {
                &&& step matches ShellStep::Evaluate(actions, code, next)
                &&& actions@.len() == 0
                &&& code@ == expressions[i + 1].1@
                &&& next.continues(before)
                &&& next.stage == Stage::Expression((i + 1) as usize)
                &&& pair_views(next.results@) == results
                &&& next.wf()
            } else {
                &&& step matches ShellStep::Done(actions)
                &&& closes_execution(actions@, key, before, Some(results))
            }
        },
    }
}

/// The strings that hold these texts.
pub fn strings_of(items: &Vec<Vec<char>>) -> (out: Vec<String>)
    ensures
        texts(out@) == views(items@),
{
    let mut out: Vec<String> = Vec::new();
    let mut i: usize = 0;
    assert(texts(out@) =~= views(items@).subrange(0, 0));
    while i < items.len()
        invariant
            i <= items.len(),
            texts(out@) == views(items@).subrange(0, i as int),
        decreases items.len() - i,
    {
        let ghost before = texts(out@);
        let s = string_of(items[i].as_slice());
        out.push(s);
        assert(texts(out@) =~= before.push(s@));
        i += 1;
        assert(texts(out@) =~= views(items@).subrange(0, i as int));
    }
    assert(views(items@).subrange(0, items@.len() as int) =~= views(items@));
    out
}

/// `step` opens the execution numbered `execution_count` for the request
/// `raw_msg`: nothing at all where the content is no execute request, else
/// the opening actions and the code for the engine.
pub open spec fn opens(
    step: ShellStep,
    key: Seq<u8>,
    raw_msg: JupyterMessage,
    frames: Vec<Vec<u8>>,
    delim_index: usize,
    execution_count: u32,
) -> bool {
    match step {
        ShellStep::Done(actions) => !crate::contents::is_execute_request_json(raw_msg.content@)
            && actions@.len() == 0,
        ShellStep::Evaluate(actions, code, execution) => {
            &&& crate::contents::is_execute_request_json(raw_msg.content@)
            &&& crate::contents::is_execute_request_of(execution.request, raw_msg.content@)
            &&& opens_execution(
                actions@,
                key,
                raw_msg.header,
                execution.request,
                execution_count,
            )
            &&& code@ == execution.request.code@
            &&& execution.raw_msg == raw_msg
            &&& execution.frames == frames
            &&& execution.delim_index == delim_index
            &&& execution.execution_count == execution_count
            &&& execution.stage == Stage::Main
            &&& execution.wf()
        },
    }
}

/// Opens an execution: reads the request's content, announces busy, echoes
/// the input unless the request is silent, and asks for the code to be
/// evaluated. A content that is no execute request is passed over.
pub fn handle_execute_request(
    config: &ConnectionConfig,
    raw_msg: JupyterMessage,
    frames: Vec<Vec<u8>>,
    delim_index: usize,
    execution_count: u32,
) -> (step: ShellStep)
    requires
        delim_index < frames.len(),
    ensures
        opens(step, key_of(*config), raw_msg, frames, delim_index, execution_count),
{
    let request = match ExecuteRequest::from_content(raw_msg.content.as_slice()) {
        Some(request) => request,
        None => {
            return ShellStep::Done(Vec::new());
        },
    };
    let mut actions: Vec<Action> = Vec::new();
    actions.push(publish_status(&raw_msg, config, "busy"));
    if !request.silent {
        actions.push(
            Action::Publish(
                raw_msg.to_iopub_execute_input(
                    config.key.as_str(),
                    config.signature_scheme.as_str(),
                    request.code.as_str(),
                    execution_count,
                ),
            ),
        );
    }
    let code = request.code.clone();
    ShellStep::Evaluate(
        actions,
        code,
        Execution {
            raw_msg,
            frames,
            delim_index,
            request,
            execution_count,
            stage: Stage::Main,
            results: Vec::new(),
        },
    )
}

fn publish_result(
    raw_msg: &JupyterMessage,
    config: &ConnectionConfig,
    execution_count: u32,
    text: &str,
) -> (action: Action)
    ensures
        is_publish(
            action,
            key_of(*config),
            raw_msg.header,
            "execute_result"@,
            execute_result_json(execution_count, bundle_json(text@), "null"@),
        ),
{
    let data = write_bundle(text);
    let metadata = null_value();
    Action::Publish(
        raw_msg.to_iopub_execute_result(
            config.key.as_str(),
            config.signature_scheme.as_str(),
            execution_count,
            data.as_slice(),
            metadata.as_slice(),
        ),
    )
}

fn reply_action(
    raw_msg: &JupyterMessage,
    reply: &ExecuteReply,
    frames: &Vec<Vec<u8>>,
    delim_index: usize,
    config: &ConnectionConfig,
) -> (action: Action)
    requires
        delim_index < frames.len(),
    ensures
        is_reply(
            action,
            frame_views(frames@).subrange(0, delim_index + 1),
            key_of(*config),
            raw_msg.header,
            "execute_reply"@,
            crate::contents::execute_reply_json(*reply),
        ),
{
    let content = reply.to_json();
    Action::Reply(
        reply_frames(raw_msg, "execute_reply", content.as_slice(), frames, delim_index, config),
    )
}

impl Execution {
    /// Takes the engine's answer and says what follows it. After the code:
    /// a failure is broadcast and answered; a value is broadcast unless the
    /// request is silent, and then either the first user expression is
    /// handed to the engine or the reply is sent. After a user expression:
    /// its text is kept under its name, a failure as a placeholder, and the
    /// next expression follows or the reply. Idle follows every reply.
    pub fn resume(self, config: &ConnectionConfig, outcome: Result<String, String>) -> (step:
        ShellStep)
        requires
            self.wf(),
        ensures
            resumed(step, self, key_of(*config), outcome),
    {
        let ghost before = self;
        let Execution { raw_msg, frames, delim_index, request, execution_count, stage, results } =
            self;
        let mut actions: Vec<Action> = Vec::new();
        match stage {
            Stage::Main => match outcome {
                Err(error) => {
                    let chars = chars_of(error.as_str());
                    let ls = lines(chars.as_slice());
                    let traceback = strings_of(&ls);
                    let evalue = if ls.len() > 0 {
                        assert(views(ls@)[0] == ls@[0]@);
                        string_of(ls[0].as_slice())
                    } else {
                        String::new()
                    };
                    actions.push(
                        Action::Publish(
                            raw_msg.to_iopub_error(
                                config.key.as_str(),
                                config.signature_scheme.as_str(),
                                "AikenError",
                                evalue.as_str(),
                                &traceback,
                            ),
                        ),
                    );
                    let reply = ExecuteReply::Error {
                        execution_count,
                        ename: "AikenError".to_owned(),
                        evalue,
                        traceback,
                    };
                    actions.push(reply_action(&raw_msg, &reply, &frames, delim_index, config));
                    actions.push(publish_status(&raw_msg, config, "idle"));
                    ShellStep::Done(actions)
                },
                Ok(text) => {
                    if !request.silent {
                        actions.push(
                            publish_result(&raw_msg, config, execution_count, text.as_str()),
                        );
                    }
                    if request.user_expressions.len() == 0 {
                        let reply = ExecuteReply::Success {
                            execution_count,
                            user_expressions: None,
                        };
                        actions.push(
                            reply_action(&raw_msg, &reply, &frames, delim_index, config),
                        );
                        actions.push(publish_status(&raw_msg, config, "idle"));
                        ShellStep::Done(actions)
                    } else {
                        let code = request.user_expressions[0].1.clone();
                        ShellStep::Evaluate(
                            actions,
                            code,
                            Execution {
                                raw_msg,
                                frames,
                                delim_index,
                                request,
                                execution_count,
                                stage: Stage::Expression(0),
                                results,
                            },
                        )
                    }
                },
            },
            Stage::Expression(i) => {
                assert(before.stage == Stage::Expression(i));
                assert(i < request.user_expressions@.len());
                let mut results = results;
                let ghost shown = pair_views(results@);
                let name = request.user_expressions[i].0.clone();
                let text = match outcome {
                    Ok(text) => text,
                    Err(_) => "Error evaluating expression".to_owned(),
                };
                results.push((name, text));
                assert(pair_views(results@) =~= shown.push((name@, text@)));
                let n = request.user_expressions.len();
                if i + 1 < n {
                    let code = request.user_expressions[i + 1].1.clone();
                    ShellStep::Evaluate(
                        actions,
                        code,
                        Execution {
                            raw_msg,
                            frames,
                            delim_index,
                            request,
                            execution_count,
                            stage: Stage::Expression(i + 1),
                            results,
                        },
                    )
                } else {
                    let reply = ExecuteReply::Success {
                        execution_count,
                        user_expressions: Some(results),
                    };
                    actions.push(reply_action(&raw_msg, &reply, &frames, delim_index, config));
                    actions.push(publish_status(&raw_msg, config, "idle"));
                    ShellStep::Done(actions)
                }
            },
        }
    }
}

/// The execution counter after one more execute request; it wraps at the
/// end of its range.
pub open spec fn next_count(count: u32) -> u32 {
    if count == u32::MAX {
        0
    } else {
        (count + 1) as u32
    }
}

/// The execution counter after `n` execute requests.
pub open spec fn count_after(start: u32, n: nat) -> u32
    decreases n,
{
    if n == 0 {
        start
    } else {
        next_count(count_after(start, (n - 1) as nat))
    }
}

/// The frames are read as a message under `key`: delimiter, length,
/// signature and payload are in order.
pub open spec fn accepted(frames: Seq<Vec<u8>>, key: Seq<u8>) -> bool {
    match opened(frames, key) {
        Ok(d) => payload_ok(frames[d + 2]@, frames[d + 3]@, frames[d + 4]@, frames[d + 5]@),
        Err(_) => false,
    }
}

/// The type of an accepted message.
pub open spec fn message_type(frames: Seq<Vec<u8>>, key: Seq<u8>) -> Seq<char> {
    text_field(frames[opened(frames, key).unwrap() + 2]@, "msg_type"@).unwrap()
}

/// The message is an execute request.
pub open spec fn asks_execution(frames: Seq<Vec<u8>>, key: Seq<u8>) -> bool {
    accepted(frames, key) && message_type(frames, key) == "execute_request"@
}

/// `msg` is what the accepted frames say.
pub open spec fn reads(msg: JupyterMessage, frames: Seq<Vec<u8>>, key: Seq<u8>) -> bool {
    let d = opened(frames, key).unwrap();
    &&& 0 <= d && d + 5 < frames.len()
    &&& is_decoded(msg, frames[d + 2]@, frames[d + 3]@, frames[d + 4]@, frames[d + 5]@)
}

/// The step asks for nothing: the message is passed over.
pub open spec fn is_idle_step(step: ShellStep) -> bool {
    step matches ShellStep::Done(actions) && actions@.len() == 0
}

/// `step` is what the shell channel does for the accepted message `msg`,
/// whose frames are `frames` with the delimiter at `delim`, where `count`
/// is the execution counter after the message.
pub open spec fn handled(
    step: ShellStep,
    config: ConnectionConfig,
    msg: JupyterMessage,
    frames: Vec<Vec<u8>>,
    delim: usize,
    count: u32,
) -> bool {
    if msg.header.msg_type@ == "kernel_info_request"@ {
        step matches ShellStep::Done(actions) && answers_kernel_info(
            actions@,
            key_of(config),
            msg.header,
            frame_views(frames@).subrange(0, delim + 1),
        )
    } else if msg.header.msg_type@ == "execute_request"@ {
        opens(step, key_of(config), msg, frames, delim, count)
    } else {
        is_idle_step(step)
    }
}

/// Takes one message from the shell channel. Frames that cannot be read as
/// a message, and messages of a type that the kernel does not know, are
/// passed over. An execute request advances the execution counter by one,
/// before its content is looked at; nothing else changes it.
pub fn shell_message(frames: Vec<Vec<u8>>, config: &ConnectionConfig, exec_count: &mut u32) -> (step:
    ShellStep)
    ensures
        *final(exec_count) == if asks_execution(frames@, key_of(*config)) {
            next_count(*old(exec_count))
        } else {
            *old(exec_count)
        },
        !accepted(frames@, key_of(*config)) ==> is_idle_step(step),
        accepted(frames@, key_of(*config)) ==> exists|msg: JupyterMessage| #[trigger]
            reads(msg, frames@, key_of(*config)) && handled(
                step,
                *config,
                msg,
                frames,
                opened(frames@, key_of(*config)).unwrap() as usize,
                *final(exec_count),
            ),
{
    let ghost key = key_of(*config);
    let ix = match delim_index(frames.as_slice()) {
        Ok(ix) => ix,
        Err(_) => {
            assert(!accepted(frames@, key));
            return ShellStep::Done(Vec::new());
        },
    };
    proof {
        crate::wire::lemma_opened_at(frames@, key, ix as int);
    }
    let raw_msg = match JupyterMessage::from_multipart(
        frames.as_slice(),
        config.key.as_str(),
        config.signature_scheme.as_str(),
    ) {
        Ok(raw_msg) => raw_msg,
        Err(_) => {
            assert(!accepted(frames@, key));
            return ShellStep::Done(Vec::new());
        },
    };
    assert(opened(frames@, key) == Ok::<int, crate::wire::WireError>(ix as int));
    assert(accepted(frames@, key));
    assert(reads(raw_msg, frames@, key));
    assert(message_type(frames@, key) == raw_msg.header.msg_type@);
    let kernel_info = "kernel_info_request".to_owned();
    let execute = "execute_request".to_owned();
    if raw_msg.header.msg_type == kernel_info {
        proof {
            reveal_strlit("kernel_info_request");
            reveal_strlit("execute_request");
            assert("kernel_info_request"@ != "execute_request"@) by {
                assert("kernel_info_request"@.len() != "execute_request"@.len());
            }
        }
        let actions = handle_kernel_info_request(config, &raw_msg, &frames, ix);
        let step = ShellStep::Done(actions);
        assert(handled(step, *config, raw_msg, frames, ix, *exec_count));
        step
    } else if raw_msg.header.msg_type == execute {
        let n = if *exec_count == u32::MAX {
            0
        } else {
            *exec_count + 1
        };
        *exec_count = n;
        let ghost msg = raw_msg;
        let ghost all = frames;
        let step = handle_execute_request(config, raw_msg, frames, ix, n);
        assert(reads(msg, all@, key) && handled(step, *config, msg, all, ix, n));
        step
    } else {
        let step = ShellStep::Done(Vec::new());
        assert(handled(step, *config, raw_msg, frames, ix, *exec_count));
        step
    }
}

/// From a fresh kernel, the `n`-th execute request is numbered `n`: the
/// numbers run 1, 2, 3 and on without a gap or a repeat, whether the
/// executions succeed or fail.
pub proof fn law_execution_counts(n: nat)
    requires
        n <= u32::MAX,
    ensures
        count_after(0, n) == n,
    decreases n,
{
    if n > 0 {
        law_execution_counts((n - 1) as nat);
    }
}

/// A silent execution broadcasts busy and idle and nothing else: neither
/// the input nor the result. Its reply still carries the execution's number.
pub proof fn law_silent_execution(
    opening: Seq<Action>,
    closing: Seq<Action>,
    key: Seq<u8>,
    before: Execution,
    text: Seq<char>,
)
    requires
        before.request.silent,
        opens_execution(
            opening,
            key,
            before.raw_msg.header,
            before.request,
            before.execution_count,
        ),
        ends_with_result(closing, key, before, text),
    ensures
        (opening + closing).len() == 3,
        is_publish(
            (opening + closing)[0],
            key,
            before.raw_msg.header,
            "status"@,
            status_json("busy"@),
        ),
        is_reply(
            (opening + closing)[1],
            before.prefix(),
            key,
            before.raw_msg.header,
            "execute_reply"@,
            success_reply_json(before.execution_count, None),
        ),
        is_publish(
            (opening + closing)[2],
            key,
            before.raw_msg.header,
            "status"@,
            status_json("idle"@),
        ),
{
}

} // verus!
