//! The control channel: shutdown, out of band of the shell channel.

use crate::contents::{shutdown_reply_json, ShutdownReply, ShutdownRequest};
use crate::envelope::JupyterMessage;
use crate::iopub::status_json;
use crate::json::bool_field;
use crate::messages::ConnectionConfig;
use crate::shell::{
    accepted, is_publish, is_reply, key_of, message_type, reads, reply_frames, Action,
};
use crate::wire::{delim_index, frame_views, opened};
use vstd::prelude::*;

verus! {

/// What a loop does after one event.
#[derive(Debug)]
pub enum LoopStep {
    /// Carry out the actions and wait for the next event.
    Continue(Vec<Action>),
    /// Carry out the actions and end the loop.
    Stop(Vec<Action>),
    /// Carry out the actions, the last of which is the shutdown reply; ask
    /// `cancel_after_reply` with what its send gave, cancel the root token
    /// if it says so, and end the loop.
    Shutdown(Vec<Action>),
}

/// The restart flag of a shutdown request's content; `false` where the
/// content does not give one.
pub open spec fn restart_of(content: Seq<u8>) -> bool {
    match bool_field(content, "restart"@) {
        Some(b) => b,
        None => false,
    }
}

/// The message is a shutdown request.
pub open spec fn asks_shutdown(frames: Seq<Vec<u8>>, key: Seq<u8>) -> bool {
    accepted(frames, key) && message_type(frames, key) == "shutdown_request"@
}

/// The step passes the message over: nothing is done and the loop goes on.
pub open spec fn is_passed_over(step: LoopStep) -> bool {
    step matches LoopStep::Continue(actions) && actions@.len() == 0
}

/// The step shuts the kernel down in answer to `msg`: busy, then one reply
/// that gives the restart flag back. The loop ends and sends nothing more,
/// no idle either; whether every other loop is cancelled is decided by
/// `cancel_after_reply` once the reply's send is over.
pub open spec fn shuts_down(
    step: LoopStep,
    config: ConnectionConfig,
    msg: JupyterMessage,
    frames: Seq<Vec<u8>>,
    delim: int,
) -> bool {
    &&& step matches LoopStep::Shutdown(actions)
    &&& actions@.len() == 2
    &&& is_publish(actions@[0], key_of(config), msg.header, "status"@, status_json("busy"@))
    &&& is_reply(
        actions@[1],
        frame_views(frames).subrange(0, delim + 1),
        key_of(config),
        msg.header,
        "shutdown_reply"@,
        shutdown_reply_json(ShutdownReply { restart: restart_of(msg.content@) }),
    )
}

/// Whether the root token is cancelled after a shutdown request: only where
/// the shutdown reply was sent. A reply that could not be sent cancels
/// nothing; the control loop ends alone.
pub fn cancel_after_reply(sent: bool) -> (cancel: bool)
    ensures
        cancel == sent,
{
    sent
}

/// Takes one message from the control channel. A shutdown request is
/// answered and ends the loop; anything else is passed over.
pub fn control_message(frames: Vec<Vec<u8>>, config: &ConnectionConfig) -> (step: LoopStep)
    ensures
        !asks_shutdown(frames@, key_of(*config)) ==> is_passed_over(step),
        asks_shutdown(frames@, key_of(*config)) ==> exists|msg: JupyterMessage| #[trigger]
            reads(msg, frames@, key_of(*config)) && shuts_down(
                step,
                *config,
                msg,
                frames@,
                opened(frames@, key_of(*config)).unwrap(),
            ),
{
    let ghost key = key_of(*config);
    let ix = match delim_index(frames.as_slice()) {
        Ok(ix) => ix,
        Err(_) => {
            assert(!accepted(frames@, key));
            return LoopStep::Continue(Vec::new());
        },
    };
    proof {
        crate::wire::lemma_opened_at(frames@, key, ix as int);
    }
    let raw_msg = match JupyterMessage::from_multipart(
        frames.as_slice(),
        config.key.as_str(),
        config.signature_scheme.as_str(),
    ) {
        Ok(raw_msg) => raw_msg,
        Err(_) => {
            assert(!accepted(frames@, key));
            return LoopStep::Continue(Vec::new());
        },
    };
    assert(opened(frames@, key) == Ok::<int, crate::wire::WireError>(ix as int));
    assert(accepted(frames@, key));
    assert(reads(raw_msg, frames@, key));
    assert(message_type(frames@, key) == raw_msg.header.msg_type@);
    let shutdown = "shutdown_request".to_owned();
    if raw_msg.header.msg_type == shutdown {
        let restart = match ShutdownRequest::from_content(raw_msg.content.as_slice()) {
            Some(request) => request.restart,
            None => false,
        };
        let reply = ShutdownReply { restart };
        let content = reply.to_json();
        let mut actions: Vec<Action> = Vec::new();
        actions.push(
            Action::Publish(
                raw_msg.to_iopub_status(
                    config.key.as_str(),
                    config.signature_scheme.as_str(),
                    "busy",
                ),
            ),
        );
        actions.push(
            Action::Reply(
                reply_frames(&raw_msg, "shutdown_reply", content.as_slice(), &frames, ix, config),
            ),
        );
        let step = LoopStep::Shutdown(actions);
        assert(shuts_down(step, *config, raw_msg, frames@, ix as int));
        step
    } else {
        LoopStep::Continue(Vec::new())
    }
}

} // verus!
