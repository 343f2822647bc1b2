//! The loops of the four channels, one event at a time. At each suspension
//! point a loop hears one event; cancellation reaches it before a message
//! that arrived at the same time.

use crate::control::{
    asks_shutdown, control_message, is_passed_over, shuts_down, LoopStep,
};
use crate::envelope::JupyterMessage;
use crate::messages::ConnectionConfig;
use crate::shell::{
    accepted, asks_execution, handled, is_idle_step, key_of, next_count, reads, shell_message,
    Action, ShellStep,
};
use crate::wire::opened;
use vstd::prelude::*;

verus! {

/// What a loop hears when it wakes.
#[derive(Debug)]
pub enum LoopEvent {
    /// The loop's token was cancelled.
    Cancelled,
    /// A message arrived: its frames.
    Message(Vec<Vec<u8>>),
    /// The transport failed, or the queue was closed.
    Failed,
}

/// The event as the loop takes it: where the token is cancelled, that wins,
/// whatever arrived with it.
pub fn select(cancelled: bool, arrived: Option<Result<Vec<Vec<u8>>, ()>>) -> (event: Option<
    LoopEvent,
>)
    ensures
        cancelled ==> event == Some(LoopEvent::Cancelled),
        !cancelled ==> event == match arrived {
            Some(Ok(frames)) => Some(LoopEvent::Message(frames)),
            Some(Err(_)) => Some(LoopEvent::Failed),
            None => None,
        },
{
    if cancelled {
        return Some(LoopEvent::Cancelled);
    }
    match arrived {
        Some(Ok(frames)) => Some(LoopEvent::Message(frames)),
        Some(Err(_)) => Some(LoopEvent::Failed),
        None => None,
    }
}

/// Whether a loop goes on after it tried to send: a send that failed ends
/// that loop, and no other.
pub fn continues_after_send(sent: bool) -> (goes_on: bool)
    ensures
        goes_on == sent,
{
    sent
}

/// The step ends the loop without sending anything.
pub open spec fn ends_silently(step: LoopStep) -> bool {
    step matches LoopStep::Stop(actions) && actions@.len() == 0
}

/// One turn of the heartbeat loop: a message is sent back as it came, byte
/// for byte; cancellation or a failure ends the loop.
pub fn heartbeat_step(event: LoopEvent) -> (step: LoopStep)
    ensures
        match event {
            LoopEvent::Message(frames) => step matches LoopStep::Continue(actions)
                && actions@.len() == 1 && actions@[0] == Action::Reply(frames),
            _ => ends_silently(step),
        },
{
    match event {
        LoopEvent::Message(frames) => {
            let mut actions: Vec<Action> = Vec::new();
            actions.push(Action::Reply(frames));
            LoopStep::Continue(actions)
        },
        _ => LoopStep::Stop(Vec::new()),
    }
}

/// One turn of the broadcaster: frames taken from the queue are written to
/// the broadcast socket as they are, in the order of the queue; cancellation
/// or a closed queue ends the loop.
pub fn iopub_step(event: LoopEvent) -> (step: LoopStep)
    ensures
        match event {
            LoopEvent::Message(frames) => step matches LoopStep::Continue(actions)
                && actions@.len() == 1 && actions@[0] == Action::Reply(frames),
            _ => ends_silently(step),
        },
{
    match event {
        LoopEvent::Message(frames) => {
            let mut actions: Vec<Action> = Vec::new();
            actions.push(Action::Reply(frames));
            LoopStep::Continue(actions)
        },
        _ => LoopStep::Stop(Vec::new()),
    }
}

/// One turn of the control loop: cancellation or a failure ends it without
/// a word; a message is handled as `control_message` says.
pub fn control_step(event: LoopEvent, config: &ConnectionConfig) -> (step: LoopStep)
    ensures
        match event {
            LoopEvent::Message(frames) => {
                &&& !asks_shutdown(frames@, key_of(*config)) ==> is_passed_over(step)
                &&& asks_shutdown(frames@, key_of(*config)) ==> exists|msg: JupyterMessage| #[trigger]
                    reads(msg, frames@, key_of(*config)) && shuts_down(
                        step,
                        *config,
                        msg,
                        frames@,
                        opened(frames@, key_of(*config)).unwrap(),
                    )
            },
            _ => ends_silently(step),
        },
{
    match event {
        LoopEvent::Message(frames) => control_message(frames, config),
        _ => LoopStep::Stop(Vec::new()),
    }
}

/// One turn of the shell loop: `None` ends the loop, on cancellation or a
/// failure, and leaves the counter alone; a message is handled as
/// `shell_message` says.
pub fn shell_step(event: LoopEvent, config: &ConnectionConfig, exec_count: &mut u32) -> (step:
    Option<ShellStep>)
    ensures
        match event {
            LoopEvent::Message(frames) => {
                &&& step.is_some()
                &&& *final(exec_count) == if asks_execution(frames@, key_of(*config)) {
                    next_count(*old(exec_count))
                } else {
                    *old(exec_count)
                }
                &&& !accepted(frames@, key_of(*config)) ==> is_idle_step(step.unwrap())
                &&& accepted(frames@, key_of(*config)) ==> exists|msg: JupyterMessage| #[trigger]
                    reads(msg, frames@, key_of(*config)) && handled(
                        step.unwrap(),
                        *config,
                        msg,
                        frames,
                        opened(frames@, key_of(*config)).unwrap() as usize,
                        *final(exec_count),
                    )
            },
            _ => step.is_none() && *final(exec_count) == *old(exec_count),
        },
{
    match event {
        LoopEvent::Message(frames) => Some(shell_message(frames, config, exec_count)),
        _ => None,
    }
}

} // verus!
