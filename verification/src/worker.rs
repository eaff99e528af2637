//! Worker-side job-distribution protocol.
//!
//! The orchestrator wraps each genome in a [`DnaCommand`] and pushes it on
//! an unbounded command channel. A worker receives a command, exposes its
//! gene bytes and the shared [`Session`] parameters to the external scoring
//! policy through a single-use [`CommandHandle`], writes the returned score
//! into the genome, and forwards the scored command on the result channel.
//! Any contract violation — a command without a genome, or a handle used
//! twice — is surfaced as a [`WorkerError`], never swallowed.

use crate::dna::Dna;
use crate::dna::Fitness;
use vstd::prelude::*;

verus! {

/// A work item: one genome on its way to a worker, then back to the
/// orchestrator once scored. A command that reaches a worker without a
/// genome is a contract violation.
pub struct DnaCommand {
    pub dna: Option<Dna>,
}

/// How a worker step can fail. `MissingDna` and `HandleAlreadyUsed` are
/// contract violations — defects in the orchestrator or the scoring-policy
/// bridge, fatal by design. `ChannelClosed` means the peer side of a channel
/// has shut down and the worker should terminate.
#[derive(Clone, Copy, Debug, PartialEq, Eq, Structural)]
pub enum WorkerError {
    ChannelClosed,
    MissingDna,
    HandleAlreadyUsed,
}

/// Single-use result handle over a received command: the command can be
/// taken out exactly once, after which the handle stays empty for good.
pub struct CommandHandle {
    cmd: Option<Box<DnaCommand>>,
}

impl CommandHandle {
    /// The command the handle still holds, if it has not been consumed yet.
    pub closed spec fn pending(&self) -> Option<Box<DnaCommand>> {
        self.cmd
    }

    /// A fresh handle holding `cmd`.
    pub fn new(cmd: Box<DnaCommand>) -> (h: CommandHandle)
        ensures
            h.pending() == Some(cmd),
    {
        CommandHandle { cmd: Some(cmd) }
    }

    /// The gene sequences of the pending command's genome, nodes then
    /// masteries, read-only: what the scoring policy is shown. Nothing is
    /// returned once the handle is consumed or when the command carries no
    /// genome.
    pub fn genes(&self) -> (r: Option<(&Vec<u8>, &Vec<u8>)>)
        ensures
            r is Some <==> (self.pending() is Some && self.pending()->0.dna is Some),
            r matches Some(p) ==> p.0@ == self.pending()->0.dna->0.reference.body_nodes@ && p.1@
                == self.pending()->0.dna->0.reference.body_masteries@,
    {
        match &self.cmd {
            Some(cmd) => match &cmd.dna {
                Some(dna) => Some((&dna.reference.body_nodes, &dna.reference.body_masteries)),
                None => None,
            },
            None => None,
        }
    }

    /// Takes the command out. The first call returns it; every later call
    /// finds the handle empty and returns nothing.
    pub fn take(&mut self) -> (r: Option<Box<DnaCommand>>)
        ensures
            r == old(self).pending(),
            final(self).pending() is None,
    {
        self.cmd.take()
    }
}

/// The command queue and result queue: the unbounded
/// multi-producer/multi-consumer channels of the `crossbeam` crate.
#[verifier::external_type_specification]
#[verifier::external_body]
#[verifier::reject_recursive_types(T)]
pub struct ExSender<T>(crossbeam::channel::Sender<T>);

#[verifier::external_type_specification]
#[verifier::external_body]
#[verifier::reject_recursive_types(T)]
pub struct ExReceiver<T>(crossbeam::channel::Receiver<T>);

/// Relies on `crossbeam_channel::Receiver::recv`: blocks until a message
/// arrives and returns it, or fails once the channel is empty and every
/// sender has disconnected. Which command arrives depends on the other
/// threads, so nothing is stated of the returned value.
#[verifier::external_body]
fn channel_recv(commands: &crossbeam::channel::Receiver<Box<DnaCommand>>) -> (r: Option<
    Box<DnaCommand>,
>) {
    match commands.recv() {
        Ok(cmd) => Some(cmd),
        Err(_) => None,
    }
}

/// Relies on `crossbeam_channel::Sender::send`: on an unbounded channel the
/// message is delivered without blocking unless every receiver has
/// disconnected, in which case the message comes back inside the error.
#[verifier::external_body]
fn channel_send(
    results: &crossbeam::channel::Sender<Box<DnaCommand>>,
    cmd: Box<DnaCommand>,
) -> (r: Option<Box<DnaCommand>>)
    ensures
        r matches Some(back) ==> back == cmd,
{
    match results.send(cmd) {
        Ok(()) => None,
        Err(e) => Some(e.0),
    }
}

/// Decides what a worker does with one received command: a command carrying
/// a genome becomes a fresh single-use handle over exactly that command, one
/// without a genome is the contract violation `MissingDna`.
pub fn wrap_command(cmd: Box<DnaCommand>) -> (r: Result<CommandHandle, WorkerError>)
    ensures
        cmd.dna is Some ==> (r matches Ok(h) && h.pending() == Some(cmd)),
        cmd.dna is None ==> r == Err::<CommandHandle, WorkerError>(WorkerError::MissingDna),
{
    if cmd.dna.is_some() {
        Ok(CommandHandle::new(cmd))
    } else {
        Err(WorkerError::MissingDna)
    }
}

/// Blocks on the command channel and wraps the received command in a fresh
/// single-use handle. A command that arrives without a genome is a contract
/// violation and is surfaced as `MissingDna`; a closed channel is the
/// worker's termination signal.
pub fn receive_next_command(commands: &crossbeam::channel::Receiver<Box<DnaCommand>>) -> (r:
    Result<CommandHandle, WorkerError>)
    ensures
        r matches Ok(h) ==> h.pending() matches Some(cmd) && cmd.dna is Some,
        r matches Err(e) ==> (e == WorkerError::ChannelClosed || e == WorkerError::MissingDna),
{
    match channel_recv(commands) {
        None => Err(WorkerError::ChannelClosed),
        Some(cmd) => wrap_command(cmd),
    }
}

/// Consumes the handle and writes the score into the command's genome.
/// Exactly one call can succeed per handle: a second call finds it already
/// consumed, and a command without a genome is rejected. On success the
/// returned command carries the same gene bytes as before with its fitness
/// moved to `Scored(score_bits)`.
pub fn consume_and_score(h: &mut CommandHandle, score_bits: u64) -> (r: Result<
    Box<DnaCommand>,
    WorkerError,
>)
    ensures
        final(h).pending() is None,
        old(h).pending() is None ==> r == Err::<Box<DnaCommand>, WorkerError>(
            WorkerError::HandleAlreadyUsed,
        ),
        (old(h).pending() is Some && old(h).pending()->0.dna is None) ==> r == Err::<
            Box<DnaCommand>,
            WorkerError,
        >(WorkerError::MissingDna),
        (old(h).pending() is Some && old(h).pending()->0.dna is Some) ==> (r matches Ok(out)
            && out.dna is Some
            && out.dna->0.reference.body_nodes@
                == old(h).pending()->0.dna->0.reference.body_nodes@
            && out.dna->0.reference.body_masteries@
                == old(h).pending()->0.dna->0.reference.body_masteries@
            && out.dna->0.reference.fitness_score == Fitness::Scored(score_bits)),
{
    match h.take() {
        None => Err(WorkerError::HandleAlreadyUsed),
        Some(mut cmd) => {
            match cmd.dna.take() {
                Some(mut dna) => {
                    dna.reference.fitness_score = Fitness::Scored(score_bits);
                    cmd.dna = Some(dna);
                    Ok(cmd)
                },
                None => Err(WorkerError::MissingDna),
            }
        },
    }
}

/// Consumes the handle exactly once, writes the score into its genome and
/// forwards the scored command on the result channel. A handle already
/// consumed or a command without a genome is a contract violation and is
/// reported as such; when the command is sound, only a disconnected result
/// channel can still stop the hand-off.
pub fn set_result(
    h: &mut CommandHandle,
    score_bits: u64,
    results: &crossbeam::channel::Sender<Box<DnaCommand>>,
) -> (r: Result<(), WorkerError>)
    ensures
        final(h).pending() is None,
        old(h).pending() is None ==> r == Err::<(), WorkerError>(WorkerError::HandleAlreadyUsed),
        (old(h).pending() is Some && old(h).pending()->0.dna is None) ==> r == Err::<
            (),
            WorkerError,
        >(WorkerError::MissingDna),
        (old(h).pending() is Some && old(h).pending()->0.dna is Some) ==> (r is Ok || r == Err::<
            (),
            WorkerError,
        >(WorkerError::ChannelClosed)),
{
    match consume_and_score(h, score_bits) {
        Err(e) => Err(e),
        Ok(cmd) => {
            match channel_send(results, cmd) {
                None => Ok(()),
                Some(_) => Err(WorkerError::ChannelClosed),
            }
        },
    }
}

/// Shared, read-mostly evolutionary configuration: the generation index and
/// the two target structural counts the scoring policy reads as reference
/// values.
pub struct Session {
    pub number: u64,
    pub target_normal_nodes_count: u64,
    pub target_ascendancy_nodes_count: u64,
}

impl Session {
    pub fn new(
        number: u64,
        target_normal_nodes_count: u64,
        target_ascendancy_nodes_count: u64,
    ) -> (s: Session)
        ensures
            s.number == number,
            s.target_normal_nodes_count == target_normal_nodes_count,
            s.target_ascendancy_nodes_count == target_ascendancy_nodes_count,
    {
        Session { number, target_normal_nodes_count, target_ascendancy_nodes_count }
    }

    /// The current generation index.
    pub fn get_session_number(&self) -> (n: u64)
        ensures
            n == self.number,
    {
        self.number
    }

    /// The pair of target structural counts, normal then ascendancy.
    pub fn get_session_parameters(&self) -> (p: (u64, u64))
        ensures
            p.0 == self.target_normal_nodes_count,
            p.1 == self.target_ascendancy_nodes_count,
    {
        (self.target_normal_nodes_count, self.target_ascendancy_nodes_count)
    }
}

} // verus!
