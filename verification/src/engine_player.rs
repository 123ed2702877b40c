//! The two kinds of participant, and how an engine is asked for a move.
//!
//! Asking an engine means running a program and waiting for what it prints.
//! This module does neither. [`Engine::gen_move`] prepares the request, an
//! [`Invocation`], and a [`MovePromise`] for the reply; a worker outside this
//! crate runs the program, turns what happened into a reply with
//! [`ProcessOutcome::reply`], and sends it through the invocation's `sender`.

use std::sync::mpsc::{Receiver, Sender, TryRecvError};
use vstd::prelude::*;
use vstd::utf8::{decode_utf8, valid_utf8};

verus! {

/// `std::sync::mpsc::Receiver`, carried as it is.
#[verifier::external_type_specification]
#[verifier::external_body]
#[verifier::reject_recursive_types(T)]
pub struct ExReceiver<T>(Receiver<T>);

/// `std::sync::mpsc::Sender`, carried as it is.
#[verifier::external_type_specification]
#[verifier::external_body]
#[verifier::reject_recursive_types(T)]
pub struct ExSender<T>(Sender<T>);

/// `std::sync::mpsc::TryRecvError`: the channel is empty, or its sender is
/// gone. Which of the two is never asked.
#[verifier::external_type_specification]
#[verifier::external_body]
pub struct ExTryRecvError(TryRecvError);

/// `std::sync::mpsc::channel`: the two ends of a new channel. Nothing is
/// claimed of them.
pub assume_specification<T>[ std::sync::mpsc::channel::<T> ]() -> (ends: (Sender<T>, Receiver<T>));

/// `Receiver::try_recv`: returns at once, with a value if one has arrived.
/// Whether one has depends on the sender, so nothing is claimed of the answer.
pub assume_specification<T>[ Receiver::<T>::try_recv ](receiver: &Receiver<T>) -> (arrived: Result<
    T,
    TryRecvError,
>);

/// Who plays one side of the board.
pub enum EngineOrPlayer {
    /// A person, whose moves come from the board on the screen.
    Player,
    /// A program that is run once for every move.
    Engine(Engine),
}

impl EngineOrPlayer {
    /// The side is an engine whose path has been confirmed.
    pub open spec fn is_ready_engine(self) -> bool {
        self matches EngineOrPlayer::Engine(engine) && engine@.locked_in
    }

    /// The path of the side's program; empty for a person.
    pub open spec fn engine_path(self) -> Seq<char> {
        match self {
            EngineOrPlayer::Engine(engine) => engine@.path,
            EngineOrPlayer::Player => Seq::<char>::empty(),
        }
    }
}

/// What an [`Engine`] holds.
pub struct EngineView {
    pub path: Seq<char>,
    pub locked_in: bool,
}

/// An engine: the path of its program, and whether that path has been
/// confirmed. A confirmed path is not empty and is never changed again.
pub struct Engine {
    path: String,
    locked_in: bool,
}

impl View for Engine {
    type V = EngineView;

    closed spec fn view(&self) -> EngineView {
        EngineView { path: self.path@, locked_in: self.locked_in }
    }
}

impl Clone for Engine {
    fn clone(&self) -> (copy: Self)
        ensures
            copy == *self,
    {
        proof {
            use_type_invariant(self);
        }
        Self { path: self.path.clone(), locked_in: self.locked_in }
    }
}

impl Engine {
    /// A confirmed path is not empty.
    #[verifier::type_invariant]
    pub open spec fn well_formed(&self) -> bool {
        self@.locked_in ==> self@.path.len() > 0
    }

    /// An engine with no path yet.
    pub fn empty() -> (engine: Self)
        ensures
            engine@.path == Seq::<char>::empty(),
            !engine@.locked_in,
    {
        Self { path: String::new(), locked_in: false }
    }

    /// The path of the engine's program.
    pub fn path(&self) -> (path: &str)
        ensures
            path@ == self@.path,
    {
        self.path.as_str()
    }

    /// Whether the path has been confirmed.
    pub fn locked_in(&self) -> (locked: bool)
        ensures
            locked == self@.locked_in,
            locked ==> self@.path.len() > 0,
    {
        proof {
            use_type_invariant(self);
        }
        self.locked_in
    }

    /// Replaces the path, unless it has been confirmed already.
    pub fn set_path(&mut self, path: String)
        ensures
            final(self)@.locked_in == old(self)@.locked_in,
            final(self)@.path == if old(self)@.locked_in {
                old(self)@.path
            } else {
                path@
            },
    {
        proof {
            use_type_invariant(&*self);
        }
        if !self.locked_in {
            self.path = path;
        }
    }

    /// Confirms the path if there is one, and tells whether the engine is
    /// confirmed now. An engine that is confirmed stays so.
    pub fn lock_in(&mut self) -> (locked: bool)
        ensures
            final(self)@.path == old(self)@.path,
            final(self)@.locked_in == (old(self)@.locked_in || old(self)@.path.len() > 0),
            locked == final(self)@.locked_in,
    {
        proof {
            use_type_invariant(&*self);
        }
        if !self.path.as_str().is_empty() {
            self.locked_in = true;
        }
        self.locked_in
    }

    /// Prepares the request for a move in the position given in
    /// Forsyth-Edwards notation: what to run, and a promise for the reply.
    /// The program is the one at the engine's path, and its arguments are
    /// `--board` and the position. The engine itself stays as it is.
    pub fn gen_move(&self, position: &str) -> (request: (MovePromise, Invocation))
        ensures
            request.1.asks(self@.path, position@),
    {
        let (sender, receiver) = std::sync::mpsc::channel();
        let program = self.path.clone();
        let mut arguments: Vec<String> = Vec::new();
        arguments.push(String::from_str("--board"));
        arguments.push(String::from_str(position));
        (MovePromise::new(receiver), Invocation { program, arguments, sender })
    }
}

/// What a worker needs to ask an engine for one move.
pub struct Invocation {
    /// The program to run.
    pub program: String,
    /// Its arguments.
    pub arguments: Vec<String>,
    /// Where the reply is to be sent, once.
    pub sender: Sender<Result<String, String>>,
}

impl Invocation {
    /// The invocation runs the program at `path` with the arguments `--board`
    /// and `position`, in this order.
    pub open spec fn asks(&self, path: Seq<char>, position: Seq<char>) -> bool {
        &&& self.program@ == path
        &&& self.arguments@.len() == 2
        &&& self.arguments@[0]@ == "--board"@
        &&& self.arguments@[1]@ == position
    }
}

/// The reply of an engine that may not have arrived yet. Polling never waits.
/// Once a poll has handed out the reply the promise is gone.
pub struct MovePromise {
    receiver: Receiver<Result<String, String>>,
}

impl MovePromise {
    /// The channel on which the reply arrives.
    pub closed spec fn channel(&self) -> Receiver<Result<String, String>> {
        self.receiver
    }

    /// A promise for the one reply that will be sent into `receiver`'s
    /// channel.
    pub fn new(receiver: Receiver<Result<String, String>>) -> (promise: Self)
        ensures
            promise.channel() == receiver,
    {
        Self { receiver }
    }

    /// What a poll answers, given what the channel had: the reply if one has
    /// arrived, and else the promise itself, unchanged, to be polled again. A
    /// channel whose sender is gone is like one that is still empty.
    pub fn settle(self, arrived: Result<Result<String, String>, TryRecvError>) -> (polled: Result<
        Result<String, String>,
        Self,
    >)
        ensures
            polled == match arrived {
                Ok(reply) => Ok::<Result<String, String>, Self>(reply),
                Err(_) => Err(self),
            },
    {
        match arrived {
            Ok(reply) => Ok(reply),
            Err(_) => Err(self),
        }
    }

    /// Looks once whether the reply has arrived, without waiting. `Ok` holds
    /// the reply; `Err` gives the promise back as it was.
    pub fn poll_recv(self) -> (polled: Result<Result<String, String>, Self>)
        ensures
            polled matches Err(promise) ==> promise == self,
    {
        let arrived = self.receiver.try_recv();
        self.settle(arrived)
    }
}

/// How running an engine's program ended.
pub enum ProcessOutcome {
    /// The program could not be run, for the reason given.
    Unstarted(String),
    /// The program ran and ended with the exit code `code`, if it had one,
    /// after it had printed `stdout`.
    Exited { code: Option<i32>, stdout: Vec<u8> },
}

impl ProcessOutcome {
    /// The program ran and ended with the exit code 0.
    pub open spec fn succeeded(self) -> bool {
        self matches ProcessOutcome::Exited { code: Some(status), .. } && status == 0
    }

    /// The reply that a worker sends for this outcome. A program that ended
    /// with the exit code 0 and printed valid UTF-8 replies with that text.
    /// Anything else is an error with a message of its own: a program that
    /// could not be run, one that ended otherwise, whatever it printed, and
    /// one whose output is no text.
    pub fn reply(self) -> (reply: Result<String, String>)
        ensures
            match self {
                ProcessOutcome::Unstarted(reason) => reply matches Err(message) && message@
                    == "Error: "@ + reason@,
                ProcessOutcome::Exited { code, stdout } => if !self.succeeded() {
                    reply matches Err(message) && message@ == "Error: engine failed"@
                } else if !valid_utf8(stdout@) {
                    reply matches Err(message) && message@ == "Error: engine output is not UTF-8"@
                } else {
                    reply matches Ok(text) && text@ == decode_utf8(stdout@)
                },
            },
    {
        match self {
            ProcessOutcome::Unstarted(reason) => {
                let mut message = String::from_str("Error: ");
                message.append(reason.as_str());
                Err(message)
            },
            ProcessOutcome::Exited { code, stdout } => {
                let succeeded = match code {
                    Some(status) => status == 0,
                    None => false,
                };
                if !succeeded {
                    Err(String::from_str("Error: engine failed"))
                } else {
                    match String::from_utf8(stdout) {
                        Ok(text) => Ok(text),
                        Err(_) => Err(String::from_str("Error: engine output is not UTF-8")),
                    }
                }
            },
        }
    }
}

} // verus!
