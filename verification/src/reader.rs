//! The version-tolerant one-shot read of the colour-scheme setting.
//!
//! Newer portals answer `ReadOne` with the value in a single variant. Older
//! ones only know `Read`, which wraps it twice. The reader tries the modern
//! call first and lets the interface's `version` property decide whether a
//! failure of it may be answered by the legacy call.

use crate::error::{Error, ErrorKind};
use crate::mode::{decode, mode_from_u32, Mode};
use crate::portal::MODERN_VERSION;
use vstd::prelude::*;

verus! {

/// A bus operation that the reader asks the embedding code to perform.
#[derive(Debug, PartialEq, Eq, Structural, Clone, Copy, Hash)]
pub enum Request {
    /// Open a connection to the session bus and address the portal object
    /// through it, each call timing out after
    /// [`CALL_TIMEOUT_MS`](crate::portal::CALL_TIMEOUT_MS).
    Connect,
    /// Call `ReadOne` for the colour-scheme setting and unwrap one variant.
    ReadOne,
    /// Read the `version` property of the settings interface.
    Version,
    /// Call `Read` for the colour-scheme setting and unwrap two variants.
    Read,
}

/// How a requested operation went.
#[derive(Debug, PartialEq, Eq)]
pub enum Reply<C> {
    /// The connection is open.
    Connected,
    /// The call returned this unsigned integer.
    Value(u32),
    /// The operation failed: the bus could not be reached, the service
    /// answered with an error, or its answer did not have the expected type.
    Failed(C),
}

impl<C> Reply<C> {
    /// The reply that stands for the result of a call.
    pub open spec fn of(answer: Result<u32, C>) -> Self {
        match answer {
            Ok(value) => Reply::Value(value),
            Err(cause) => Reply::Failed(cause),
        }
    }
}

/// The state of one read of the current colour scheme.
#[derive(Debug, PartialEq, Eq)]
pub enum Reader<C> {
    /// Waiting for the connection to open.
    Connecting,
    /// Waiting for the answer to the modern call.
    Modern,
    /// The modern call failed with `failure`; waiting for the version.
    Probing { failure: C },
    /// Waiting for the answer to the legacy call.
    Legacy,
    /// The read is over.
    Done(Result<Mode, Error<C>>),
}

impl<C> Reader<C> {
    /// The operation whose reply the reader waits for, or nothing once the
    /// read is over.
    pub open spec fn pending(self) -> Option<Request> {
        match self {
            Reader::Connecting => Some(Request::Connect),
            Reader::Modern => Some(Request::ReadOne),
            Reader::Probing { .. } => Some(Request::Version),
            Reader::Legacy => Some(Request::Read),
            Reader::Done(_) => None,
        }
    }

    /// The state that follows when `reply` arrives.
    ///
    /// A failed modern call is kept while the version is looked up, and is
    /// what the read fails with unless the version is known to be older than
    /// [`MODERN_VERSION`]. A reply that cannot answer the pending operation
    /// changes nothing.
    pub open spec fn after(self, reply: Reply<C>) -> Self {
        match (self, reply) {
            (Reader::Connecting, Reply::Connected) => Reader::Modern,
            (Reader::Connecting, Reply::Failed(cause)) => Reader::Done(
                Err(Error { kind: ErrorKind::Connection, cause }),
            ),
            (Reader::Modern, Reply::Value(raw)) => Reader::Done(Ok(decode(raw as int))),
            (Reader::Modern, Reply::Failed(failure)) => Reader::Probing { failure },
            (Reader::Probing { failure }, Reply::Value(version)) => if version < MODERN_VERSION {
                Reader::Legacy
            } else {
                Reader::Done(Err(Error { kind: ErrorKind::MethodCall, cause: failure }))
            },
            (Reader::Probing { failure }, Reply::Failed(_)) => Reader::Done(
                Err(Error { kind: ErrorKind::MethodCall, cause: failure }),
            ),
            (Reader::Legacy, Reply::Value(raw)) => Reader::Done(Ok(decode(raw as int))),
            (Reader::Legacy, Reply::Failed(cause)) => Reader::Done(
                Err(Error { kind: ErrorKind::MethodCall, cause }),
            ),
            (state, _) => state,
        }
    }

    /// What the read ended with, or nothing while it is under way.
    pub open spec fn outcome(self) -> Option<Result<Mode, Error<C>>> {
        match self {
            Reader::Done(result) => Some(result),
            _ => None,
        }
    }

    /// A reader that has not talked to the bus yet.
    pub fn new() -> (reader: Self)
        ensures
            reader == Reader::<C>::Connecting,
    {
        Reader::Connecting
    }

    /// The operation to perform next, or `None` once the read is over.
    pub fn request(&self) -> (request: Option<Request>)
        ensures
            request == self.pending(),
    {
        match self {
            Reader::Connecting => Some(Request::Connect),
            Reader::Modern => Some(Request::ReadOne),
            Reader::Probing { .. } => Some(Request::Version),
            Reader::Legacy => Some(Request::Read),
            Reader::Done(_) => None,
        }
    }

    /// Takes the reply to the pending operation and moves on.
    pub fn step(self, reply: Reply<C>) -> (next: Self)
        ensures
            next == self.after(reply),
    {
        match (self, reply) {
            (Reader::Connecting, Reply::Connected) => Reader::Modern,
            (Reader::Connecting, Reply::Failed(cause)) => Reader::Done(
                Err(Error::new(ErrorKind::Connection, cause)),
            ),
            (Reader::Modern, Reply::Value(raw)) => Reader::Done(Ok(mode_from_u32(raw))),
            (Reader::Modern, Reply::Failed(failure)) => Reader::Probing { failure },
            (Reader::Probing { failure }, Reply::Value(version)) => {
                if version < MODERN_VERSION {
                    Reader::Legacy
                } else {
                    Reader::Done(Err(Error::new(ErrorKind::MethodCall, failure)))
                }
            },
            (Reader::Probing { failure }, Reply::Failed(_)) => Reader::Done(
                Err(Error::new(ErrorKind::MethodCall, failure)),
            ),
            (Reader::Legacy, Reply::Value(raw)) => Reader::Done(Ok(mode_from_u32(raw))),
            (Reader::Legacy, Reply::Failed(cause)) => Reader::Done(
                Err(Error::new(ErrorKind::MethodCall, cause)),
            ),
            (state, _) => state,
        }
    }

    /// Ends the read: its result, or `None` while it is under way.
    pub fn into_result(self) -> (result: Option<Result<Mode, Error<C>>>)
        ensures
            result == self.outcome(),
    {
        match self {
            Reader::Done(result) => Some(result),
            _ => None,
        }
    }
}

/// A settings service as one read meets it: how it answers each operation.
pub struct Service<C> {
    /// Whether a connection to the session bus can be opened.
    pub connect: Result<(), C>,
    /// The answer to the modern call.
    pub read_one: Result<u32, C>,
    /// The answer to the lookup of the interface version.
    pub version: Result<u32, C>,
    /// The answer to the legacy call.
    pub read: Result<u32, C>,
}

impl<C> Service<C> {
    /// The reply that the service gives to `request`.
    pub open spec fn reply(self, request: Request) -> Reply<C> {
        match request {
            Request::Connect => match self.connect {
                Ok(_) => Reply::Connected,
                Err(cause) => Reply::Failed(cause),
            },
            Request::ReadOne => Reply::of(self.read_one),
            Request::Version => Reply::of(self.version),
            Request::Read => Reply::of(self.read),
        }
    }

    /// Whether the service is known to be older than the modern call: its
    /// version can be read and lies below [`MODERN_VERSION`].
    pub open spec fn predates_read_one(self) -> bool {
        match self.version {
            Ok(version) => version < MODERN_VERSION,
            Err(_) => false,
        }
    }

    /// What reading the current colour scheme from the service comes to.
    ///
    /// The modern answer is final when there is one. The legacy answer
    /// stands in for it only on a service that predates the modern call;
    /// on any other the modern call's own error is the result. No failure
    /// turns into a mode.
    pub open spec fn current(self) -> Result<Mode, Error<C>> {
        match self.connect {
            Err(cause) => Err(Error { kind: ErrorKind::Connection, cause }),
            Ok(_) => match self.read_one {
                Ok(raw) => Ok(decode(raw as int)),
                Err(failure) => if self.predates_read_one() {
                    match self.read {
                        Ok(raw) => Ok(decode(raw as int)),
                        Err(cause) => Err(Error { kind: ErrorKind::MethodCall, cause }),
                    }
                } else {
                    Err(Error { kind: ErrorKind::MethodCall, cause: failure })
                },
            },
        }
    }

    /// The operations that one read performs on the service, in order.
    pub open spec fn operations(self) -> Seq<Request> {
        if self.connect is Err {
            seq![Request::Connect]
        } else if self.read_one is Ok {
            seq![Request::Connect, Request::ReadOne]
        } else if !self.predates_read_one() {
            seq![Request::Connect, Request::ReadOne, Request::Version]
        } else {
            seq![Request::Connect, Request::ReadOne, Request::Version, Request::Read]
        }
    }
}

impl<C> Reader<C> {
    /// The state reached from `self` by performing up to `steps` pending
    /// operations on `service`.
    pub open spec fn run(self, service: Service<C>, steps: nat) -> Self
        decreases steps,
    {
        if steps == 0 {
            self
        } else {
            match self.pending() {
                Some(request) => self.after(service.reply(request)).run(
                    service,
                    (steps - 1) as nat,
                ),
                None => self,
            }
        }
    }

    /// The operations performed on the way, in order.
    pub open spec fn performed(self, service: Service<C>, steps: nat) -> Seq<Request>
        decreases steps,
    {
        if steps == 0 {
            Seq::empty()
        } else {
            match self.pending() {
                Some(request) => seq![request] + self.after(service.reply(request)).performed(
                    service,
                    (steps - 1) as nat,
                ),
                None => Seq::empty(),
            }
        }
    }
}

/// Against every service a read is over after at most four operations, ends
/// with what [`Service::current`] says and has performed exactly
/// [`Service::operations`]; further steps change nothing.
pub proof fn read_settles<C>(service: Service<C>, steps: nat)
    requires
        steps >= 4,
    ensures
        Reader::<C>::Connecting.run(service, steps) == Reader::Done(service.current()),
        Reader::<C>::Connecting.performed(service, steps) == service.operations(),
{
    reveal_with_fuel(Reader::run, 5);
    reveal_with_fuel(Reader::performed, 5);
    let start = Reader::<C>::Connecting;
    assert(start.performed(service, 4) =~= service.operations());
    run_splits(start, service, 4, (steps - 4) as nat);
}

/// Running `first + second` steps is running `first` steps and then
/// `second` more.
pub proof fn run_splits<C>(reader: Reader<C>, service: Service<C>, first: nat, second: nat)
    ensures
        reader.run(service, first + second) == reader.run(service, first).run(service, second),
        reader.performed(service, first + second) == reader.performed(service, first)
            + reader.run(service, first).performed(service, second),
    decreases first,
{
    if first == 0 {
        assert(reader.performed(service, second) =~= Seq::<Request>::empty() + reader.performed(
            service,
            second,
        ));
    } else {
        match reader.pending() {
            Some(request) => {
                let next = reader.after(service.reply(request));
                run_splits(next, service, (first - 1) as nat, second);
                assert(reader.performed(service, first + second) =~= reader.performed(
                    service,
                    first,
                ) + next.run(service, (first - 1) as nat).performed(service, second));
            },
            None => {
                assert(reader.performed(service, second) =~= Seq::<Request>::empty());
            },
        }
    }
}

/// A modern answer is decoded and ends the read: neither the version nor the
/// legacy call is asked for.
pub proof fn modern_answer_is_final<C>(service: Service<C>, raw: u32)
    requires
        service.connect is Ok,
        service.read_one == Ok::<u32, C>(raw),
    ensures
        Reader::<C>::Connecting.run(service, 4) == Reader::<C>::Done(Ok(decode(raw as int))),
        Reader::<C>::Connecting.performed(service, 4) == seq![Request::Connect, Request::ReadOne],
{
    read_settles(service, 4);
}

/// The legacy call is made exactly when the modern call failed on a service
/// whose version is known to lie below [`MODERN_VERSION`], and its answer is
/// then the result.
pub proof fn legacy_call_needs_old_version<C>(service: Service<C>)
    requires
        service.connect is Ok,
        service.read_one is Err,
    ensures
        Reader::<C>::Connecting.performed(service, 4).contains(Request::Read)
            <==> service.predates_read_one(),
        service.predates_read_one() ==> Reader::<C>::Connecting.run(service, 4) == Reader::Done(
            match service.read {
                Ok(raw) => Ok(decode(raw as int)),
                Err(cause) => Err(Error { kind: ErrorKind::MethodCall, cause }),
            },
        ),
{
    read_settles(service, 4);
    let performed = Reader::<C>::Connecting.performed(service, 4);
    if service.predates_read_one() {
        assert(performed[3] == Request::Read);
    }
}

/// Where the modern call failed and the version cannot be read or is
/// [`MODERN_VERSION`] or later, the read fails with the modern call's error.
pub proof fn modern_failure_stands<C>(service: Service<C>, failure: C)
    requires
        service.connect is Ok,
        service.read_one == Err::<u32, C>(failure),
        !service.predates_read_one(),
    ensures
        Reader::<C>::Connecting.run(service, 4) == Reader::<C>::Done(
            Err(Error { kind: ErrorKind::MethodCall, cause: failure }),
        ),
        !Reader::<C>::Connecting.performed(service, 4).contains(Request::Read),
{
    read_settles(service, 4);
}

/// A read that yields a mode decoded it from an answer of the service.
pub proof fn mode_comes_from_an_answer<C>(service: Service<C>, mode: Mode)
    requires
        Reader::<C>::Connecting.run(service, 4) == Reader::<C>::Done(Ok(mode)),
    ensures
        (service.read_one matches Ok(raw) && mode == decode(raw as int)) || (service.read matches Ok(
            raw,
        ) && mode == decode(raw as int)),
{
    read_settles(service, 4);
}

} // verus!
