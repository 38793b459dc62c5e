//! The change subscription: delivering the current value, registering for
//! the portal's `SettingChanged` broadcast and filtering what arrives.

use crate::error::{Error, ErrorKind};
use crate::mode::{decode, mode_from_u32, Mode};
use crate::portal::{is_color_scheme, COLOR_SCHEME, NAMESPACE};
use vstd::prelude::*;

verus! {

/// The payload of one `SettingChanged` broadcast.
#[derive(Debug, PartialEq, Eq)]
pub struct SettingChanged {
    /// Namespace of the setting that changed.
    pub namespace: String,
    /// Key of the setting that changed.
    pub key: String,
    /// The new value read as an unsigned integer, or `None` where its wire
    /// type is not one that reads as such.
    pub value: Option<u64>,
}

impl SettingChanged {
    /// The mode that the broadcast announces: none unless it is about the
    /// colour-scheme setting and carries an unsigned integer.
    pub open spec fn announced(self) -> Option<Mode> {
        if self.namespace@ == NAMESPACE@ && self.key@ == COLOR_SCHEME@ {
            match self.value {
                Some(raw) => Some(decode(raw as int)),
                None => None,
            }
        } else {
            None
        }
    }

    /// The mode to hand to the subscriber, or `None` for a broadcast that is
    /// to be ignored.
    pub fn mode(&self) -> (mode: Option<Mode>)
        ensures
            mode == self.announced(),
    {
        if !is_color_scheme(self.namespace.as_str(), self.key.as_str()) {
            return None;
        }
        match self.value {
            Some(raw) => {
                let narrowed: u32 = match u32::try_from(raw) {
                    Ok(fits) => fits,
                    Err(_) => 0,
                };
                Some(mode_from_u32(narrowed))
            },
            None => None,
        }
    }
}

/// What the listener asks the embedding code to do next.
#[derive(Debug, PartialEq, Eq, Structural, Clone, Copy, Hash)]
pub enum Command {
    /// Call the subscriber with this mode.
    Deliver(Mode),
    /// Open the subscription's own connection to the session bus.
    Connect,
    /// Register a filter for the `SettingChanged` signal of the settings
    /// interface and keep it for as long as the process lives.
    Register,
    /// Report success to the caller and carry on in a background worker.
    Detach,
    /// Process incoming messages for up to
    /// [`POLL_TIMEOUT_MS`](crate::portal::POLL_TIMEOUT_MS).
    Poll,
}

/// How a command went.
#[derive(Debug, PartialEq, Eq)]
pub enum Event<C> {
    /// The command was carried out and there is nothing to report: the
    /// subscriber returned, the connection is open, the filter is
    /// registered, the worker runs, or a poll saw no `SettingChanged`.
    Done,
    /// A poll received this broadcast.
    Signal(SettingChanged),
    /// The command failed.
    Failed(C),
}

/// The state of one subscription.
#[derive(Debug, PartialEq, Eq)]
pub enum Listener<C> {
    /// The current value is known and the subscriber has yet to hear it.
    Announcing(Mode),
    /// Waiting for the subscription's connection to open.
    Connecting,
    /// Waiting for the signal filter to be registered.
    Registering,
    /// The subscription stands; the caller has yet to be told.
    Established,
    /// Waiting for the next poll to come back.
    Listening,
    /// A change arrived and the subscriber has yet to hear it.
    Notifying(Mode),
    /// The subscription could not be set up.
    Failed(Error<C>),
}

impl<C> Event<C> {
    /// The mode that the outcome of a poll announces, if any.
    pub open spec fn announced(self) -> Option<Mode> {
        match self {
            Event::Signal(signal) => signal.announced(),
            _ => None,
        }
    }
}

impl<C> Listener<C> {
    /// The command whose outcome the listener waits for, or nothing once
    /// setting up has failed.
    pub open spec fn pending(self) -> Option<Command> {
        match self {
            Listener::Announcing(mode) => Some(Command::Deliver(mode)),
            Listener::Connecting => Some(Command::Connect),
            Listener::Registering => Some(Command::Register),
            Listener::Established => Some(Command::Detach),
            Listener::Listening => Some(Command::Poll),
            Listener::Notifying(mode) => Some(Command::Deliver(mode)),
            Listener::Failed(_) => None,
        }
    }

    /// The state that follows when `event` arrives.
    ///
    /// Only opening the connection and registering the filter can fail the
    /// subscription. While listening, a broadcast that announces a mode is
    /// passed on and every other outcome of a poll, a failure included, is
    /// followed by the next poll. An event that cannot answer the pending
    /// command changes nothing.
    pub open spec fn after(self, event: Event<C>) -> Self {
        match (self, event) {
            (Listener::Announcing(_), Event::Done) => Listener::Connecting,
            (Listener::Connecting, Event::Done) => Listener::Registering,
            (Listener::Connecting, Event::Failed(cause)) => Listener::Failed(
                Error { kind: ErrorKind::Connection, cause },
            ),
            (Listener::Registering, Event::Done) => Listener::Established,
            (Listener::Registering, Event::Failed(cause)) => Listener::Failed(
                Error { kind: ErrorKind::SignalRegistration, cause },
            ),
            (Listener::Established, Event::Done) => Listener::Listening,
            (Listener::Listening, Event::Signal(signal)) => match signal.announced() {
                Some(mode) => Listener::Notifying(mode),
                None => Listener::Listening,
            },
            (Listener::Notifying(_), Event::Done) => Listener::Listening,
            (state, _) => state,
        }
    }

    /// The state in which a subscription starts, given the result of
    /// reading the current value.
    pub open spec fn starting(initial: Result<Mode, Error<C>>) -> Self {
        match initial {
            Ok(mode) => Listener::Announcing(mode),
            Err(error) => Listener::Failed(error),
        }
    }

    /// The state reached from `self` when `events` arrive one after another.
    pub open spec fn follow(self, events: Seq<Event<C>>) -> Self
        decreases events.len(),
    {
        if events.len() == 0 {
            self
        } else {
            self.follow(events.drop_last()).after(events.last())
        }
    }

    /// The commands that `events` were the outcomes of, in order.
    pub open spec fn answered(self, events: Seq<Event<C>>) -> Seq<Command>
        decreases events.len(),
    {
        if events.len() == 0 {
            Seq::empty()
        } else {
            let earlier = events.drop_last();
            match self.follow(earlier).pending() {
                Some(command) => self.answered(earlier).push(command),
                None => self.answered(earlier),
            }
        }
    }

    /// The error that ended setting up, if it failed.
    pub open spec fn failure(self) -> Option<Error<C>> {
        match self {
            Listener::Failed(error) => Some(error),
            _ => None,
        }
    }

    /// Starts a subscription from the result of reading the current value.
    /// Without a current value there is nothing to subscribe with: the
    /// listener has failed with the read's error.
    pub fn new(initial: Result<Mode, Error<C>>) -> (listener: Self)
        ensures
            listener == Self::starting(initial),
    {
        match initial {
            Ok(mode) => Listener::Announcing(mode),
            Err(error) => Listener::Failed(error),
        }
    }

    /// The command to carry out next, or `None` once setting up has failed.
    pub fn command(&self) -> (command: Option<Command>)
        ensures
            command == self.pending(),
    {
        match self {
            Listener::Announcing(mode) => Some(Command::Deliver(*mode)),
            Listener::Connecting => Some(Command::Connect),
            Listener::Registering => Some(Command::Register),
            Listener::Established => Some(Command::Detach),
            Listener::Listening => Some(Command::Poll),
            Listener::Notifying(mode) => Some(Command::Deliver(*mode)),
            Listener::Failed(_) => None,
        }
    }

    /// Takes the outcome of the pending command and moves on.
    pub fn step(self, event: Event<C>) -> (next: Self)
        ensures
            next == self.after(event),
    {
        match (self, event) {
            (Listener::Announcing(_), Event::Done) => Listener::Connecting,
            (Listener::Connecting, Event::Done) => Listener::Registering,
            (Listener::Connecting, Event::Failed(cause)) => Listener::Failed(
                Error::new(ErrorKind::Connection, cause),
            ),
            (Listener::Registering, Event::Done) => Listener::Established,
            (Listener::Registering, Event::Failed(cause)) => Listener::Failed(
                Error::new(ErrorKind::SignalRegistration, cause),
            ),
            (Listener::Established, Event::Done) => Listener::Listening,
            (Listener::Listening, Event::Signal(signal)) => match signal.mode() {
                Some(mode) => Listener::Notifying(mode),
                None => Listener::Listening,
            },
            (Listener::Notifying(_), Event::Done) => Listener::Listening,
            (state, _) => state,
        }
    }

    /// Gives up the listener: the error that ended setting up, or `None`
    /// if it has not failed.
    pub fn into_failure(self) -> (failure: Option<Error<C>>)
        ensures
            failure == self.failure(),
    {
        match self {
            Listener::Failed(error) => Some(error),
            _ => None,
        }
    }
}

/// The modes that `commands` hand to the subscriber, in order.
pub open spec fn deliveries(commands: Seq<Command>) -> Seq<Mode>
    decreases commands.len(),
{
    if commands.len() == 0 {
        Seq::empty()
    } else {
        match commands.last() {
            Command::Deliver(mode) => deliveries(commands.drop_last()).push(mode),
            _ => deliveries(commands.drop_last()),
        }
    }
}

/// The modes that the outcomes `polls` announce, in order.
pub open spec fn announced_by<C>(polls: Seq<Event<C>>) -> Seq<Mode>
    decreases polls.len(),
{
    if polls.len() == 0 {
        Seq::empty()
    } else {
        match polls.last().announced() {
            Some(mode) => announced_by(polls.drop_last()).push(mode),
            None => announced_by(polls.drop_last()),
        }
    }
}

/// The events that reach a listener whose successive polls come back with
/// `polls` and whose subscriber returns from every call.
pub open spec fn heard<C>(polls: Seq<Event<C>>) -> Seq<Event<C>>
    decreases polls.len(),
{
    if polls.len() == 0 {
        Seq::empty()
    } else if polls.last().announced() is Some {
        heard(polls.drop_last()).push(polls.last()).push(Event::Done)
    } else {
        heard(polls.drop_last()).push(polls.last())
    }
}

/// The events of setting up a subscription on a bus that treats opening the
/// connection and registering the filter as `connect` and `register` say.
pub open spec fn setting_up<C>(connect: Result<(), C>, register: Result<(), C>) -> Seq<Event<C>> {
    match (connect, register) {
        (Err(cause), _) => seq![Event::Done, Event::Failed(cause)],
        (Ok(_), Err(cause)) => seq![Event::Done, Event::Done, Event::Failed(cause)],
        (Ok(_), Ok(_)) => seq![Event::Done, Event::Done, Event::Done, Event::Done],
    }
}

/// One more event extends the path of a listener by one step, and the
/// commands by the one that was pending.
pub proof fn one_more_event<C>(start: Listener<C>, seen: Seq<Event<C>>, event: Event<C>)
    ensures
        start.follow(seen.push(event)) == start.follow(seen).after(event),
        start.answered(seen.push(event)) == match start.follow(seen).pending() {
            Some(command) => start.answered(seen).push(command),
            None => start.answered(seen),
        },
{
    assert(seen.push(event).drop_last() =~= seen);
}

/// One more command adds its mode to the deliveries if it is a delivery,
/// and nothing otherwise.
pub proof fn one_more_command(commands: Seq<Command>, command: Command)
    ensures
        deliveries(commands.push(command)) == match command {
            Command::Deliver(mode) => deliveries(commands).push(mode),
            _ => deliveries(commands),
        },
{
    assert(commands.push(command).drop_last() =~= commands);
}

/// Events that arrive one run after another are followed run by run.
pub proof fn follow_splits<C>(start: Listener<C>, first: Seq<Event<C>>, second: Seq<Event<C>>)
    ensures
        start.follow(first + second) == start.follow(first).follow(second),
        start.answered(first + second) == start.answered(first) + start.follow(first).answered(
            second,
        ),
    decreases second.len(),
{
    if second.len() == 0 {
        assert(first + second =~= first);
    } else {
        let earlier = second.drop_last();
        follow_splits(start, first, earlier);
        one_more_event(start, first + earlier, second.last());
        assert(first + second =~= (first + earlier).push(second.last()));
    }
}

/// Deliveries are taken command by command.
pub proof fn deliveries_split(first: Seq<Command>, second: Seq<Command>)
    ensures
        deliveries(first + second) == deliveries(first) + deliveries(second),
    decreases second.len(),
{
    if second.len() == 0 {
        assert(first + second =~= first);
    } else {
        let earlier = second.drop_last();
        deliveries_split(first, earlier);
        one_more_command(first + earlier, second.last());
        assert(first + second =~= (first + earlier).push(second.last()));
    }
}

/// Without a current value nothing is started: whatever arrives, the
/// listener stays failed with the read's error and no command is given, so
/// the subscriber is never called and no filter is registered.
pub proof fn failed_read_starts_nothing<C>(error: Error<C>, events: Seq<Event<C>>)
    ensures
        Listener::starting(Err(error)).follow(events) == Listener::Failed(error),
        Listener::starting(Err(error)).answered(events) == Seq::<Command>::empty(),
    decreases events.len(),
{
    if events.len() > 0 {
        failed_read_starts_nothing(error, events.drop_last());
    }
}

/// The first thing a subscription does is to call the subscriber with the
/// current value.
pub proof fn current_value_comes_first<C>(mode: Mode, events: Seq<Event<C>>)
    requires
        events.len() > 0,
    ensures
        Listener::<C>::starting(Ok(mode)).answered(events).len() > 0,
        Listener::<C>::starting(Ok(mode)).answered(events)[0] == Command::Deliver(mode),
    decreases events.len(),
{
    let start = Listener::<C>::starting(Ok(mode));
    let earlier = events.drop_last();
    if earlier.len() > 0 {
        current_value_comes_first::<C>(mode, earlier);
    } else {
        assert(start.answered(earlier) =~= Seq::<Command>::empty());
    }
}

/// Setting up calls the subscriber exactly once, with the current value and
/// before anything else. It then opens a connection, registers the filter
/// and reports success, and it fails at the first of these that fails, with
/// that failure as the cause.
pub proof fn setting_up_delivers_once<C>(mode: Mode, connect: Result<(), C>, register: Result<(), C>)
    ensures
        ({
            let start = Listener::<C>::starting(Ok(mode));
            let events = setting_up(connect, register);
            &&& deliveries(start.answered(events)) == seq![mode]
            &&& start.answered(events)[0] == Command::Deliver(mode)
            &&& match (connect, register) {
                (Err(cause), _) => {
                    &&& start.follow(events) == Listener::Failed(
                        Error { kind: ErrorKind::Connection, cause },
                    )
                    &&& start.answered(events) == seq![Command::Deliver(mode), Command::Connect]
                },
                (Ok(_), Err(cause)) => {
                    &&& start.follow(events) == Listener::Failed(
                        Error { kind: ErrorKind::SignalRegistration, cause },
                    )
                    &&& start.answered(events) == seq![
                        Command::Deliver(mode),
                        Command::Connect,
                        Command::Register,
                    ]
                },
                (Ok(_), Ok(_)) => {
                    &&& start.follow(events) == Listener::<C>::Listening
                    &&& start.answered(events) == seq![
                        Command::Deliver(mode),
                        Command::Connect,
                        Command::Register,
                        Command::Detach,
                    ]
                },
            }
        }),
{
    let start = Listener::<C>::starting(Ok(mode));
    let none = Seq::<Event<C>>::empty();
    let told = none.push(Event::Done);
    one_more_event(start, none, Event::Done);
    one_more_command(Seq::empty(), Command::Deliver(mode));
    let dialled = told.push(
        match connect {
            Ok(_) => Event::Done,
            Err(cause) => Event::Failed(cause),
        },
    );
    one_more_event(start, told, dialled.last());
    one_more_command(start.answered(told), Command::Connect);
    match (connect, register) {
        (Err(_), _) => {
            assert(setting_up(connect, register) =~= dialled);
        },
        (Ok(_), Err(cause)) => {
            let refused = dialled.push(Event::Failed(cause));
            one_more_event(start, dialled, Event::Failed(cause));
            one_more_command(start.answered(dialled), Command::Register);
            assert(setting_up(connect, register) =~= refused);
        },
        (Ok(_), Ok(_)) => {
            let registered = dialled.push(Event::Done);
            one_more_event(start, dialled, Event::Done);
            one_more_command(start.answered(dialled), Command::Register);
            one_more_event(start, registered, Event::Done);
            one_more_command(start.answered(registered), Command::Detach);
            assert(setting_up(connect, register) =~= registered.push(Event::Done));
        },
    }
}

/// A poll that announces no mode, be it a time-out, a broadcast about
/// another setting, one whose value is no unsigned integer or a failure,
/// calls nobody and is followed by the next poll.
pub proof fn quiet_poll_keeps_listening<C>(
    start: Listener<C>,
    seen: Seq<Event<C>>,
    outcome: Event<C>,
)
    requires
        start.follow(seen) == Listener::<C>::Listening,
        outcome.announced() is None,
    ensures
        start.follow(seen.push(outcome)) == Listener::<C>::Listening,
        start.answered(seen.push(outcome)) == start.answered(seen).push(Command::Poll),
{
    one_more_event(start, seen, outcome);
}

/// A broadcast that announces a mode has the subscriber called with it,
/// once, and is followed by the next poll.
pub proof fn change_is_delivered_once<C>(
    start: Listener<C>,
    seen: Seq<Event<C>>,
    signal: SettingChanged,
    mode: Mode,
)
    requires
        start.follow(seen) == Listener::<C>::Listening,
        signal.announced() == Some(mode),
    ensures
        start.follow(seen.push(Event::Signal(signal)).push(Event::Done)) == Listener::<
            C,
        >::Listening,
        start.answered(seen.push(Event::Signal(signal)).push(Event::Done)) == start.answered(
            seen,
        ).push(Command::Poll).push(Command::Deliver(mode)),
{
    one_more_event(start, seen, Event::Signal(signal));
    one_more_event(start, seen.push(Event::Signal(signal)), Event::Done);
}

/// A poll that fails does not end the listening: a change that arrives with
/// the next poll is delivered all the same.
pub proof fn failed_poll_does_not_end_listening<C>(
    start: Listener<C>,
    seen: Seq<Event<C>>,
    cause: C,
    signal: SettingChanged,
    mode: Mode,
)
    requires
        start.follow(seen) == Listener::<C>::Listening,
        signal.announced() == Some(mode),
    ensures
        start.follow(seen.push(Event::Failed(cause))) == Listener::<C>::Listening,
        start.follow(
            seen.push(Event::Failed(cause)).push(Event::Signal(signal)).push(Event::Done),
        ) == Listener::<C>::Listening,
        start.answered(
            seen.push(Event::Failed(cause)).push(Event::Signal(signal)).push(Event::Done),
        ) == start.answered(seen).push(Command::Poll).push(Command::Poll).push(
            Command::Deliver(mode),
        ),
{
    quiet_poll_keeps_listening(start, seen, Event::Failed(cause));
    change_is_delivered_once(start, seen.push(Event::Failed(cause)), signal, mode);
}

/// While listening, the subscriber is called once for every poll that
/// announces a mode, with that mode and in the order of the polls, and for
/// nothing else; and the listener goes on listening whatever the polls
/// bring.
pub proof fn listening_delivers_changes_in_order<C>(polls: Seq<Event<C>>)
    ensures
        Listener::<C>::Listening.follow(heard(polls)) == Listener::<C>::Listening,
        deliveries(Listener::<C>::Listening.answered(heard(polls))) == announced_by(polls),
    decreases polls.len(),
{
    let start = Listener::<C>::Listening;
    if polls.len() > 0 {
        let earlier = heard(polls.drop_last());
        let last = polls.last();
        listening_delivers_changes_in_order(polls.drop_last());
        match last.announced() {
            Some(mode) => {
                change_is_delivered_once(start, earlier, last->Signal_0, mode);
                one_more_command(start.answered(earlier), Command::Poll);
                one_more_command(
                    start.answered(earlier).push(Command::Poll),
                    Command::Deliver(mode),
                );
            },
            None => {
                quiet_poll_keeps_listening(start, earlier, last);
                one_more_command(start.answered(earlier), Command::Poll);
            },
        }
    }
}

/// Over the whole life of a subscription that could be set up, the
/// subscriber hears the current value first and then every announced change,
/// each once and in the order of arrival.
pub proof fn subscriber_hears_current_value_then_changes<C>(mode: Mode, polls: Seq<Event<C>>)
    ensures
        ({
            let start = Listener::<C>::starting(Ok(mode));
            let events = setting_up::<C>(Ok(()), Ok(())) + heard(polls);
            &&& start.follow(events) == Listener::<C>::Listening
            &&& deliveries(start.answered(events)) == seq![mode] + announced_by(polls)
        }),
{
    let start = Listener::<C>::starting(Ok(mode));
    let first = setting_up::<C>(Ok(()), Ok(()));
    setting_up_delivers_once::<C>(mode, Ok(()), Ok(()));
    listening_delivers_changes_in_order(polls);
    follow_splits(start, first, heard(polls));
    deliveries_split(start.answered(first), Listener::<C>::Listening.answered(heard(polls)));
}

} // verus!
