//! The decisions of a connection.
//!
//! A connection reads one line. A line that is no command is refused in
//! plain text and the connection closes. A command is handed to the
//! worker, and the connection waits for its reply, writes it and closes.
//! Where the reply never comes, because its source is gone or the wait
//! took too long, the connection closes with nothing written.
//!
//! Reading, waiting and writing are done elsewhere. This module says, for
//! the state of a connection and what happened to it, what state follows
//! and what is to be done.

use vstd::prelude::*;
use vstd::string::*;
use crate::command::{fetch_verb, info_verb, parse, tokens, without_line_ending};
use crate::command::{lemma_two_tokens, Command, CommandView};

verus! {

/// The longest that a connection waits for its reply, in milliseconds.
pub const REPLY_TIMEOUT_MILLIS: u64 = 30000;

/// Where a connection stands.
#[derive(Clone, Copy, Debug, PartialEq, Eq, Structural)]
pub enum Connection {
    /// The line has not been read yet.
    Reading,
    /// The command is with the worker and the reply is awaited.
    Waiting,
    /// Nothing more is read or written.
    Closed,
}

/// What happened to a connection.
#[derive(Debug)]
pub enum Event {
    /// The line was read: this is it, with its line ending if it had one.
    /// Where the client sent nothing before it left, the line is empty.
    Line(String),
    /// The reply came.
    Reply(String),
    /// The source of the reply is gone and no reply will come.
    ReplyLost,
    /// The wait for the reply took too long.
    TimedOut,
}

/// What a connection is to do.
#[derive(Debug)]
pub enum Action {
    /// Hand the command to the worker and wait for its reply.
    Submit(Command),
    /// Write the text and close.
    Write(String),
    /// Close with nothing written.
    Close,
    /// Do nothing.
    Ignore,
}

/// What an [`Event`] is in contracts.
pub enum EventView {
    Line(Seq<char>),
    Reply(Seq<char>),
    ReplyLost,
    TimedOut,
}

/// What an [`Action`] is in contracts.
pub enum ActionView {
    Submit(CommandView),
    Write(Seq<char>),
    Close,
    Ignore,
}

impl View for Event {
    type V = EventView;

    open spec fn view(&self) -> EventView {
        match self {
            Event::Line(line) => EventView::Line(line@),
            Event::Reply(text) => EventView::Reply(text@),
            Event::ReplyLost => EventView::ReplyLost,
            Event::TimedOut => EventView::TimedOut,
        }
    }
}

impl View for Action {
    type V = ActionView;

    open spec fn view(&self) -> ActionView {
        match self {
            Action::Submit(command) => ActionView::Submit(command@),
            Action::Write(text) => ActionView::Write(text@),
            Action::Close => ActionView::Close,
            Action::Ignore => ActionView::Ignore,
        }
    }
}

/// The text that refuses a line.
pub open spec fn refusal() -> Seq<char> {
    "Invalid Command!"@
}

/// The state that follows and what is to be done, for a state and what
/// happened. The line is parsed without its line ending. What a state
/// does not await changes nothing.
pub open spec fn transition(state: Connection, event: EventView) -> (Connection, ActionView) {
    match (state, event) {
        (Connection::Reading, EventView::Line(line)) => match parse(without_line_ending(line)) {
            Some(command) => (Connection::Waiting, ActionView::Submit(command)),
            None => (Connection::Closed, ActionView::Write(refusal())),
        },
        (Connection::Waiting, EventView::Reply(text)) => (
            Connection::Closed,
            ActionView::Write(text),
        ),
        (Connection::Waiting, EventView::ReplyLost) => (Connection::Closed, ActionView::Close),
        (Connection::Waiting, EventView::TimedOut) => (Connection::Closed, ActionView::Close),
        _ => (state, ActionView::Ignore),
    }
}

/// How many texts are written when the events happen in turn to a
/// connection in the given state.
pub open spec fn writes(state: Connection, events: Seq<EventView>) -> nat
    decreases events.len(),
{
    if events.len() == 0 {
        0
    } else {
        let (next, action) = transition(state, events[0]);
        let rest = writes(next, events.drop_first());
        if action is Write {
            rest + 1
        } else {
            rest
        }
    }
}

/// How many commands are handed to the worker when the events happen in
/// turn to a connection in the given state.
pub open spec fn submissions(state: Connection, events: Seq<EventView>) -> nat
    decreases events.len(),
{
    if events.len() == 0 {
        0
    } else {
        let (next, action) = transition(state, events[0]);
        let rest = submissions(next, events.drop_first());
        if action is Submit {
            rest + 1
        } else {
            rest
        }
    }
}

/// Decides what a connection does next.
pub fn step(state: Connection, event: Event) -> (r: (Connection, Action))
    ensures
        (r.0, r.1@) == transition(state, event@),
{
    match state {
        Connection::Reading => match event {
            Event::Line(line) => match Command::from_string(line.as_str()) {
                Some(command) => (Connection::Waiting, Action::Submit(command)),
                None => (Connection::Closed, Action::Write("Invalid Command!".to_owned())),
            },
            _ => (state, Action::Ignore),
        },
        Connection::Waiting => match event {
            Event::Reply(text) => (Connection::Closed, Action::Write(text)),
            Event::ReplyLost => (Connection::Closed, Action::Close),
            Event::TimedOut => (Connection::Closed, Action::Close),
            Event::Line(_) => (state, Action::Ignore),
        },
        Connection::Closed => (state, Action::Ignore),
    }
}

/// A line that has not exactly two tokens, or whose first token is no
/// verb, is refused with the plain text, and the connection closes.
pub proof fn lemma_malformed_line_is_refused(line: Seq<char>)
    requires
        ({
            let t = tokens(without_line_ending(line));
            t.len() != 2 || (t[0] != fetch_verb() && t[0] != info_verb())
        }),
    ensures
        transition(Connection::Reading, EventView::Line(line)) == (
            Connection::Closed,
            ActionView::Write(refusal()),
        ),
{
}

/// The empty line is refused, with or without a line ending.
pub proof fn lemma_blank_line_is_refused(line: Seq<char>)
    requires
        without_line_ending(line).len() == 0,
    ensures
        transition(Connection::Reading, EventView::Line(line)) == (
            Connection::Closed,
            ActionView::Write(refusal()),
        ),
{
    lemma_two_tokens(without_line_ending(line));
}

/// A line that is a command is handed to the worker and nothing is
/// written yet.
pub proof fn lemma_command_is_submitted(line: Seq<char>)
    requires
        parse(without_line_ending(line)) is Some,
    ensures
        transition(Connection::Reading, EventView::Line(line)) == (
            Connection::Waiting,
            ActionView::Submit(parse(without_line_ending(line))->0),
        ),
{
}

/// A closed connection stays closed and does nothing, whatever happens.
pub proof fn lemma_closed_is_final(event: EventView)
    ensures
        transition(Connection::Closed, event) == (Connection::Closed, ActionView::Ignore),
{
}

/// Whatever happens to a connection and in whatever order, it writes at
/// most one text and hands at most one command to the worker; once it
/// waits it hands over none, and once it is closed it writes none.
pub proof fn lemma_at_most_one_reply(state: Connection, events: Seq<EventView>)
    ensures
        writes(state, events) <= 1,
        submissions(state, events) <= 1,
        state is Closed ==> writes(state, events) == 0,
        !(state is Reading) ==> submissions(state, events) == 0,
    decreases events.len(),
{
    if events.len() > 0 {
        let (next, action) = transition(state, events[0]);
        lemma_at_most_one_reply(next, events.drop_first());
    }
}

/// A connection that waits writes the reply that comes, as it stands, and
/// nothing after it.
pub proof fn lemma_reply_is_written_once(text: Seq<char>, later: Seq<EventView>)
    ensures
        transition(Connection::Waiting, EventView::Reply(text)) == (
            Connection::Closed,
            ActionView::Write(text),
        ),
        writes(Connection::Waiting, seq![EventView::Reply(text)] + later) == 1,
{
    let events = seq![EventView::Reply(text)] + later;
    assert(events[0] == EventView::Reply(text));
    assert(events.drop_first() =~= later);
    lemma_at_most_one_reply(Connection::Closed, later);
}

} // verus!
