//! The decisions of the backend worker.
//!
//! The worker owns the backend. It takes requests from the connections,
//! asks the backend for the leaderboard of each, keeps the requests whose
//! leaderboard was found in a queue until its next pass, and then answers
//! them or asks the backend for their rows. What the backend is asked is
//! done elsewhere; this module decides, from a request and what the
//! backend answered, what is asked next and what is sent to whom.
//!
//! A request carries the destination of its reply. Every step hands the
//! destination on or uses it for one reply, so a request is answered at
//! most once, and never with the reply of another.

use vstd::prelude::*;
use vstd::string::*;
use crate::command::{Command, CommandView};
use crate::text::chars_of;
use crate::xml::{entries_document, error_document, info_document};
use crate::xml::{get_error, render_entries, render_info, Entry, LeaderboardRef};

verus! {

/// The time between two passes of the worker, in milliseconds.
pub const TICK_MILLIS: u64 = 50;

/// The first rank that is asked for when rows are downloaded.
pub const DOWNLOAD_START: usize = 0;

/// The last rank that is asked for when rows are downloaded.
pub const DOWNLOAD_END: usize = 9999;

/// The most stored numbers that are asked for with each row.
pub const DOWNLOAD_MAX_DETAILS: usize = 1024;

/// A failure of the backend, of whatever kind.
#[derive(Clone, Copy, Debug, PartialEq, Eq)]
pub struct BackendError {}

/// One row of a leaderboard as the backend delivers it, with as many
/// stored numbers as it has.
#[derive(Clone, Debug, PartialEq, Eq)]
pub struct Row {
    /// The identifier of the player.
    pub user: u64,
    /// The score of the row.
    pub score: i32,
    /// The rank of the row among all rows.
    pub global_rank: i32,
    /// The numbers that were stored with the score.
    pub details: Vec<i32>,
}

/// A request on its way: the command, and where its reply goes.
#[derive(Debug)]
pub struct Handle<R> {
    /// The destination of the reply, bound to the connection that asked.
    pub response_tx: R,
    /// What was asked.
    pub command: Command,
}

/// A request whose leaderboard was found, waiting for the next pass.
#[derive(Debug)]
pub struct LeaderboardResult<R> {
    /// The request.
    pub handle: Handle<R>,
    /// The leaderboard of its key.
    pub leaderboard: LeaderboardRef,
}

/// A reply and where it goes.
#[derive(Debug)]
pub struct Delivery<R> {
    /// The destination.
    pub to: R,
    /// The text of the reply.
    pub reply: String,
}

/// What is done with a request that was taken from the connections.
#[derive(Debug)]
pub enum Accepted<R> {
    /// The backend is asked for the leaderboard of this name; the request
    /// goes with the question and comes back with the answer.
    Resolve { name: String, handle: Handle<R> },
    /// The request is answered at once.
    Deliver(Delivery<R>),
}

/// Whose rows of a leaderboard are asked for.
#[derive(Clone, Copy, Debug, PartialEq, Eq, Structural)]
pub enum Scope {
    /// The rows of all players, by rank.
    Global,
    /// The rows of all players, by rank relative to the current player.
    GlobalAroundUser,
    /// The rows of the friends of the current player.
    Friends,
}

/// Which rows of a leaderboard are asked for.
#[derive(Clone, Copy, Debug, PartialEq, Eq)]
pub struct DownloadRequest {
    /// The leaderboard.
    pub leaderboard: LeaderboardRef,
    /// Whose rows.
    pub scope: Scope,
    /// The first rank.
    pub start: usize,
    /// The last rank.
    pub end: usize,
    /// The most stored numbers with each row.
    pub max_details: usize,
}

/// A fetch request while its rows are downloaded: where the reply goes, and
/// what it will say of the leaderboard besides the rows.
#[derive(Debug)]
pub struct FetchContext<R> {
    /// The destination of the reply.
    pub to: R,
    /// The leaderboard.
    pub leaderboard: LeaderboardRef,
    /// The name of the leaderboard.
    pub name: String,
    /// The number of rows of the leaderboard.
    pub count: i32,
}

/// What is done with a request whose leaderboard was found.
#[derive(Debug)]
pub enum Dispatched<R> {
    /// The request is answered.
    Deliver(Delivery<R>),
    /// The backend is asked for rows of all players; the context goes with
    /// the question and comes back with the answer.
    Download { request: DownloadRequest, context: FetchContext<R> },
}

/// The message of the reply to a request whose leaderboard does not exist.
pub open spec fn not_found_message() -> Seq<char> {
    "Leaderboard NOT FOUND"@
}

/// The message of the reply to a request on which the backend failed.
pub open spec fn unavailable_message() -> Seq<char> {
    "Leaderboard UNAVAILABLE"@
}

/// What follows the key in the name of its leaderboard.
pub open spec fn daily_suffix() -> Seq<char> {
    " DAILY"@
}

/// The name of the leaderboard of a key.
pub open spec fn lookup_name(key: Seq<char>) -> Seq<char> {
    key + daily_suffix()
}

/// Whether the backend can be asked for a name: it takes none that holds
/// the character zero.
pub open spec fn backend_takes(name: Seq<char>) -> bool {
    !name.contains('\0')
}

/// Whether a text is one of the documents that clients understand.
pub open spec fn is_document(text: Seq<char>) -> bool {
    ||| exists|msg: Seq<char>| text == error_document(msg)
    ||| exists|leaderboard: LeaderboardRef, name: Seq<char>, count: int|
        text == info_document(leaderboard, name, count)
    ||| exists|leaderboard: LeaderboardRef, name: Seq<char>, count: int, entries: Seq<Entry>|
        text == entries_document(leaderboard, name, count, entries)
}

/// The reply to a request that is taken from the connections, where it
/// is answered at once: the backend cannot be asked for the name of its
/// leaderboard, so no such leaderboard exists.
pub open spec fn reply_on_accept(command: CommandView) -> Option<Seq<char>> {
    if backend_takes(lookup_name(command.key())) {
        None
    } else {
        Some(error_document(not_found_message()))
    }
}

/// The reply to a request when the backend has answered the question for
/// its leaderboard, where it is answered then: the leaderboard does not
/// exist, or the backend failed.
pub open spec fn reply_on_resolution(found: Result<Option<LeaderboardRef>, BackendError>) -> Option<
    Seq<char>,
> {
    match found {
        Ok(Some(_)) => None,
        Ok(None) => Some(error_document(not_found_message())),
        Err(_) => Some(error_document(unavailable_message())),
    }
}

/// The reply to a request whose leaderboard was found, where it is
/// answered without rows: it asks for the description.
pub open spec fn reply_on_dispatch(
    command: CommandView,
    leaderboard: LeaderboardRef,
    name: Seq<char>,
    count: int,
) -> Option<Seq<char>> {
    match command {
        CommandView::Info(_) => Some(info_document(leaderboard, name, count)),
        CommandView::Fetch(_) => None,
    }
}

/// The reply to a request when the backend has answered the question for
/// the rows.
pub open spec fn reply_on_download(
    leaderboard: LeaderboardRef,
    name: Seq<char>,
    count: int,
    rows: Result<Seq<Entry>, BackendError>,
) -> Seq<char> {
    match rows {
        Ok(entries) => entries_document(leaderboard, name, count, entries),
        Err(_) => error_document(unavailable_message()),
    }
}

/// The rows of an answer of the backend, as contracts see them.
pub open spec fn rows_view(rows: Result<Vec<Entry>, BackendError>) -> Result<
    Seq<Entry>,
    BackendError,
> {
    match rows {
        Ok(entries) => Ok(entries@),
        Err(e) => Err(e),
    }
}

/// The one reply that a request gets, given its command and what the
/// backend answers to each question that is put to it for this request:
/// for the leaderboard of the name, for its name and the number of its
/// rows, and for the rows. It is the reply of the first step that
/// answers; an answer of the backend that is never asked for does not
/// count.
pub open spec fn reply_text(
    command: CommandView,
    found: Result<Option<LeaderboardRef>, BackendError>,
    name: Seq<char>,
    count: int,
    rows: Result<Seq<Entry>, BackendError>,
) -> Seq<char> {
    if let Some(text) = reply_on_accept(command) {
        text
    } else if let Some(text) = reply_on_resolution(found) {
        text
    } else if let Some(text) = reply_on_dispatch(command, found->Ok_0->0, name, count) {
        text
    } else {
        reply_on_download(found->Ok_0->0, name, count, rows)
    }
}

/// Every reply is one of the documents that clients understand, whatever
/// was asked and whatever the backend answered; and so is the reply of
/// each step that answers.
pub proof fn lemma_reply_is_document(
    command: CommandView,
    found: Result<Option<LeaderboardRef>, BackendError>,
    leaderboard: LeaderboardRef,
    name: Seq<char>,
    count: int,
    rows: Result<Seq<Entry>, BackendError>,
)
    ensures
        is_document(reply_text(command, found, name, count, rows)),
        reply_on_accept(command) matches Some(text) ==> is_document(text),
        reply_on_resolution(found) matches Some(text) ==> is_document(text),
        reply_on_dispatch(command, leaderboard, name, count) matches Some(text) ==> is_document(
            text,
        ),
        is_document(reply_on_download(leaderboard, name, count, rows)),
{
}

/// Where the leaderboard of a request does not exist, the reply is the
/// document that reports a failure, with the message that says so.
pub proof fn lemma_not_found_is_reported(
    command: CommandView,
    name: Seq<char>,
    count: int,
    rows: Result<Seq<Entry>, BackendError>,
)
    ensures
        reply_text(command, Ok(None), name, count, rows) == error_document(not_found_message()),
{
}

/// Where the backend fails to deliver the rows of a leaderboard that it
/// found, the request is still answered, with the document that reports
/// a failure.
pub proof fn lemma_failed_download_is_reported(
    key: Seq<char>,
    leaderboard: LeaderboardRef,
    name: Seq<char>,
    count: int,
    e: BackendError,
)
    requires
        backend_takes(lookup_name(key)),
    ensures
        reply_text(CommandView::Fetch(key), Ok(Some(leaderboard)), name, count, Err(e))
            == error_document(unavailable_message()),
{
}

/// An info request whose leaderboard was found is answered with the
/// description of that leaderboard, whatever the key is.
pub proof fn lemma_info_reply_describes_its_leaderboard(
    key: Seq<char>,
    leaderboard: LeaderboardRef,
    name: Seq<char>,
    count: int,
    rows: Result<Seq<Entry>, BackendError>,
)
    requires
        backend_takes(lookup_name(key)),
    ensures
        reply_text(CommandView::Info(key), Ok(Some(leaderboard)), name, count, rows)
            == info_document(leaderboard, name, count),
{
}

/// Whether `e` is the row `row` with the first two of its stored numbers.
pub open spec fn is_entry_of(e: Entry, row: Row) -> bool {
    &&& e.user == row.user
    &&& e.score == row.score
    &&& e.global_rank == row.global_rank
    &&& row.details@.len() >= 2
    &&& e.details@ == row.details@.take(2)
}

/// The row with the first two of its stored numbers, which are what a
/// document shows of them. A row with fewer has no place in a document.
pub fn entry_of(row: &Row) -> (r: Option<Entry>)
    ensures
        r is Some <==> row.details@.len() >= 2,
        r matches Some(e) ==> is_entry_of(e, *row),
{
    if row.details.len() < 2 {
        return None;
    }
    let e = Entry {
        user: row.user,
        score: row.score,
        global_rank: row.global_rank,
        details: [row.details[0], row.details[1]],
    };
    assert(e.details@ =~= row.details@.take(2));
    Some(e)
}

/// The rows of an answer of the backend, each with the first two of its
/// stored numbers, in their order. Where a row has fewer than two, the
/// answer cannot be shown and counts as a failure of the backend.
pub fn entries_of(rows: &Vec<Row>) -> (r: Result<Vec<Entry>, BackendError>)
    ensures
        r is Ok <==> forall|i: int| 0 <= i < rows@.len() ==> rows[i].details@.len() >= 2,
        r matches Ok(entries) ==> entries@.len() == rows@.len() && forall|i: int|
            0 <= i < rows@.len() ==> is_entry_of(#[trigger] entries[i], rows[i]),
{
    let mut entries: Vec<Entry> = Vec::new();
    let mut i: usize = 0;
    while i < rows.len()
        invariant
            i <= rows.len(),
            entries@.len() == i,
            forall|j: int| 0 <= j < i ==> rows[j].details@.len() >= 2,
            forall|j: int| 0 <= j < i ==> is_entry_of(#[trigger] entries[j], rows[j]),
        decreases rows.len() - i,
    {
        match entry_of(&rows[i]) {
            Some(e) => entries.push(e),
            None => {
                return Err(BackendError {});
            },
        }
        i = i + 1;
    }
    Ok(entries)
}

/// The name of the leaderboard of a key: the key, a space, and `DAILY`.
pub fn leaderboard_name(key: &str) -> (name: String)
    ensures
        name@ == lookup_name(key@),
{
    let mut name = key.to_owned();
    name.append(" DAILY");
    name
}

/// Tells whether the backend can be asked for a name.
pub fn backend_accepts(name: &str) -> (b: bool)
    ensures
        b == backend_takes(name@),
{
    let chars = chars_of(name);
    let mut i: usize = 0;
    while i < chars.len()
        invariant
            i <= chars.len(),
            chars@ == name@,
            forall|j: int| 0 <= j < i ==> chars[j] != '\0',
        decreases chars.len() - i,
    {
        if chars[i] == '\0' {
            return false;
        }
        i = i + 1;
    }
    true
}

/// What the worker does in one pass, in this order.
#[derive(Clone, Copy, Debug, PartialEq, Eq, Structural)]
pub enum Phase {
    /// Take every request that the connections have handed over, and ask
    /// the backend for the leaderboard of each.
    Intake,
    /// Take every request that waits in the queue, and answer it or ask
    /// the backend for its rows.
    Dispatch,
    /// Let the backend report what it has finished; a request whose
    /// leaderboard was found joins the queue, for the next pass.
    Pump,
    /// Sleep until the next pass is due.
    Rest,
}

impl Phase {
    /// The phase that follows `self`.
    pub open spec fn spec_next(self) -> Phase {
        match self {
            Phase::Intake => Phase::Dispatch,
            Phase::Dispatch => Phase::Pump,
            Phase::Pump => Phase::Rest,
            Phase::Rest => Phase::Intake,
        }
    }

    /// The phase that a pass begins with.
    pub fn first() -> (p: Phase)
        ensures
            p == Phase::Intake,
    {
        Phase::Intake
    }

    /// The phase that follows `self`; after the rest the next pass begins.
    #[verifier::when_used_as_spec(spec_next)]
    pub fn next(self) -> (p: Phase)
        ensures
            p == self.spec_next(),
    {
        match self {
            Phase::Intake => Phase::Dispatch,
            Phase::Dispatch => Phase::Pump,
            Phase::Pump => Phase::Rest,
            Phase::Rest => Phase::Intake,
        }
    }
}

/// A pass has four phases: from any phase the fourth step leads back to
/// it, and no earlier one does.
pub proof fn lemma_pass_has_four_phases(p: Phase)
    ensures
        p.next() != p,
        p.next().next() != p,
        p.next().next().next() != p,
        p.next().next().next().next() == p,
{
}

/// The worker's queue of requests whose leaderboard was found. It is seen
/// in contracts as the sequence of those requests, the oldest first.
pub struct Worker<R> {
    pending: Vec<LeaderboardResult<R>>,
}

impl<R> View for Worker<R> {
    type V = Seq<LeaderboardResult<R>>;

    closed spec fn view(&self) -> Seq<LeaderboardResult<R>> {
        self.pending@
    }
}

impl<R> Worker<R> {
    /// A worker with nothing waiting.
    pub fn new() -> (w: Worker<R>)
        ensures
            w@ == Seq::<LeaderboardResult<R>>::empty(),
    {
        Worker { pending: Vec::new() }
    }

    /// The number of requests that wait for the next pass.
    pub fn pending_len(&self) -> (n: usize)
        ensures
            n == self@.len(),
    {
        self.pending.len()
    }

    /// Decides what is done with a request that was taken from the
    /// connections. The backend is asked for the leaderboard named by the
    /// key, a space and `DAILY`. Where it cannot be asked for that name,
    /// no such leaderboard exists, and the request is answered so.
    pub fn accept(handle: Handle<R>) -> (r: Accepted<R>)
        ensures
            match reply_on_accept(handle.command@) {
                None => r matches Accepted::Resolve { name, handle: h } && name@ == lookup_name(
                    handle.command@.key(),
                ) && h == handle,
                Some(text) => r matches Accepted::Deliver(d) && d.to == handle.response_tx
                    && d.reply@ == text,
            },
    {
        let name = leaderboard_name(handle.command.key());
        if backend_accepts(name.as_str()) {
            Accepted::Resolve { name, handle }
        } else {
            Accepted::Deliver(
                Delivery { to: handle.response_tx, reply: get_error("Leaderboard NOT FOUND") },
            )
        }
    }

    /// Takes the backend's answer to the question for a leaderboard. A
    /// request whose leaderboard was found joins the end of the queue and
    /// gets no reply yet. One whose leaderboard does not exist, or on which
    /// the backend failed, is answered with the document that reports it,
    /// and the queue stays as it is.
    pub fn resolved(
        &mut self,
        handle: Handle<R>,
        found: Result<Option<LeaderboardRef>, BackendError>,
    ) -> (r: Option<Delivery<R>>)
        ensures
            match reply_on_resolution(found) {
                None => r is None && final(self)@ == old(self)@.push(
                    LeaderboardResult { handle, leaderboard: found->Ok_0->0 },
                ),
                Some(text) => r matches Some(d) && d.to == handle.response_tx && d.reply@ == text
                    && final(self)@ == old(self)@,
            },
    {
        match found {
            Ok(Some(leaderboard)) => {
                self.pending.push(LeaderboardResult { handle, leaderboard });
                None
            },
            Ok(None) => Some(
                Delivery { to: handle.response_tx, reply: get_error("Leaderboard NOT FOUND") },
            ),
            Err(_) => Some(
                Delivery { to: handle.response_tx, reply: get_error("Leaderboard UNAVAILABLE") },
            ),
        }
    }

    /// Hands out the requests that wait, the oldest first, and leaves the
    /// queue empty.
    pub fn take_pending(&mut self) -> (batch: Vec<LeaderboardResult<R>>)
        ensures
            batch@ == old(self)@,
            final(self)@ == Seq::<LeaderboardResult<R>>::empty(),
    {
        let mut batch: Vec<LeaderboardResult<R>> = Vec::new();
        core::mem::swap(&mut self.pending, &mut batch);
        batch
    }

    /// Decides what is done with a request whose leaderboard was found,
    /// given the name of the leaderboard and the number of its rows. An
    /// info request is answered with the description of the leaderboard.
    /// For a fetch request the backend is asked for the rows of all
    /// players, from the first rank to the last rank served, each with
    /// its stored numbers up to the most that are taken.
    pub fn dispatch(result: LeaderboardResult<R>, name: String, count: i32) -> (r: Dispatched<R>)
        ensures
            match reply_on_dispatch(
                result.handle.command@,
                result.leaderboard,
                name@,
                count as int,
            ) {
                Some(text) => r matches Dispatched::Deliver(d) && d.to
                    == result.handle.response_tx && d.reply@ == text,
                None => r matches Dispatched::Download { request, context } && request == (
                DownloadRequest {
                    leaderboard: result.leaderboard,
                    scope: Scope::Global,
                    start: DOWNLOAD_START,
                    end: DOWNLOAD_END,
                    max_details: DOWNLOAD_MAX_DETAILS,
                }) && context == (FetchContext {
                    to: result.handle.response_tx,
                    leaderboard: result.leaderboard,
                    name,
                    count,
                }),
            },
    {
        let LeaderboardResult { handle, leaderboard } = result;
        let Handle { response_tx, command } = handle;
        match command {
            Command::Info(_) => Dispatched::Deliver(
                Delivery { to: response_tx, reply: render_info(leaderboard, name.as_str(), count) },
            ),
            Command::Fetch(_) => Dispatched::Download {
                request: DownloadRequest {
                    leaderboard,
                    scope: Scope::Global,
                    start: DOWNLOAD_START,
                    end: DOWNLOAD_END,
                    max_details: DOWNLOAD_MAX_DETAILS,
                },
                context: FetchContext { to: response_tx, leaderboard, name, count },
            },
        }
    }

    /// Takes the backend's answer to the question for rows, and answers
    /// the request: with the rows, or, where the backend failed, with the
    /// document that reports it.
    pub fn downloaded(context: FetchContext<R>, rows: Result<Vec<Entry>, BackendError>) -> (d:
        Delivery<R>)
        ensures
            d.to == context.to,
            d.reply@ == reply_on_download(
                context.leaderboard,
                context.name@,
                context.count as int,
                rows_view(rows),
            ),
    {
        let FetchContext { to, leaderboard, name, count } = context;
        match rows {
            Ok(entries) => Delivery {
                to,
                reply: render_entries(leaderboard, name.as_str(), count, &entries),
            },
            Err(_) => Delivery { to, reply: get_error("Leaderboard UNAVAILABLE") },
        }
    }
}

} // verus!
