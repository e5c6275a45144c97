//! Commands of the line protocol and their parser.
//!
//! A request is one line of text, a verb and a key separated by a single
//! space. The parser is stated over the characters of the line: the line is
//! cut at every space into tokens, and a command is a line of exactly two
//! tokens whose first is a known verb.

use vstd::prelude::*;
use vstd::string::*;
use crate::text::chars_of;

verus! {

/// A request of a client: what to look up, and for which key.
#[derive(Debug, PartialEq, Eq)]
pub enum Command {
    /// Asks for the rows of the leaderboard of the key.
    Fetch(String),
    /// Asks for the description of the leaderboard of the key.
    Info(String),
}

/// What a [`Command`] is in contracts: the same tag over the characters of the key.
pub enum CommandView {
    Fetch(Seq<char>),
    Info(Seq<char>),
}

impl CommandView {
    /// The key that the command carries.
    pub open spec fn key(self) -> Seq<char> {
        match self {
            CommandView::Fetch(k) => k,
            CommandView::Info(k) => k,
        }
    }
}

impl View for Command {
    type V = CommandView;

    open spec fn view(&self) -> CommandView {
        match self {
            Command::Fetch(k) => CommandView::Fetch(k@),
            Command::Info(k) => CommandView::Info(k@),
        }
    }
}

/// The verb of a fetch request.
pub open spec fn fetch_verb() -> Seq<char> {
    seq!['F', 'E', 'T', 'C', 'H']
}

/// The verb of an info request.
pub open spec fn info_verb() -> Seq<char> {
    seq!['I', 'N', 'F', 'O']
}

/// `s` without its line ending: without the line feed at its end, and
/// without the carriage return before that line feed where there is one.
/// Nothing else is taken off, and a line without a line feed at its end
/// stays as it is.
pub open spec fn without_line_ending(s: Seq<char>) -> Seq<char> {
    if s.len() > 0 && s.last() == '\n' {
        let t = s.drop_last();
        if t.len() > 0 && t.last() == '\r' {
            t.drop_last()
        } else {
            t
        }
    } else {
        s
    }
}

/// What is taken off a line is its line ending and nothing else: a line
/// feed, or a carriage return and a line feed, that follows the line is
/// dropped, and a line that ends in no line feed is left as it is.
pub proof fn lemma_line_ending(s: Seq<char>)
    ensures
        without_line_ending(s + seq!['\r', '\n']) == s,
        (s.len() == 0 || s.last() != '\r') ==> without_line_ending(s.push('\n')) == s,
        (s.len() == 0 || s.last() != '\n') ==> without_line_ending(s) == s,
{
    let crlf = s + seq!['\r', '\n'];
    assert(crlf.drop_last() =~= s.push('\r'));
    assert(s.push('\r').drop_last() =~= s);
    assert(s.push('\n').drop_last() =~= s);
}

/// The position of the first space in `s`, or the length of `s` where it has none.
pub open spec fn first_space(s: Seq<char>) -> int
    decreases s.len(),
{
    if s.len() == 0 || s[0] == ' ' {
        0
    } else {
        1 + first_space(s.drop_first())
    }
}

/// The pieces that `s` falls into when it is cut at every space. There is
/// one piece more than there are spaces; a piece may be empty.
pub open spec fn tokens(s: Seq<char>) -> Seq<Seq<char>>
    decreases s.len(),
{
    let i = first_space(s);
    if 0 <= i < s.len() {
        seq![s.take(i)] + tokens(s.skip(i + 1))
    } else {
        seq![s]
    }
}

/// The command that a line stands for, if any: the line has exactly two
/// tokens, the first is a verb, the second is the key as it stands.
pub open spec fn parse(line: Seq<char>) -> Option<CommandView> {
    let t = tokens(line);
    if t.len() != 2 {
        None
    } else if t[0] == fetch_verb() {
        Some(CommandView::Fetch(t[1]))
    } else if t[0] == info_verb() {
        Some(CommandView::Info(t[1]))
    } else {
        None
    }
}

/// `first_space` is the least position that holds a space.
pub proof fn lemma_first_space(s: Seq<char>)
    ensures
        0 <= first_space(s) <= s.len(),
        forall|j: int| 0 <= j < first_space(s) ==> s[j] != ' ',
        first_space(s) < s.len() ==> s[first_space(s)] == ' ',
    decreases s.len(),
{
    if s.len() == 0 || s[0] == ' ' {
    } else {
        let r = s.drop_first();
        lemma_first_space(r);
        assert forall|j: int| 0 <= j < first_space(s) implies s[j] != ' ' by {
            if j > 0 {
                assert(s[j] == r[j - 1]);
            }
        }
        assert(first_space(s) < s.len() ==> s[first_space(s)] == r[first_space(r)]);
    }
}

/// A position with no space before it, which holds a space or is the end, is `first_space`.
pub proof fn lemma_first_space_at(s: Seq<char>, i: int)
    requires
        0 <= i <= s.len(),
        forall|j: int| 0 <= j < i ==> s[j] != ' ',
        i < s.len() ==> s[i] == ' ',
    ensures
        first_space(s) == i,
{
    lemma_first_space(s);
    let f = first_space(s);
    if f < i {
        assert(s[f] == ' ');
    } else if i < f {
        assert(s[i] == ' ');
    }
}

/// Every line has at least one token.
pub proof fn lemma_tokens_nonempty(s: Seq<char>)
    ensures
        tokens(s).len() >= 1,
    decreases s.len(),
{
    lemma_first_space(s);
    let i = first_space(s);
    if 0 <= i < s.len() {
        lemma_tokens_nonempty(s.skip(i + 1));
    }
}

/// A line has exactly two tokens if and only if it holds exactly one space,
/// and the tokens are then what stands before and after that space.
pub proof fn lemma_two_tokens(s: Seq<char>)
    ensures
        tokens(s).len() == 2 <==> (first_space(s) < s.len() && !s.skip(
            first_space(s) + 1,
        ).contains(' ')),
        tokens(s).len() == 2 ==> tokens(s)[0] == s.take(first_space(s)) && tokens(s)[1] == s.skip(
            first_space(s) + 1,
        ),
{
    lemma_first_space(s);
    let i = first_space(s);
    if i < s.len() {
        let r = s.skip(i + 1);
        lemma_first_space(r);
        let j = first_space(r);
        assert(tokens(s) == seq![s.take(i)] + tokens(r));
        if j < r.len() {
            let q = r.skip(j + 1);
            lemma_tokens_nonempty(q);
            assert(tokens(r) == seq![r.take(j)] + tokens(q));
            assert(r[j] == ' ');
            assert(r.contains(' '));
        } else {
            assert(tokens(r) == seq![r]);
            assert(!r.contains(' '));
        }
    } else {
        assert(tokens(s) == seq![s]);
    }
}

/// A fetch request is parsed to its key: the verb, one space and a key
/// without a space, which may be empty.
pub proof fn lemma_fetch_line_parses(key: Seq<char>)
    requires
        !key.contains(' '),
    ensures
        parse(fetch_verb() + seq![' '] + key) == Some(CommandView::Fetch(key)),
{
    let s = fetch_verb() + seq![' '] + key;
    assert(s[5] == ' ');
    lemma_first_space_at(s, 5);
    lemma_two_tokens(s);
    assert(s.skip(6) =~= key);
    assert(s.take(5) =~= fetch_verb());
}

/// An info request is parsed to its key: the verb, one space and a key
/// without a space, which may be empty.
pub proof fn lemma_info_line_parses(key: Seq<char>)
    requires
        !key.contains(' '),
    ensures
        parse(info_verb() + seq![' '] + key) == Some(CommandView::Info(key)),
{
    let s = info_verb() + seq![' '] + key;
    assert(s[4] == ' ');
    lemma_first_space_at(s, 4);
    lemma_two_tokens(s);
    assert(s.skip(5) =~= key);
    assert(s.take(4) =~= info_verb());
    assert(info_verb() != fetch_verb()) by {
        assert(info_verb().len() != fetch_verb().len());
    }
}

/// Only such lines are commands: a line that is parsed is a verb, one
/// space and the key, and the key holds no space.
pub proof fn lemma_parsed_line_shape(line: Seq<char>)
    requires
        parse(line) is Some,
    ensures
        !parse(line)->0.key().contains(' '),
        parse(line)->0 is Fetch ==> line == fetch_verb() + seq![' '] + parse(line)->0.key(),
        parse(line)->0 is Info ==> line == info_verb() + seq![' '] + parse(line)->0.key(),
{
    lemma_first_space(line);
    lemma_two_tokens(line);
    let i = first_space(line);
    assert(line =~= line.take(i) + seq![' '] + line.skip(i + 1));
}

/// What an optional command is in contracts.
pub open spec fn view_of(r: Option<Command>) -> Option<CommandView> {
    match r {
        Some(c) => Some(c@),
        None => None,
    }
}

/// The length of `chars` without its line ending.
fn line_len(chars: &Vec<char>) -> (n: usize)
    ensures
        n <= chars.len(),
        chars@.take(n as int) == without_line_ending(chars@),
{
    let len = chars.len();
    let n = if len > 0 && chars[len - 1] == '\n' {
        if len > 1 && chars[len - 2] == '\r' {
            len - 2
        } else {
            len - 1
        }
    } else {
        len
    };
    assert(chars@.take(n as int) =~= without_line_ending(chars@));
    n
}

/// Tells whether the first `i` characters of `chars` are the verb of a fetch request.
fn is_fetch_verb(chars: &Vec<char>, i: usize) -> (b: bool)
    requires
        i <= chars.len(),
    ensures
        b == (chars@.take(i as int) == fetch_verb()),
{
    let b = i == 5 && chars[0] == 'F' && chars[1] == 'E' && chars[2] == 'T' && chars[3] == 'C'
        && chars[4] == 'H';
    proof {
        let t = chars@.take(i as int);
        let v = fetch_verb();
        assert(v.len() == 5 && v[0] == 'F' && v[1] == 'E' && v[2] == 'T' && v[3] == 'C' && v[4]
            == 'H');
        if b {
            assert(t =~= v);
        } else if i == 5 {
            assert(t[0] == chars[0] && t[1] == chars[1] && t[2] == chars[2] && t[3] == chars[3]
                && t[4] == chars[4]);
        } else {
            assert(t.len() != v.len());
        }
    }
    b
}

/// Tells whether the first `i` characters of `chars` are the verb of an info request.
fn is_info_verb(chars: &Vec<char>, i: usize) -> (b: bool)
    requires
        i <= chars.len(),
    ensures
        b == (chars@.take(i as int) == info_verb()),
{
    let b = i == 4 && chars[0] == 'I' && chars[1] == 'N' && chars[2] == 'F' && chars[3] == 'O';
    proof {
        let t = chars@.take(i as int);
        let v = info_verb();
        assert(v.len() == 4 && v[0] == 'I' && v[1] == 'N' && v[2] == 'F' && v[3] == 'O');
        if b {
            assert(t =~= v);
        } else if i == 4 {
            assert(t[0] == chars[0] && t[1] == chars[1] && t[2] == chars[2] && t[3] == chars[3]);
        } else {
            assert(t.len() != v.len());
        }
    }
    b
}

/// The position of the first space among `chars[from..n]`, or `n` where there is none.
fn find_space(chars: &Vec<char>, from: usize, n: usize) -> (i: usize)
    requires
        from <= n <= chars.len(),
    ensures
        from <= i <= n,
        forall|j: int| from <= j < i ==> chars[j] != ' ',
        i < n ==> chars[i as int] == ' ',
{
    let mut i: usize = from;
    while i < n && chars[i] != ' '
        invariant
            from <= i <= n <= chars.len(),
            forall|j: int| from <= j < i ==> chars[j] != ' ',
        decreases n - i,
    {
        i = i + 1;
    }
    i
}

/// Parses the first `n` characters of `line`, which `chars` holds.
fn parse_prefix(line: &str, chars: &Vec<char>, n: usize) -> (r: Option<Command>)
    requires
        chars@ == line@,
        n <= chars.len(),
    ensures
        view_of(r) == parse(line@.take(n as int)),
{
    let ghost s = line@.take(n as int);
    let i = find_space(chars, 0, n);
    proof {
        lemma_first_space_at(s, i as int);
        lemma_two_tokens(s);
    }
    if i == n {
        return None;
    }
    let j = find_space(chars, i + 1, n);
    proof {
        let r = s.skip(i + 1);
        if j < n {
            assert(r[j - (i + 1)] == ' ');
            assert(r.contains(' '));
        } else {
            assert(!r.contains(' '));
        }
        assert(s.take(i as int) == chars@.take(i as int));
        assert(r == line@.subrange(i + 1, n as int));
    }
    if j < n {
        return None;
    }
    if is_fetch_verb(chars, i) {
        Some(Command::Fetch(line.substring_char(i + 1, n).to_owned()))
    } else if is_info_verb(chars, i) {
        Some(Command::Info(line.substring_char(i + 1, n).to_owned()))
    } else {
        None
    }
}

impl Command {
    /// Parses a line that has no line ending left on it.
    ///
    /// The line is cut at every space. A line of exactly two pieces whose
    /// first is `FETCH` or `INFO`, in capitals, is that command with the
    /// second piece as its key, taken as it stands (it may be empty). Any
    /// other line is no command.
    pub fn parse(line: &str) -> (r: Option<Command>)
        ensures
            view_of(r) == parse(line@),
    {
        let chars = chars_of(line);
        proof {
            assert(line@.take(chars.len() as int) == line@);
        }
        parse_prefix(line, &chars, chars.len())
    }

    /// Parses a line as it was read, with its line ending where it has
    /// one: the line feed at its end, and the carriage return before it,
    /// are dropped, and what is left is parsed as by [`Command::parse`].
    /// Blanks at the end of the line are not dropped: a blank after the
    /// verb is followed by the empty key, and a blank after the key by a
    /// third, empty piece.
    pub fn from_string(command: &str) -> (r: Option<Command>)
        ensures
            view_of(r) == parse(without_line_ending(command@)),
    {
        let chars = chars_of(command);
        let n = line_len(&chars);
        parse_prefix(command, &chars, n)
    }

    /// The key of the command.
    pub fn key(&self) -> (k: &str)
        ensures
            k@ == self@.key(),
    {
        match self {
            Command::Fetch(k) => k.as_str(),
            Command::Info(k) => k.as_str(),
        }
    }
}

} // verus!
