//! The documents that are sent back to a client.
//!
//! Each document is stated as a sequence of characters and rendered by a
//! function whose result is that sequence. Clients compare the text as it
//! stands: line breaks, indentation and the order of the elements count.
//! Names are written as the backend gave them, with nothing escaped.

use vstd::prelude::*;
use vstd::string::*;
use crate::text::{decimal, hex_byte, low_byte, signed_decimal};
use crate::text::{low_byte_of, push_decimal, push_hex_byte, push_signed_decimal};

verus! {

/// The application whose leaderboards are served.
pub const APP_ID: u64 = 239350;

/// The backend's identifier of a leaderboard.
#[derive(Clone, Copy, Debug, PartialEq, Eq)]
pub struct LeaderboardRef {
    /// The identifier as a number.
    pub raw: u64,
}

/// One row of a leaderboard.
#[derive(Clone, Copy, Debug, PartialEq, Eq)]
pub struct Entry {
    /// The identifier of the player.
    pub user: u64,
    /// The score of the row.
    pub score: i32,
    /// The rank of the row among all rows.
    pub global_rank: i32,
    /// The first two of the numbers that were stored with the score.
    pub details: [i32; 2],
}

/// The document that reports a failure, with its message.
pub open spec fn error_document(msg: Seq<char>) -> Seq<char> {
    "<response>\n <status>0</status>\n <message>"@ + msg + "</message>\n</response>\n"@
}

/// The document that describes a leaderboard: its identifier, its name
/// (also as the name shown) and the number of its rows.
pub open spec fn info_document(leaderboard: LeaderboardRef, name: Seq<char>, count: int) -> Seq<
    char,
> {
    "<leaderboard>\n <url>http://mossranking.com/xml/"@ + decimal(leaderboard.raw as nat)
        + ".xml</url>\n <lbid>"@ + decimal(leaderboard.raw as nat) + "</lbid>\n <name>"@ + name
        + "</name>\n <display_name>"@ + name + "</display_name>\n <entries>"@ + signed_decimal(
        count,
    ) + "</entries>\n <sortmethod>2</sortmethod>\n <displaytype>1</displaytype>\n</leaderboard>\n"@
}

/// The sixteen hexadecimal digits that stand for the details of a row: of
/// each of the two numbers the low byte, followed by six zeros.
pub open spec fn details_text(details: Seq<i32>) -> Seq<char>
    recommends
        details.len() == 2,
{
    hex_byte(low_byte(details[0] as int)) + "000000"@ + hex_byte(low_byte(details[1] as int))
        + "000000"@
}

/// The element that stands for one row.
pub open spec fn entry_element(e: Entry) -> Seq<char> {
    "  <entry>\n   <steamid>"@ + decimal(e.user as nat) + "</steamid>\n   <score>"@
        + signed_decimal(e.score as int) + "</score>\n   <rank>"@ + signed_decimal(
        e.global_rank as int,
    ) + "</rank>\n   <ugcid>-1</ugcid>\n   <details>"@ + details_text(e.details@)
        + "</details>\n  </entry>\n"@
}

/// The elements of the rows, one after the other, in the order of the rows.
pub open spec fn entry_elements(entries: Seq<Entry>) -> Seq<char>
    decreases entries.len(),
{
    if entries.len() == 0 {
        Seq::empty()
    } else {
        entry_elements(entries.drop_last()) + entry_element(entries.last())
    }
}

/// What stands before the rows in the document that lists them.
pub open spec fn entries_head(leaderboard: LeaderboardRef, name: Seq<char>, count: int) -> Seq<
    char,
> {
    "<response>\n<appID>"@ + decimal(APP_ID as nat) + "</appID>\n<leaderboardID>"@ + decimal(
        leaderboard.raw as nat,
    ) + "</leaderboardID>\n<name>"@ + name + "</name>\n<entryStart>0</entryStart>\n<entryEnd>"@
        + signed_decimal(count) + "</entryEnd>\n<resultCount>"@ + signed_decimal(count)
        + "</resultCount>\n <entries>\n"@
}

/// The document that lists the rows of a leaderboard. The number of rows
/// of the whole leaderboard stands both as the end of the range and as the
/// number of results.
pub open spec fn entries_document(
    leaderboard: LeaderboardRef,
    name: Seq<char>,
    count: int,
    entries: Seq<Entry>,
) -> Seq<char> {
    entries_head(leaderboard, name, count) + entry_elements(entries)
        + " </entries>\n</response>\n"@
}

/// Renders the document that reports a failure.
pub fn get_error(msg: &str) -> (response: String)
    ensures
        response@ == error_document(msg@),
{
    let mut response = String::new();
    response.append("<response>\n <status>0</status>\n <message>");
    response.append(msg);
    response.append("</message>\n</response>\n");
    assert(response@ =~= error_document(msg@));
    response
}

/// Renders the document that describes a leaderboard.
pub fn render_info(leaderboard: LeaderboardRef, name: &str, count: i32) -> (response: String)
    ensures
        response@ == info_document(leaderboard, name@, count as int),
{
    let mut response = String::new();
    response.append("<leaderboard>\n <url>http://mossranking.com/xml/");
    push_decimal(&mut response, leaderboard.raw);
    response.append(".xml</url>\n <lbid>");
    push_decimal(&mut response, leaderboard.raw);
    response.append("</lbid>\n <name>");
    response.append(name);
    response.append("</name>\n <display_name>");
    response.append(name);
    response.append("</display_name>\n <entries>");
    push_signed_decimal(&mut response, count);
    response.append(
        "</entries>\n <sortmethod>2</sortmethod>\n <displaytype>1</displaytype>\n</leaderboard>\n",
    );
    assert(response@ =~= info_document(leaderboard, name@, count as int));
    response
}

/// Appends the digits that stand for the details of a row.
fn push_details(out: &mut String, details: &[i32; 2])
    ensures
        final(out)@ == old(out)@ + details_text(details@),
{
    push_hex_byte(out, low_byte_of(details[0]));
    out.append("000000");
    push_hex_byte(out, low_byte_of(details[1]));
    out.append("000000");
    assert(final(out)@ =~= old(out)@ + details_text(details@));
}

/// Renders the digits that stand for the details of a row.
pub fn render_details(details: &[i32; 2]) -> (text: String)
    ensures
        text@ == details_text(details@),
{
    let mut text = String::new();
    push_details(&mut text, details);
    assert(text@ =~= details_text(details@));
    text
}

/// Appends the element that stands for one row.
fn push_entry(out: &mut String, e: &Entry)
    ensures
        final(out)@ == old(out)@ + entry_element(*e),
{
    out.append("  <entry>\n   <steamid>");
    push_decimal(out, e.user);
    out.append("</steamid>\n   <score>");
    push_signed_decimal(out, e.score);
    out.append("</score>\n   <rank>");
    push_signed_decimal(out, e.global_rank);
    out.append("</rank>\n   <ugcid>-1</ugcid>\n   <details>");
    push_details(out, &e.details);
    out.append("</details>\n  </entry>\n");
    assert(final(out)@ =~= old(out)@ + entry_element(*e));
}

/// Renders the document that lists the rows of a leaderboard.
pub fn render_entries(leaderboard: LeaderboardRef, name: &str, count: i32, entries: &Vec<Entry>) -> (response:
    String)
    ensures
        response@ == entries_document(leaderboard, name@, count as int, entries@),
{
    let mut response = String::new();
    response.append("<response>\n<appID>");
    push_decimal(&mut response, APP_ID);
    response.append("</appID>\n<leaderboardID>");
    push_decimal(&mut response, leaderboard.raw);
    response.append("</leaderboardID>\n<name>");
    response.append(name);
    response.append("</name>\n<entryStart>0</entryStart>\n<entryEnd>");
    push_signed_decimal(&mut response, count);
    response.append("</entryEnd>\n<resultCount>");
    push_signed_decimal(&mut response, count);
    response.append("</resultCount>\n <entries>\n");
    let ghost head = entries_head(leaderboard, name@, count as int);
    assert(response@ =~= head);
    assert(entries@.take(0) =~= Seq::<Entry>::empty());
    let mut i: usize = 0;
    while i < entries.len()
        invariant
            i <= entries.len(),
            response@ == head + entry_elements(entries@.take(i as int)),
        decreases entries.len() - i,
    {
        push_entry(&mut response, &entries[i]);
        proof {
            let t = entries@.take(i + 1);
            assert(t.drop_last() =~= entries@.take(i as int));
            assert(t.last() == entries[i as int]);
            assert(response@ =~= head + entry_elements(t));
        }
        i = i + 1;
    }
    assert(entries@.take(i as int) =~= entries@);
    response.append(" </entries>\n</response>\n");
    response
}

} // verus!
