//! The rows of the bot's tables: one per raffle or per ticket.

use vstd::prelude::*;

use crate::model::{belongs_to, Raffle, Ticket};
use crate::record_id::{hex_text, record_id_text, same_record, RecordId};
use crate::table::{
    formatted_utc_time, row_texts, time_pattern, utc_time_text, FIRST_UTC_SECOND, LAST_UTC_SECOND,
};
use crate::text::{contains, contains_text, decimal, decimal_text};

verus! {

/// The width the bot gives every table.
pub const TABLE_WIDTH: usize = 150;

/// A raffle's row in the raffle list: id, title, status, tickets offered, price, token.
pub open spec fn raffle_row(r: Raffle) -> Seq<Seq<char>> {
    seq![
        hex_text(r.id.bytes@),
        r.title@,
        r.status@,
        decimal(r.ticket_amount as nat),
        r.ticket_price@,
        r.ticket_token_name@,
    ]
}

/// The rows of the raffle list, one per raffle in order.
pub open spec fn raffle_rows(raffles: Seq<Raffle>) -> Seq<Seq<Seq<char>>> {
    raffles.map_values(|r: Raffle| raffle_row(r))
}

/// A ticket's row in the ticket lists: id, player, amount, creation second.
pub open spec fn ticket_row(t: Ticket) -> Seq<Seq<char>> {
    seq![
        hex_text(t.id.bytes@),
        t.username@,
        decimal(t.amount as nat),
        decimal(t.date_created as nat),
    ]
}

/// The ticket is listed: it belongs to the raffle and, when a player is named, the
/// player's name occurs in the ticket's name.
pub open spec fn listed(t: Ticket, raffle: Seq<u8>, player: Option<Seq<char>>) -> bool {
    &&& belongs_to(t, raffle)
    &&& match player {
        Some(p) => contains_text(t.username@, p),
        None => true,
    }
}

/// The rows of a raffle's ticket table: the listed tickets in order.
pub open spec fn ticket_rows(tickets: Seq<Ticket>, raffle: Seq<u8>, player: Option<Seq<char>>) -> Seq<
    Seq<Seq<char>>,
>
    decreases tickets.len(),
{
    if tickets.len() == 0 {
        Seq::empty()
    } else {
        let rest = ticket_rows(tickets.drop_last(), raffle, player);
        if listed(tickets.last(), raffle, player) {
            rest.push(ticket_row(tickets.last()))
        } else {
            rest
        }
    }
}

/// The second of a ticket's purchase as the full status reads it: the stored count taken
/// as an `i64`, so counts from 2^63 up wrap round to times before the epoch.
pub open spec fn purchase_second(t: Ticket) -> i64 {
    t.date_created as i64
}

/// A ticket's row in the full status: player, amount, time of purchase.
pub open spec fn timed_row(t: Ticket) -> Seq<Seq<char>> {
    seq![t.username@, decimal(t.amount as nat), formatted_utc_time(purchase_second(t) as int, time_pattern())]
}

/// The rows of a raffle's table in the full status: its tickets in order.
pub open spec fn timed_rows(tickets: Seq<Ticket>, raffle: Seq<u8>) -> Seq<Seq<Seq<char>>>
    decreases tickets.len(),
{
    if tickets.len() == 0 {
        Seq::empty()
    } else {
        let rest = timed_rows(tickets.drop_last(), raffle);
        if belongs_to(tickets.last(), raffle) {
            rest.push(timed_row(tickets.last()))
        } else {
            rest
        }
    }
}

/// Every ticket of the raffle has a purchase second that `chrono` can place in a calendar.
pub open spec fn times_writable(tickets: Seq<Ticket>, raffle: Seq<u8>) -> bool {
    forall|i: int|
        0 <= i < tickets.len() && belongs_to(#[trigger] tickets[i], raffle)
            ==> FIRST_UTC_SECOND <= purchase_second(tickets[i]) <= LAST_UTC_SECOND
}

proof fn lemma_push_row(rows: Seq<Vec<String>>, row: Vec<String>)
    ensures
        row_texts(rows.push(row)) == row_texts(rows).push(row@.map_values(|c: String| c@)),
{
    assert(row_texts(rows.push(row)) =~= row_texts(rows).push(row@.map_values(|c: String| c@)));
}

/// The row of a raffle in the raffle list.
pub fn raffle_row_cells(r: &Raffle) -> (row: Vec<String>)
    ensures
        row@.map_values(|c: String| c@) == raffle_row(*r),
{
    let mut row: Vec<String> = Vec::new();
    row.push(record_id_text(&r.id));
    row.push(r.title.clone());
    row.push(r.status.clone());
    row.push(decimal_text(r.ticket_amount as u64));
    row.push(r.ticket_price.clone());
    row.push(r.ticket_token_name.clone());
    assert(row@.map_values(|c: String| c@) =~= raffle_row(*r));
    row
}

/// The rows of the raffle list.
pub fn raffle_list_rows(raffles: &Vec<Raffle>) -> (rows: Vec<Vec<String>>)
    ensures
        row_texts(rows@) == raffle_rows(raffles@),
{
    let mut rows: Vec<Vec<String>> = Vec::new();
    let mut i: usize = 0;
    while i < raffles.len()
        invariant
            i <= raffles@.len(),
            row_texts(rows@) == raffle_rows(raffles@.take(i as int)),
        decreases raffles@.len() - i,
    {
        let row = raffle_row_cells(&raffles[i]);
        proof {
            lemma_push_row(rows@, row);
            assert(raffle_rows(raffles@.take(i + 1)) =~= raffle_rows(raffles@.take(i as int)).push(
                raffle_row(raffles@[i as int]),
            ));
        }
        rows.push(row);
        i = i + 1;
    }
    assert(raffles@.take(raffles@.len() as int) =~= raffles@);
    rows
}

fn ticket_row_cells(t: &Ticket) -> (row: Vec<String>)
    ensures
        row@.map_values(|c: String| c@) == ticket_row(*t),
{
    let mut row: Vec<String> = Vec::new();
    row.push(record_id_text(&t.id));
    row.push(t.username.clone());
    row.push(decimal_text(t.amount as u64));
    row.push(decimal_text(t.date_created));
    assert(row@.map_values(|c: String| c@) =~= ticket_row(*t));
    row
}

/// The rows of a raffle's ticket table; with a player named, only the tickets whose name
/// holds the player's name.
pub fn ticket_table_rows(tickets: &Vec<Ticket>, raffle: &RecordId, player: Option<&str>) -> (rows: Vec<
    Vec<String>,
>)
    ensures
        row_texts(rows@) == ticket_rows(
            tickets@,
            raffle.bytes@,
            match player {
                Some(p) => Some(p@),
                None => None,
            },
        ),
{
    let ghost who = match player {
        Some(p) => Some(p@),
        None => None::<Seq<char>>,
    };
    let mut rows: Vec<Vec<String>> = Vec::new();
    let mut i: usize = 0;
    while i < tickets.len()
        invariant
            i <= tickets@.len(),
            who == match player {
                Some(p) => Some(p@),
                None => None::<Seq<char>>,
            },
            row_texts(rows@) == ticket_rows(tickets@.take(i as int), raffle.bytes@, who),
        decreases tickets@.len() - i,
    {
        let t = &tickets[i];
        assert(tickets@.take(i + 1).drop_last() =~= tickets@.take(i as int));
        let keep = same_record(&t.raffle_id, raffle) && match player {
            Some(p) => contains(t.username.as_str(), p),
            None => true,
        };
        if keep {
            let row = ticket_row_cells(t);
            proof {
                lemma_push_row(rows@, row);
            }
            rows.push(row);
        }
        i = i + 1;
    }
    assert(tickets@.take(tickets@.len() as int) =~= tickets@);
    rows
}

fn timed_row_cells(t: &Ticket) -> (row: Vec<String>)
    requires
        FIRST_UTC_SECOND <= purchase_second(*t) <= LAST_UTC_SECOND,
    ensures
        row@.map_values(|c: String| c@) == timed_row(*t),
{
    let mut row: Vec<String> = Vec::new();
    row.push(t.username.clone());
    row.push(decimal_text(t.amount as u64));
    let second: i64 = t.date_created as i64;
    row.push(utc_time_text(second, "%Y-%m-%d %H:%M:%S UTC"));
    assert(row@.map_values(|c: String| c@) =~= timed_row(*t));
    row
}

/// The rows of a raffle's table in the full status.
pub fn timed_table_rows(tickets: &Vec<Ticket>, raffle: &RecordId) -> (rows: Vec<Vec<String>>)
    requires
        times_writable(tickets@, raffle.bytes@),
    ensures
        row_texts(rows@) == timed_rows(tickets@, raffle.bytes@),
{
    let mut rows: Vec<Vec<String>> = Vec::new();
    let mut i: usize = 0;
    while i < tickets.len()
        invariant
            i <= tickets@.len(),
            times_writable(tickets@, raffle.bytes@),
            row_texts(rows@) == timed_rows(tickets@.take(i as int), raffle.bytes@),
        decreases tickets@.len() - i,
    {
        let t = &tickets[i];
        assert(tickets@.take(i + 1).drop_last() =~= tickets@.take(i as int));
        if same_record(&t.raffle_id, raffle) {
            assert(belongs_to(tickets@[i as int], raffle.bytes@));
            let row = timed_row_cells(t);
            proof {
                lemma_push_row(rows@, row);
            }
            rows.push(row);
        }
        i = i + 1;
    }
    assert(tickets@.take(tickets@.len() as int) =~= tickets@);
    rows
}

} // verus!
