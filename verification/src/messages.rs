//! The texts of the bot's replies: help, raffle list, ticket lists and raffle status.

use vstd::prelude::*;

use crate::model::{belongs_to, Raffle, Ticket};
use crate::record_id::{hex_text, record_id_text};
use crate::rows::{
    raffle_list_rows, raffle_rows, ticket_rows, ticket_table_rows, timed_rows, timed_table_rows,
    times_writable, TABLE_WIDTH,
};
use crate::table::{draw_table, drawn_table, header_texts, CellAlign};
use crate::tally::{bar_fits, progress_block, push_progress_block, sold, tickets_sold};
use crate::text::{contains_text, decimal, decimal_text, occurs_at, same_text};

verus! {

/// The help message.
pub open spec fn help_message() -> Seq<char> {
    "**RaffleBOT Help:**\n"@ + "``` Commands: \n\n    ~status \t [prints a status of raffles]\n\n    ~raffle \t [prints commands for raffle]\n\n    ~ticket \t [prints commands for tickets]\n\n    ~output \t [print raffle tickets as file]```"@
}

/// Writes the help message.
pub fn help_text() -> (s: String)
    ensures
        s@ == help_message(),
{
    let mut s = String::new();
    s.append("**RaffleBOT Help:**\n");
    s.append(
        "``` Commands: \n\n    ~status \t [prints a status of raffles]\n\n    ~raffle \t [prints commands for raffle]\n\n    ~ticket \t [prints commands for tickets]\n\n    ~output \t [print raffle tickets as file]```",
    );
    s
}

/// The emote that shows a raffle's status: yellow when created, green when running, red
/// when stopped, and the bare words `red_circle` for any other status.
pub open spec fn status_emote(status: Seq<char>) -> Seq<char> {
    if status == "created"@ {
        ":yellow_circle:"@
    } else if status == "running"@ {
        ":green_circle:"@
    } else if status == "stopped"@ {
        ":red_circle:"@
    } else {
        "red_circle"@
    }
}

/// Picks the emote of a raffle's status.
pub fn emote_for(status: &str) -> (e: &'static str)
    ensures
        e@ == status_emote(status@),
{
    if same_text(status, "created") {
        ":yellow_circle:"
    } else if same_text(status, "running") {
        ":green_circle:"
    } else if same_text(status, "stopped") {
        ":red_circle:"
    } else {
        "red_circle"
    }
}

fn columns(names: &[&'static str], aligns: &[CellAlign]) -> (r: (Vec<&'static str>, Vec<CellAlign>))
    requires
        names@.len() == aligns@.len(),
    ensures
        r.0@ == names@,
        r.1@ == aligns@,
{
    let mut n: Vec<&'static str> = Vec::new();
    let mut a: Vec<CellAlign> = Vec::new();
    let mut i: usize = 0;
    while i < names.len()
        invariant
            names@.len() == aligns@.len(),
            i <= names@.len(),
            n@ == names@.take(i as int),
            a@ == aligns@.take(i as int),
        decreases names@.len() - i,
    {
        n.push(names[i]);
        a.push(aligns[i]);
        assert(names@.take(i + 1) =~= names@.take(i as int).push(names@[i as int]));
        assert(aligns@.take(i + 1) =~= aligns@.take(i as int).push(aligns@[i as int]));
        i = i + 1;
    }
    assert(names@.take(names@.len() as int) =~= names@);
    assert(aligns@.take(aligns@.len() as int) =~= aligns@);
    (n, a)
}

/// Headers of the raffle list.
pub open spec fn raffle_headers() -> Seq<Seq<char>> {
    seq!["ID"@, "Title"@, "Status"@, "Amount"@, "Price"@, "TOKEN"@]
}

/// Alignments of the raffle list.
pub open spec fn raffle_aligns() -> Seq<CellAlign> {
    seq![CellAlign::Left, CellAlign::Center, CellAlign::Center, CellAlign::Center, CellAlign::Right, CellAlign::Left]
}

/// Headers of a ticket table.
pub open spec fn ticket_headers() -> Seq<Seq<char>> {
    seq!["Ticked_ID"@, "PlayerName"@, "TicketAmount"@, "Created [UTC]"@]
}

/// Alignments of a ticket table.
pub open spec fn ticket_aligns() -> Seq<CellAlign> {
    seq![CellAlign::Left, CellAlign::Center, CellAlign::Center, CellAlign::Right]
}

/// Headers of a table in the full status.
pub open spec fn timed_headers() -> Seq<Seq<char>> {
    seq!["PlayerName"@, "TicketAmount"@, "TimePrinted"@]
}

/// Alignments of a table in the full status.
pub open spec fn timed_aligns() -> Seq<CellAlign> {
    seq![CellAlign::Left, CellAlign::Center, CellAlign::Center]
}

fn raffle_columns() -> (r: (Vec<&'static str>, Vec<CellAlign>))
    ensures
        header_texts(r.0@) == raffle_headers(),
        r.1@ == raffle_aligns(),
        r.0@.len() == r.1@.len(),
{
    let names: [&'static str; 6] = ["ID", "Title", "Status", "Amount", "Price", "TOKEN"];
    let aligns: [CellAlign; 6] = [
        CellAlign::Left,
        CellAlign::Center,
        CellAlign::Center,
        CellAlign::Center,
        CellAlign::Right,
        CellAlign::Left,
    ];
    let r = columns(&names, &aligns);
    assert(header_texts(r.0@) =~= raffle_headers());
    assert(r.1@ =~= raffle_aligns());
    r
}

fn ticket_columns() -> (r: (Vec<&'static str>, Vec<CellAlign>))
    ensures
        header_texts(r.0@) == ticket_headers(),
        r.1@ == ticket_aligns(),
        r.0@.len() == r.1@.len(),
{
    let names: [&'static str; 4] = ["Ticked_ID", "PlayerName", "TicketAmount", "Created [UTC]"];
    let aligns: [CellAlign; 4] = [CellAlign::Left, CellAlign::Center, CellAlign::Center, CellAlign::Right];
    let r = columns(&names, &aligns);
    assert(header_texts(r.0@) =~= ticket_headers());
    assert(r.1@ =~= ticket_aligns());
    r
}

fn timed_columns() -> (r: (Vec<&'static str>, Vec<CellAlign>))
    ensures
        header_texts(r.0@) == timed_headers(),
        r.1@ == timed_aligns(),
        r.0@.len() == r.1@.len(),
{
    let names: [&'static str; 3] = ["PlayerName", "TicketAmount", "TimePrinted"];
    let aligns: [CellAlign; 3] = [CellAlign::Left, CellAlign::Center, CellAlign::Center];
    let r = columns(&names, &aligns);
    assert(header_texts(r.0@) =~= timed_headers());
    assert(r.1@ =~= timed_aligns());
    r
}

/// The reply to `~raffle list`: the raffles in one table.
pub open spec fn raffle_list_message(raffles: Seq<Raffle>) -> Seq<char> {
    "**RaffleList**"@ + "```"@ + drawn_table(
        TABLE_WIDTH as nat,
        raffle_headers(),
        raffle_aligns(),
        raffle_rows(raffles),
    ) + " ``` \n"@
}

/// Writes the reply to `~raffle list`.
pub fn raffle_list_text(raffles: &Vec<Raffle>) -> (s: String)
    ensures
        s@ == raffle_list_message(raffles@),
{
    let (names, aligns) = raffle_columns();
    let rows = raffle_list_rows(raffles);
    let mut s = String::new();
    s.append("**RaffleList**");
    s.append("```");
    s.append(draw_table(TABLE_WIDTH, &names, &aligns, &rows).as_str());
    s.append(" ``` \n");
    s
}


/// A raffle's part of a ticket list: title, id, description and the table of its listed
/// tickets.
pub open spec fn list_section(r: Raffle, tickets: Seq<Ticket>, player: Option<Seq<char>>) -> Seq<char> {
    "**"@ + r.title@ + "** - "@ + hex_text(r.id.bytes@) + "\n"@ + r.description@ + "\n"@ + "```"@
        + drawn_table(
        TABLE_WIDTH as nat,
        ticket_headers(),
        ticket_aligns(),
        ticket_rows(tickets, r.id.bytes@, player),
    ) + " ``` \n"@
}

/// The raffle has a part in a ticket list: always when no player is named, else when
/// the player holds tickets in it.
pub open spec fn shown(r: Raffle, tickets: Seq<Ticket>, player: Option<Seq<char>>) -> bool {
    player is None || ticket_rows(tickets, r.id.bytes@, player).len() > 0
}

/// The parts of a ticket list, raffle by raffle.
pub open spec fn list_sections(raffles: Seq<Raffle>, tickets: Seq<Ticket>, player: Option<Seq<char>>) -> Seq<
    char,
>
    decreases raffles.len(),
{
    if raffles.len() == 0 {
        Seq::empty()
    } else {
        let r = raffles.last();
        list_sections(raffles.drop_last(), tickets, player) + if shown(r, tickets, player) {
            list_section(r, tickets, player)
        } else {
            Seq::empty()
        }
    }
}

/// The reply to `~ticket list`: every raffle with all its tickets.
pub open spec fn ticket_list_message(raffles: Seq<Raffle>, tickets: Seq<Ticket>) -> Seq<char> {
    "**Ticket LIST **\n\n"@ + list_sections(raffles, tickets, None)
}

/// The reply to `~ticket me`: the raffles in which the player holds tickets, each with the
/// tickets whose name holds the player's name.
pub open spec fn my_tickets_message(raffles: Seq<Raffle>, tickets: Seq<Ticket>, player: Seq<char>) -> Seq<
    char,
> {
    ":tickets: **Ticket LIST for User "@ + player + " **\n\n"@ + list_sections(
        raffles,
        tickets,
        Some(player),
    )
}

fn list_section_text(
    r: &Raffle,
    rows: &Vec<Vec<String>>,
    names: &Vec<&'static str>,
    aligns: &Vec<CellAlign>,
) -> (s: String)
    requires
        names@.len() == aligns@.len(),
    ensures
        s@ == "**"@ + r.title@ + "** - "@ + hex_text(r.id.bytes@) + "\n"@ + r.description@ + "\n"@
            + "```"@ + drawn_table(
            TABLE_WIDTH as nat,
            header_texts(names@),
            aligns@,
            crate::table::row_texts(rows@),
        ) + " ``` \n"@,
{
    let mut s = String::new();
    s.append("**");
    s.append(r.title.as_str());
    s.append("** - ");
    s.append(record_id_text(&r.id).as_str());
    s.append("\n");
    s.append(r.description.as_str());
    s.append("\n");
    s.append("```");
    s.append(draw_table(TABLE_WIDTH, names, aligns, rows).as_str());
    s.append(" ``` \n");
    s
}

fn push_list_sections(text: &mut String, raffles: &Vec<Raffle>, tickets: &Vec<Ticket>, player: Option<&str>)
    ensures
        final(text)@ == old(text)@ + list_sections(
            raffles@,
            tickets@,
            match player {
                Some(p) => Some(p@),
                None => None,
            },
        ),
{
    let ghost who = match player {
        Some(p) => Some(p@),
        None => None::<Seq<char>>,
    };
    let ghost start = text@;
    let (names, aligns) = ticket_columns();
    let mut i: usize = 0;
    while i < raffles.len()
        invariant
            i <= raffles@.len(),
            header_texts(names@) == ticket_headers(),
            aligns@ == ticket_aligns(),
            names@.len() == aligns@.len(),
            who == match player {
                Some(p) => Some(p@),
                None => None::<Seq<char>>,
            },
            text@ == start + list_sections(raffles@.take(i as int), tickets@, who),
        decreases raffles@.len() - i,
    {
        let r = &raffles[i];
        assert(raffles@.take(i + 1).drop_last() =~= raffles@.take(i as int));
        let rows = ticket_table_rows(tickets, &r.id, player);
        if player.is_none() || rows.len() > 0 {
            let section = list_section_text(r, &rows, &names, &aligns);
            text.append(section.as_str());
        }
        i = i + 1;
    }
    assert(raffles@.take(raffles@.len() as int) =~= raffles@);
}

/// Writes the reply to `~ticket list`.
pub fn ticket_list_text(raffles: &Vec<Raffle>, tickets: &Vec<Ticket>) -> (s: String)
    ensures
        s@ == ticket_list_message(raffles@, tickets@),
{
    let mut s = String::new();
    s.append("**Ticket LIST **\n\n");
    push_list_sections(&mut s, raffles, tickets, None);
    s
}

/// Writes the reply to `~ticket me` for a player.
pub fn my_tickets_text(raffles: &Vec<Raffle>, tickets: &Vec<Ticket>, player: &str) -> (s: String)
    ensures
        s@ == my_tickets_message(raffles@, tickets@, player@),
{
    let mut s = String::new();
    s.append(":tickets: **Ticket LIST for User ");
    s.append(player);
    s.append(" **\n\n");
    push_list_sections(&mut s, raffles, tickets, Some(player));
    s
}

/// A raffle's lines in the roster: one per ticket, with the player and the amount.
pub open spec fn roster_lines(tickets: Seq<Ticket>, raffle: Seq<u8>) -> Seq<char>
    decreases tickets.len(),
{
    if tickets.len() == 0 {
        Seq::empty()
    } else {
        let t = tickets.last();
        roster_lines(tickets.drop_last(), raffle) + if crate::model::belongs_to(t, raffle) {
            t.username@ + " \t\t\t "@ + decimal(t.amount as nat) + "\n"@
        } else {
            Seq::empty()
        }
    }
}

/// The roster, raffle by raffle.
pub open spec fn roster_sections(raffles: Seq<Raffle>, tickets: Seq<Ticket>) -> Seq<char>
    decreases raffles.len(),
{
    if raffles.len() == 0 {
        Seq::empty()
    } else {
        let r = raffles.last();
        roster_sections(raffles.drop_last(), tickets) + "Raffle: ** "@ + r.title@ + " **\n"@
            + "> PlayerName \t TicketAmount\n"@ + roster_lines(tickets, r.id.bytes@)
    }
}

/// The roster the `delete` ticket command posts: every raffle with its players.
pub open spec fn roster_message(raffles: Seq<Raffle>, tickets: Seq<Ticket>) -> Seq<char> {
    "**Ticket LIST **\n\n"@ + roster_sections(raffles, tickets)
}

fn push_roster_lines(text: &mut String, tickets: &Vec<Ticket>, raffle: &crate::record_id::RecordId)
    ensures
        final(text)@ == old(text)@ + roster_lines(tickets@, raffle.bytes@),
{
    let ghost start = text@;
    let mut i: usize = 0;
    while i < tickets.len()
        invariant
            i <= tickets@.len(),
            text@ == start + roster_lines(tickets@.take(i as int), raffle.bytes@),
        decreases tickets@.len() - i,
    {
        let t = &tickets[i];
        assert(tickets@.take(i + 1).drop_last() =~= tickets@.take(i as int));
        if crate::record_id::same_record(&t.raffle_id, raffle) {
            text.append(t.username.as_str());
            text.append(" \t\t\t ");
            text.append(decimal_text(t.amount as u64).as_str());
            text.append("\n");
        }
        i = i + 1;
    }
    assert(tickets@.take(tickets@.len() as int) =~= tickets@);
}

/// Writes the roster.
pub fn roster_text(raffles: &Vec<Raffle>, tickets: &Vec<Ticket>) -> (s: String)
    ensures
        s@ == roster_message(raffles@, tickets@),
{
    let mut s = String::new();
    s.append("**Ticket LIST **\n\n");
    let ghost start = s@;
    let mut i: usize = 0;
    while i < raffles.len()
        invariant
            i <= raffles@.len(),
            start == "**Ticket LIST **\n\n"@,
            s@ == start + roster_sections(raffles@.take(i as int), tickets@),
        decreases raffles@.len() - i,
    {
        let r = &raffles[i];
        assert(raffles@.take(i + 1).drop_last() =~= raffles@.take(i as int));
        s.append("Raffle: ** ");
        s.append(r.title.as_str());
        s.append(" **\n");
        s.append("> PlayerName \t TicketAmount\n");
        push_roster_lines(&mut s, tickets, &r.id);
        i = i + 1;
    }
    assert(raffles@.take(raffles@.len() as int) =~= raffles@);
    s
}


/// Every raffle's sold count fits in an `i32` and so does its product with the bar's
/// scale, as the status arithmetic of the bot needs.
pub open spec fn progress_fits(raffles: Seq<Raffle>, tickets: Seq<Ticket>) -> bool {
    forall|i: int|
        0 <= i < raffles.len() ==> {
            &&& sold(tickets, (#[trigger] raffles[i]).id.bytes@) <= i32::MAX
            &&& bar_fits(sold(tickets, raffles[i].id.bytes@), raffles[i].ticket_amount)
        }
}

/// A raffle's progress block with the counts taken from the tickets.
pub open spec fn raffle_progress(r: Raffle, tickets: Seq<Ticket>, percent: Seq<char>) -> Seq<char> {
    progress_block(
        sold(tickets, r.id.bytes@),
        r.ticket_amount,
        r.ticket_price@,
        r.ticket_token_name@,
        percent,
    )
}

/// A raffle's part of the short status.
pub open spec fn short_section(r: Raffle, tickets: Seq<Ticket>, percent: Seq<char>) -> Seq<char> {
    status_emote(r.status@) + " \t**"@ + r.title@ + "** \t ID="@ + hex_text(r.id.bytes@) + "\n"@
        + "\t\t  "@ + r.description@ + "\n"@ + raffle_progress(r, tickets, percent)
}

/// The parts of the short status, raffle by raffle, each with its share sold.
pub open spec fn short_sections(raffles: Seq<Raffle>, tickets: Seq<Ticket>, percents: Seq<String>) -> Seq<
    char,
>
    decreases raffles.len(),
{
    if raffles.len() == 0 {
        Seq::empty()
    } else {
        short_sections(raffles.drop_last(), tickets, percents.drop_last()) + short_section(
            raffles.last(),
            tickets,
            percents.last()@,
        )
    }
}

/// The short status: every raffle with its state, description and progress.
pub open spec fn short_status_message(raffles: Seq<Raffle>, tickets: Seq<Ticket>, percents: Seq<String>) -> Seq<
    char,
> {
    "**:tickets: Raffle Status :tickets:**\n\n"@ + short_sections(raffles, tickets, percents)
        + "\n> This message will auto-update"@
}

fn progress_text(r: &Raffle, tickets: &Vec<Ticket>, percent: &str) -> (s: String)
    requires
        sold(tickets@, r.id.bytes@) <= i32::MAX,
        bar_fits(sold(tickets@, r.id.bytes@), r.ticket_amount),
    ensures
        s@ == raffle_progress(*r, tickets@, percent@),
{
    let n = tickets_sold(tickets, &r.id);
    proof {
        crate::tally::lemma_sold_nonnegative(tickets@, r.id.bytes@);
    }
    let mut s = String::new();
    push_progress_block(
        &mut s,
        n,
        r.ticket_amount,
        r.ticket_price.as_str(),
        r.ticket_token_name.as_str(),
        percent,
    );
    s
}

fn short_section_text(r: &Raffle, tickets: &Vec<Ticket>, percent: &str) -> (s: String)
    requires
        sold(tickets@, r.id.bytes@) <= i32::MAX,
        bar_fits(sold(tickets@, r.id.bytes@), r.ticket_amount),
    ensures
        s@ == short_section(*r, tickets@, percent@),
{
    let mut s = String::new();
    s.append(emote_for(r.status.as_str()));
    s.append(" \t**");
    s.append(r.title.as_str());
    s.append("** \t ID=");
    s.append(record_id_text(&r.id).as_str());
    s.append("\n");
    s.append("\t\t  ");
    s.append(r.description.as_str());
    s.append("\n");
    s.append(progress_text(r, tickets, percent).as_str());
    s
}

/// Writes the short status; `percents[i]` is the share of raffle `i`'s tickets sold,
/// written out.
pub fn short_status_text(raffles: &Vec<Raffle>, tickets: &Vec<Ticket>, percents: &Vec<String>) -> (s: String)
    requires
        percents@.len() == raffles@.len(),
        progress_fits(raffles@, tickets@),
    ensures
        s@ == short_status_message(raffles@, tickets@, percents@),
{
    let mut s = String::new();
    s.append("**:tickets: Raffle Status :tickets:**\n\n");
    let ghost start = s@;
    let mut i: usize = 0;
    while i < raffles.len()
        invariant
            i <= raffles@.len(),
            percents@.len() == raffles@.len(),
            progress_fits(raffles@, tickets@),
            start == "**:tickets: Raffle Status :tickets:**\n\n"@,
            s@ == start + short_sections(raffles@.take(i as int), tickets@, percents@.take(i as int)),
        decreases raffles@.len() - i,
    {
        assert(raffles@.take(i + 1).drop_last() =~= raffles@.take(i as int));
        assert(percents@.take(i + 1).drop_last() =~= percents@.take(i as int));
        assert(raffles@[i as int] == raffles[i as int]);
        let section = short_section_text(&raffles[i], tickets, percents[i].as_str());
        s.append(section.as_str());
        i = i + 1;
    }
    assert(raffles@.take(raffles@.len() as int) =~= raffles@);
    assert(percents@.take(percents@.len() as int) =~= percents@);
    s.append("\n> This message will auto-update");
    s
}

/// A raffle's part of the full status.
pub open spec fn full_section(r: Raffle, tickets: Seq<Ticket>, percent: Seq<char>) -> Seq<char> {
    "**"@ + r.title@ + "** - "@ + hex_text(r.id.bytes@) + " "@ + status_emote(r.status@) + "\n"@
        + r.description@ + "\n"@ + raffle_progress(r, tickets, percent) + "\n```"@ + drawn_table(
        TABLE_WIDTH as nat,
        timed_headers(),
        timed_aligns(),
        timed_rows(tickets, r.id.bytes@),
    ) + "``` \n"@
}

/// The parts of the full status, raffle by raffle.
pub open spec fn full_sections(raffles: Seq<Raffle>, tickets: Seq<Ticket>, percents: Seq<String>) -> Seq<
    char,
>
    decreases raffles.len(),
{
    if raffles.len() == 0 {
        Seq::empty()
    } else {
        full_sections(raffles.drop_last(), tickets, percents.drop_last()) + full_section(
            raffles.last(),
            tickets,
            percents.last()@,
        )
    }
}

/// The full status: every raffle with its progress and the table of its tickets.
pub open spec fn full_status_message(raffles: Seq<Raffle>, tickets: Seq<Ticket>, percents: Seq<String>) -> Seq<
    char,
> {
    "**Raffle Status**\n\n"@ + full_sections(raffles, tickets, percents)
}

/// Every raffle's tickets carry times that `chrono` can write.
pub open spec fn all_times_writable(raffles: Seq<Raffle>, tickets: Seq<Ticket>) -> bool {
    forall|i: int| 0 <= i < raffles.len() ==> times_writable(tickets, (#[trigger] raffles[i]).id.bytes@)
}

fn full_section_text(
    r: &Raffle,
    tickets: &Vec<Ticket>,
    percent: &str,
    names: &Vec<&'static str>,
    aligns: &Vec<CellAlign>,
) -> (s: String)
    requires
        sold(tickets@, r.id.bytes@) <= i32::MAX,
        bar_fits(sold(tickets@, r.id.bytes@), r.ticket_amount),
        times_writable(tickets@, r.id.bytes@),
        header_texts(names@) == timed_headers(),
        aligns@ == timed_aligns(),
        names@.len() == aligns@.len(),
    ensures
        s@ == full_section(*r, tickets@, percent@),
{
    let rows = timed_table_rows(tickets, &r.id);
    let mut s = String::new();
    s.append("**");
    s.append(r.title.as_str());
    s.append("** - ");
    s.append(record_id_text(&r.id).as_str());
    s.append(" ");
    s.append(emote_for(r.status.as_str()));
    s.append("\n");
    s.append(r.description.as_str());
    s.append("\n");
    s.append(progress_text(r, tickets, percent).as_str());
    s.append("\n```");
    s.append(draw_table(TABLE_WIDTH, names, aligns, &rows).as_str());
    s.append("``` \n");
    s
}

/// Writes the full status; `percents[i]` is the share of raffle `i`'s tickets sold,
/// written out.
pub fn full_status_text(raffles: &Vec<Raffle>, tickets: &Vec<Ticket>, percents: &Vec<String>) -> (s: String)
    requires
        percents@.len() == raffles@.len(),
        progress_fits(raffles@, tickets@),
        all_times_writable(raffles@, tickets@),
    ensures
        s@ == full_status_message(raffles@, tickets@, percents@),
{
    let (names, aligns) = timed_columns();
    let mut s = String::new();
    s.append("**Raffle Status**\n\n");
    let ghost start = s@;
    let mut i: usize = 0;
    while i < raffles.len()
        invariant
            i <= raffles@.len(),
            percents@.len() == raffles@.len(),
            progress_fits(raffles@, tickets@),
            all_times_writable(raffles@, tickets@),
            header_texts(names@) == timed_headers(),
            aligns@ == timed_aligns(),
            names@.len() == aligns@.len(),
            start == "**Raffle Status**\n\n"@,
            s@ == start + full_sections(raffles@.take(i as int), tickets@, percents@.take(i as int)),
        decreases raffles@.len() - i,
    {
        assert(raffles@.take(i + 1).drop_last() =~= raffles@.take(i as int));
        assert(percents@.take(i + 1).drop_last() =~= percents@.take(i as int));
        assert(raffles@[i as int] == raffles[i as int]);
        let section = full_section_text(&raffles[i], tickets, percents[i].as_str(), &names, &aligns);
        s.append(section.as_str());
        i = i + 1;
    }
    assert(raffles@.take(raffles@.len() as int) =~= raffles@);
    assert(percents@.take(percents@.len() as int) =~= percents@);
    s
}


proof fn lemma_empty_name_occurs(name: Seq<char>)
    ensures
        contains_text(name, Seq::empty()),
{
    assert(name.subrange(0, 0) =~= Seq::<char>::empty());
    assert(occurs_at(name, Seq::empty(), 0));
}

proof fn lemma_rows_for_empty_name(tickets: Seq<Ticket>, raffle: Seq<u8>)
    ensures
        ticket_rows(tickets, raffle, Some(Seq::empty())) == ticket_rows(tickets, raffle, None),
    decreases tickets.len(),
{
    if tickets.len() > 0 {
        lemma_rows_for_empty_name(tickets.drop_last(), raffle);
        lemma_empty_name_occurs(tickets.last().username@);
    }
}

proof fn lemma_rows_not_empty(tickets: Seq<Ticket>, raffle: Seq<u8>, j: int)
    requires
        0 <= j < tickets.len(),
        belongs_to(tickets[j], raffle),
    ensures
        ticket_rows(tickets, raffle, None).len() > 0,
    decreases tickets.len(),
{
    if j < tickets.len() - 1 {
        lemma_rows_not_empty(tickets.drop_last(), raffle, j);
    }
}

/// Every raffle has at least one ticket.
pub open spec fn every_raffle_has_tickets(raffles: Seq<Raffle>, tickets: Seq<Ticket>) -> bool {
    forall|i: int|
        0 <= i < raffles.len() ==> exists|j: int|
            #![trigger tickets[j]]
            0 <= j < tickets.len() && belongs_to(tickets[j], (#[trigger] raffles[i]).id.bytes@)
}

proof fn lemma_sections_for_empty_name(raffles: Seq<Raffle>, tickets: Seq<Ticket>)
    requires
        forall|i: int|
            0 <= i < raffles.len() ==> ticket_rows(tickets, (#[trigger] raffles[i]).id.bytes@, None).len() > 0,
    ensures
        list_sections(raffles, tickets, Some(Seq::empty())) == list_sections(raffles, tickets, None),
    decreases raffles.len(),
{
    if raffles.len() > 0 {
        let rest = raffles.drop_last();
        assert forall|i: int| 0 <= i < rest.len() implies ticket_rows(
            tickets,
            (#[trigger] rest[i]).id.bytes@,
            None,
        ).len() > 0 by {
            assert(rest[i] == raffles[i]);
        }
        lemma_sections_for_empty_name(rest, tickets);
        let r = raffles.last();
        assert(raffles[raffles.len() - 1] == r);
        lemma_rows_for_empty_name(tickets, r.id.bytes@);
    }
}

/// Asked with an empty name, `~ticket me` shows exactly the sections of `~ticket list`
/// when every raffle has tickets: the empty name occurs in every player's name.
pub proof fn lemma_my_tickets_with_empty_name_is_the_list(raffles: Seq<Raffle>, tickets: Seq<Ticket>)
    requires
        every_raffle_has_tickets(raffles, tickets),
    ensures
        my_tickets_message(raffles, tickets, Seq::empty()) == ":tickets: **Ticket LIST for User "@
            + " **\n\n"@ + list_sections(raffles, tickets, None),
        ticket_list_message(raffles, tickets) == "**Ticket LIST **\n\n"@ + list_sections(
            raffles,
            tickets,
            None,
        ),
{
    assert forall|i: int| 0 <= i < raffles.len() implies ticket_rows(
        tickets,
        (#[trigger] raffles[i]).id.bytes@,
        None,
    ).len() > 0 by {
        let j = choose|j: int|
            0 <= j < tickets.len() && belongs_to(tickets[j], raffles[i].id.bytes@);
        lemma_rows_not_empty(tickets, raffles[i].id.bytes@, j);
    }
    lemma_sections_for_empty_name(raffles, tickets);
    assert(":tickets: **Ticket LIST for User "@ + Seq::<char>::empty() =~= ":tickets: **Ticket LIST for User "@);
}

proof fn lemma_short_sections_depend_on_sold(
    raffles: Seq<Raffle>,
    tickets: Seq<Ticket>,
    others: Seq<Ticket>,
    percents: Seq<String>,
)
    requires
        forall|i: int|
            0 <= i < raffles.len() ==> sold(tickets, (#[trigger] raffles[i]).id.bytes@) == sold(
                others,
                raffles[i].id.bytes@,
            ),
    ensures
        short_sections(raffles, tickets, percents) == short_sections(raffles, others, percents),
    decreases raffles.len(),
{
    if raffles.len() > 0 {
        let rest = raffles.drop_last();
        assert forall|i: int| 0 <= i < rest.len() implies sold(tickets, (#[trigger] rest[i]).id.bytes@)
            == sold(others, rest[i].id.bytes@) by {
            assert(rest[i] == raffles[i]);
        }
        lemma_short_sections_depend_on_sold(rest, tickets, others, percents.drop_last());
        assert(raffles[raffles.len() - 1] == raffles.last());
    }
}

/// The short status depends on the tickets only through each raffle's sold count.
pub proof fn lemma_short_status_depends_on_sold(
    raffles: Seq<Raffle>,
    tickets: Seq<Ticket>,
    others: Seq<Ticket>,
    percents: Seq<String>,
)
    requires
        forall|i: int|
            0 <= i < raffles.len() ==> sold(tickets, (#[trigger] raffles[i]).id.bytes@) == sold(
                others,
                raffles[i].id.bytes@,
            ),
    ensures
        short_status_message(raffles, tickets, percents) == short_status_message(
            raffles,
            others,
            percents,
        ),
{
    lemma_short_sections_depend_on_sold(raffles, tickets, others, percents);
}

/// The short status is the same whatever the order of the tickets and whatever tickets of
/// other raffles are added.
pub proof fn lemma_short_status_ignores_order_and_other_raffles(
    raffles: Seq<Raffle>,
    tickets: Seq<Ticket>,
    extra: Seq<Ticket>,
    shuffled: Seq<Ticket>,
    percents: Seq<String>,
)
    requires
        shuffled.to_multiset() == (tickets + extra).to_multiset(),
        forall|i: int, k: int|
            0 <= i < raffles.len() && 0 <= k < extra.len() ==> !belongs_to(
                #[trigger] extra[k],
                (#[trigger] raffles[i]).id.bytes@,
            ),
    ensures
        short_status_message(raffles, shuffled, percents) == short_status_message(
            raffles,
            tickets,
            percents,
        ),
{
    assert forall|i: int| 0 <= i < raffles.len() implies sold(shuffled, (#[trigger] raffles[i]).id.bytes@)
        == sold(tickets, raffles[i].id.bytes@) by {
        let id = raffles[i].id.bytes@;
        crate::tally::lemma_sold_ignores_order(shuffled, tickets + extra, id);
        crate::tally::lemma_sold_append(tickets, extra, id);
        assert forall|k: int| 0 <= k < extra.len() implies !belongs_to(#[trigger] extra[k], id) by {
            assert(!belongs_to(extra[k], raffles[i].id.bytes@));
        }
        crate::tally::lemma_sold_of_others(extra, id);
    }
    lemma_short_status_depends_on_sold(raffles, shuffled, tickets, percents);
}

} // verus!
