//! What the bot's operations promise, stated over their inputs and proved over the
//! specifications that the operations' contracts use.

use vstd::prelude::*;

use crate::commands::{arg_or, export_file_name, raffle_decision, status_decision, ticket_decision, RaffleDecision, StatusAction, TicketDecision};
use crate::messages::{full_section, full_sections, list_section, list_sections, roster_lines, roster_sections, short_section, short_sections, ticket_aligns, ticket_headers};
use crate::api::{request_for, ApiCall, Method};
use crate::reply::reply_text;
use crate::model::{Raffle, Ticket};
use crate::record_id::hex_text;
use crate::rows::{raffle_rows, ticket_rows, timed_rows};
use crate::table::formatted_utc_time;
use crate::messages::{status_emote, raffle_progress};
use crate::tally::{bar_cells, progress_block, sold};
use crate::table::drawn_table;
use crate::rows::TABLE_WIDTH;
use crate::text::{contains_text, decimal, parse_unsigned};

verus! {

/// A ticket table lists, in the tickets' order, exactly the tickets of the raffle (and,
/// with a player named, those whose name holds the player's name); each row is the
/// ticket's own id, its player, its amount and its creation second.
pub proof fn law_ticket_table_rows(tickets: Seq<Ticket>, raffle: Seq<u8>, player: Option<Seq<char>>)
    ensures
        ticket_rows(tickets, raffle, player) == tickets.filter_map(
            |t: Ticket|
                if t.raffle_id.bytes@ == raffle && match player {
                    Some(p) => contains_text(t.username@, p),
                    None => true,
                } {
                    Some(
                        seq![
                            hex_text(t.id.bytes@),
                            t.username@,
                            decimal(t.amount as nat),
                            decimal(t.date_created as nat),
                        ],
                    )
                } else {
                    None
                },
        ),
    decreases tickets.len(),
{
    if tickets.len() > 0 {
        law_ticket_table_rows(tickets.drop_last(), raffle, player);
        let rest = ticket_rows(tickets.drop_last(), raffle, player);
        let t = tickets.last();
        let row = seq![
            hex_text(t.id.bytes@),
            t.username@,
            decimal(t.amount as nat),
            decimal(t.date_created as nat),
        ];
        assert(rest.push(row) =~= rest + seq![row]);
    }
}

/// A raffle's table in the full status lists, in the tickets' order, exactly the
/// raffle's tickets; each row is the ticket's player, its amount and the time of its
/// creation second (taken as an `i64`) in the bot's pattern.
pub proof fn law_timed_table_rows(tickets: Seq<Ticket>, raffle: Seq<u8>)
    ensures
        timed_rows(tickets, raffle) == tickets.filter_map(
            |t: Ticket|
                if t.raffle_id.bytes@ == raffle {
                    Some(
                        seq![
                            t.username@,
                            decimal(t.amount as nat),
                            formatted_utc_time((t.date_created as i64) as int, "%Y-%m-%d %H:%M:%S UTC"@),
                        ],
                    )
                } else {
                    None
                },
        ),
    decreases tickets.len(),
{
    if tickets.len() > 0 {
        law_timed_table_rows(tickets.drop_last(), raffle);
        let rest = timed_rows(tickets.drop_last(), raffle);
        let t = tickets.last();
        let row = seq![
            t.username@,
            decimal(t.amount as nat),
            formatted_utc_time((t.date_created as i64) as int, "%Y-%m-%d %H:%M:%S UTC"@),
        ];
        assert(rest.push(row) =~= rest + seq![row]);
    }
}

/// The raffle list has one row per raffle, in order: the raffle's own id, title, status,
/// tickets offered, price and token.
pub proof fn law_raffle_list_rows(raffles: Seq<Raffle>)
    ensures
        raffle_rows(raffles).len() == raffles.len(),
        forall|i: int|
            0 <= i < raffles.len() ==> #[trigger] raffle_rows(raffles)[i] == seq![
                hex_text(raffles[i].id.bytes@),
                raffles[i].title@,
                raffles[i].status@,
                decimal(raffles[i].ticket_amount as nat),
                raffles[i].ticket_price@,
                raffles[i].ticket_token_name@,
            ],
{
}


proof fn lemma_subcommands_differ()
    ensures
        "add"@ != "list"@,
        "add"@ != "delete"@,
        "add"@ != "start"@,
        "add"@ != "stop"@,
        "add"@ != "title"@,
        "list"@ != "delete"@,
        "list"@ != "start"@,
        "list"@ != "stop"@,
        "list"@ != "title"@,
        "delete"@ != "start"@,
        "delete"@ != "stop"@,
        "delete"@ != "title"@,
        "start"@ != "stop"@,
        "start"@ != "title"@,
        "stop"@ != "title"@,
        "me"@ != "add"@,
        "me"@ != "list"@,
        "me"@ != "delete"@,
        "list"@ != "perm"@,
        "list"@ != "full"@,
        "perm"@ != "full"@,
{
    reveal_strlit("add");
    reveal_strlit("list");
    reveal_strlit("delete");
    reveal_strlit("start");
    reveal_strlit("stop");
    reveal_strlit("title");
    reveal_strlit("me");
    reveal_strlit("perm");
    reveal_strlit("full");
    assert("add"@[0] != "list"@[0]);
    assert("add"@[0] != "delete"@[0]);
    assert("add"@[0] != "start"@[0]);
    assert("add"@[0] != "stop"@[0]);
    assert("add"@[0] != "title"@[0]);
    assert("list"@[0] != "delete"@[0]);
    assert("list"@[0] != "start"@[0]);
    assert("list"@[0] != "stop"@[0]);
    assert("list"@[0] != "title"@[0]);
    assert("delete"@[0] != "start"@[0]);
    assert("delete"@[0] != "stop"@[0]);
    assert("delete"@[0] != "title"@[0]);
    assert("start"@[2] != "stop"@[2]);
    assert("start"@[0] != "title"@[0]);
    assert("stop"@[0] != "title"@[0]);
    assert("me"@[0] != "add"@[0]);
    assert("me"@[0] != "list"@[0]);
    assert("me"@[0] != "delete"@[0]);
    assert("list"@[0] != "perm"@[0]);
    assert("list"@[0] != "full"@[0]);
    assert("perm"@[0] != "full"@[0]);
}

/// `~raffle start <id>` and `~raffle stop <id>` from a user with the role, naming a raffle
/// other than `0`, change the status of exactly that raffle: to running on start, to
/// stopped on stop, whatever else follows.
pub proof fn law_raffle_status_change_targets_named_raffle(args: Seq<Seq<char>>)
    requires
        args.len() >= 2,
        args[0] == "start"@ || args[0] == "stop"@,
        args[1] != "0"@,
    ensures
        raffle_decision(true, args) == (RaffleDecision::SetStatus {
            id: args[1],
            status: if args[0] == "start"@ { "running"@ } else { "stopped"@ },
        }),
{
    lemma_subcommands_differ();
}

/// `~raffle list`, `~raffle delete <id>`, `~raffle add ...` and `~raffle title ...` from a
/// user with the role: list lists the raffle named (all with `0` or with none named),
/// delete deletes the raffle named, add creates the raffle its five values describe, and
/// title retitles the raffle named unless that is `0` with a title given.
pub proof fn law_raffle_subcommands(args: Seq<Seq<char>>)
    requires
        args.len() >= 1,
    ensures
        args[0] == "list"@ ==> raffle_decision(true, args) == RaffleDecision::List(
            if args.len() >= 2 { args[1] } else { "0"@ },
        ),
        args[0] == "delete"@ && args.len() == 2 ==> raffle_decision(true, args)
            == RaffleDecision::Delete(args[1]),
        args[0] == "add"@ && args.len() == 6 ==> raffle_decision(true, args) == (RaffleDecision::Create {
            title: args[1],
            price: args[2],
            amount: parse_unsigned(args[3], u16::MAX as nat).unwrap() as u16,
            currency: args[4],
            description: args[5],
        }),
        args[0] == "title"@ && args.len() >= 3 && (args[1] != "0"@ || args[2].len() == 0) ==> raffle_decision(true, args) == (RaffleDecision::SetTitle {
            id: args[1],
            lookup: if args.len() >= 4 { args[3] } else { "0"@ },
            title: args[2],
        }),
{
    lemma_subcommands_differ();
}

/// `~ticket me` lists the user's tickets and `~ticket list` every raffle's tickets,
/// whatever follows; `~ticket add <raffle> <signature>` buys a ticket in that raffle with
/// that signature; `~ticket delete <id>` deletes that ticket.
pub proof fn law_ticket_subcommands(args: Seq<Seq<char>>)
    requires
        args.len() >= 1,
    ensures
        args[0] == "me"@ ==> ticket_decision(args) == TicketDecision::Me,
        args[0] == "list"@ ==> ticket_decision(args) == TicketDecision::List,
        args[0] == "add"@ && args.len() == 3 ==> ticket_decision(args) == (TicketDecision::Add {
            raffle_id: args[1],
            signature: args[2],
        }),
        args[0] == "delete"@ && args.len() == 2 ==> ticket_decision(args) == TicketDecision::Delete(
            args[1],
        ),
{
    lemma_subcommands_differ();
}

/// `~status list` gives the short status, `~status perm` posts it to stay, `~status full`
/// gives the full status, whatever follows.
pub proof fn law_status_subcommands(args: Seq<Seq<char>>)
    requires
        args.len() >= 1,
    ensures
        args[0] == "list"@ ==> status_decision(args) == StatusAction::Short,
        args[0] == "perm"@ ==> status_decision(args) == StatusAction::Permanent,
        args[0] == "full"@ ==> status_decision(args) == StatusAction::Full,
{
    lemma_subcommands_differ();
}


/// A progress block ends with the bar and then the share it is given.
pub proof fn law_progress_block_ends_with_share(
    sold_count: int,
    ticket_amount: u16,
    price: Seq<char>,
    token: Seq<char>,
    percent: Seq<char>,
)
    ensures
        exists|head: Seq<char>|
            progress_block(sold_count, ticket_amount, price, token, percent) == head + "["@ + bar_cells(
                sold_count,
                ticket_amount,
            ) + "] "@ + percent + "% ```\n"@,
{
    let head = "```Tickets SOLD: "@ + decimal(sold_count as nat) + "/"@ + decimal(ticket_amount as nat)
        + " \t"@ + "price_per_ticket: "@ + price + token + "\n"@;
    assert(progress_block(sold_count, ticket_amount, price, token, percent) == head + "["@
        + bar_cells(sold_count, ticket_amount) + "] "@ + percent + "% ```\n"@);
}

/// A raffle's block in the short status ends with the progress block of that raffle's own
/// tickets sold, tickets offered, price and token, with the share it is given.
pub proof fn law_short_block_shows_its_raffle(r: Raffle, tickets: Seq<Ticket>, percent: Seq<char>)
    ensures
        exists|head: Seq<char>|
            short_section(r, tickets, percent) == head + progress_block(
                sold(tickets, r.id.bytes@),
                r.ticket_amount,
                r.ticket_price@,
                r.ticket_token_name@,
                percent,
            ),
        exists|head: Seq<char>|
            short_section(r, tickets, percent) == status_emote(r.status@) + " \t**"@ + r.title@ + head,
{
    let head = status_emote(r.status@) + " \t**"@ + r.title@ + "** \t ID="@ + hex_text(r.id.bytes@)
        + "\n"@ + "\t\t  "@ + r.description@ + "\n"@;
    assert(short_section(r, tickets, percent) == head + raffle_progress(r, tickets, percent));
    let rest = "** \t ID="@ + hex_text(r.id.bytes@) + "\n"@ + "\t\t  "@ + r.description@ + "\n"@
        + raffle_progress(r, tickets, percent);
    assert(short_section(r, tickets, percent) =~= status_emote(r.status@) + " \t**"@ + r.title@ + rest);
}

/// The short status of one more raffle is the short status before it followed by that
/// raffle's block, built with the share given for it.
pub proof fn law_short_status_appends(
    raffles: Seq<Raffle>,
    tickets: Seq<Ticket>,
    percents: Seq<String>,
    r: Raffle,
    percent: String,
)
    ensures
        short_sections(raffles.push(r), tickets, percents.push(percent)) == short_sections(
            raffles,
            tickets,
            percents,
        ) + short_section(r, tickets, percent@),
{
    assert(raffles.push(r).drop_last() =~= raffles);
    assert(percents.push(percent).drop_last() =~= percents);
}

/// A raffle's block in the full status holds the progress block of that raffle's own
/// tickets sold, tickets offered, price and token with the share it is given, followed
/// by the table of that raffle's tickets.
pub proof fn law_full_block_shows_its_raffle(r: Raffle, tickets: Seq<Ticket>, percent: Seq<char>)
    ensures
        exists|head: Seq<char>|
            full_section(r, tickets, percent) == head + progress_block(
                sold(tickets, r.id.bytes@),
                r.ticket_amount,
                r.ticket_price@,
                r.ticket_token_name@,
                percent,
            ) + "\n```"@ + drawn_table(
                TABLE_WIDTH as nat,
                seq!["PlayerName"@, "TicketAmount"@, "TimePrinted"@],
                seq![crate::table::CellAlign::Left, crate::table::CellAlign::Center, crate::table::CellAlign::Center],
                timed_rows(tickets, r.id.bytes@),
            ) + "``` \n"@,
{
    let head = "**"@ + r.title@ + "** - "@ + hex_text(r.id.bytes@) + " "@ + status_emote(r.status@)
        + "\n"@ + r.description@ + "\n"@;
    assert(full_section(r, tickets, percent) == head + raffle_progress(r, tickets, percent) + "\n```"@
        + drawn_table(
        TABLE_WIDTH as nat,
        seq!["PlayerName"@, "TicketAmount"@, "TimePrinted"@],
        seq![crate::table::CellAlign::Left, crate::table::CellAlign::Center, crate::table::CellAlign::Center],
        timed_rows(tickets, r.id.bytes@),
    ) + "``` \n"@);
}

/// The full status of one more raffle is the full status before it followed by that
/// raffle's block, built with the share given for it.
pub proof fn law_full_status_appends(
    raffles: Seq<Raffle>,
    tickets: Seq<Ticket>,
    percents: Seq<String>,
    r: Raffle,
    percent: String,
)
    ensures
        full_sections(raffles.push(r), tickets, percents.push(percent)) == full_sections(
            raffles,
            tickets,
            percents,
        ) + full_section(r, tickets, percent@),
{
    assert(raffles.push(r).drop_last() =~= raffles);
    assert(percents.push(percent).drop_last() =~= percents);
}


/// A ticket list of one more raffle is the list before it followed by that raffle's part,
/// when the raffle is shown.
pub proof fn law_ticket_list_appends(
    raffles: Seq<Raffle>,
    tickets: Seq<Ticket>,
    player: Option<Seq<char>>,
    r: Raffle,
)
    ensures
        list_sections(raffles.push(r), tickets, player) == list_sections(raffles, tickets, player)
            + if player is None || ticket_rows(tickets, r.id.bytes@, player).len() > 0 {
            list_section(r, tickets, player)
        } else {
            Seq::empty()
        },
{
    assert(raffles.push(r).drop_last() =~= raffles);
}

/// A raffle's part of a ticket list opens with that raffle's own title and id and holds
/// the table of that raffle's listed tickets.
pub proof fn law_list_block_shows_its_raffle(r: Raffle, tickets: Seq<Ticket>, player: Option<Seq<char>>)
    ensures
        exists|tail: Seq<char>|
            list_section(r, tickets, player) == "**"@ + r.title@ + "** - "@ + hex_text(r.id.bytes@) + tail,
        exists|head: Seq<char>|
            list_section(r, tickets, player) == head + drawn_table(
                TABLE_WIDTH as nat,
                seq!["Ticked_ID"@, "PlayerName"@, "TicketAmount"@, "Created [UTC]"@],
                seq![
                    crate::table::CellAlign::Left,
                    crate::table::CellAlign::Center,
                    crate::table::CellAlign::Center,
                    crate::table::CellAlign::Right,
                ],
                ticket_rows(tickets, r.id.bytes@, player),
            ) + " ``` \n"@,
{
    let tail = "\n"@ + r.description@ + "\n"@ + "```"@ + drawn_table(
        TABLE_WIDTH as nat,
        ticket_headers(),
        ticket_aligns(),
        ticket_rows(tickets, r.id.bytes@, player),
    ) + " ``` \n"@;
    assert(list_section(r, tickets, player) =~= "**"@ + r.title@ + "** - "@ + hex_text(r.id.bytes@) + tail);
    let head = "**"@ + r.title@ + "** - "@ + hex_text(r.id.bytes@) + "\n"@ + r.description@ + "\n"@ + "```"@;
    assert(list_section(r, tickets, player) == head + drawn_table(
        TABLE_WIDTH as nat,
        ticket_headers(),
        ticket_aligns(),
        ticket_rows(tickets, r.id.bytes@, player),
    ) + " ``` \n"@);
}

/// A raffle's roster lines are, in the tickets' order, one line per ticket of that raffle:
/// the player, then the amount.
pub proof fn law_roster_lines(tickets: Seq<Ticket>, raffle: Seq<u8>, t: Ticket)
    ensures
        roster_lines(tickets.push(t), raffle) == roster_lines(tickets, raffle) + if t.raffle_id.bytes@
            == raffle {
            t.username@ + " \t\t\t "@ + decimal(t.amount as nat) + "\n"@
        } else {
            Seq::empty()
        },
        roster_lines(Seq::empty(), raffle) == Seq::<char>::empty(),
{
    assert(tickets.push(t).drop_last() =~= tickets);
}

/// The roster of one more raffle is the roster before it followed by that raffle's title
/// and its own players.
pub proof fn law_roster_appends(raffles: Seq<Raffle>, tickets: Seq<Ticket>, r: Raffle)
    ensures
        roster_sections(raffles.push(r), tickets) == roster_sections(raffles, tickets) + "Raffle: ** "@
            + r.title@ + " **\n"@ + "> PlayerName \t TicketAmount\n"@ + roster_lines(tickets, r.id.bytes@),
{
    assert(raffles.push(r).drop_last() =~= raffles);
}

/// Every call that names a record addresses that record: its address is the base, the
/// collection and then the id; the raffle calls share one address, and so do the ticket
/// calls; reading gets, removing deletes, replacing patches and adding posts.
pub proof fn law_requests_address_their_record(base: Seq<char>, id: String)
    ensures
        request_for(base, ApiCall::GetRaffle(id)) == (Method::Get, base + "/raffle/"@ + id@),
        request_for(base, ApiCall::DeleteRaffle(id)) == (Method::Delete, base + "/raffle/"@ + id@),
        request_for(base, ApiCall::UpdateRaffle(id)) == (Method::Patch, base + "/raffle/"@ + id@),
        request_for(base, ApiCall::GetTicket(id)) == (Method::Get, base + "/ticket/"@ + id@),
        request_for(base, ApiCall::DeleteTicket(id)) == (Method::Delete, base + "/ticket/"@ + id@),
        request_for(base, ApiCall::AddRaffle) == (Method::Post, base + "/raffle"@),
        request_for(base, ApiCall::AddTicket) == (Method::Post, base + "/ticket"@),
{
}

/// A destructing reply is the text followed by the notice of its delay, and then both the
/// command and the reply are removed; otherwise the text goes out as it is and nothing is
/// removed.
pub proof fn law_reply_notice(text: Seq<char>, setting: Seq<char>, seconds: u64)
    ensures
        contains_text(setting, "true"@) ==> reply_text(text, setting, seconds) == text
            + "\n > this message will destruct in "@ + decimal(seconds as nat) + "s"@,
        !contains_text(setting, "true"@) ==> reply_text(text, setting, seconds) == text,
{
}

/// `~export <id>` writes the file named after the id given and exports the raffle of
/// that id when it is one.
pub proof fn law_export_names_its_raffle(args: Seq<Seq<char>>)
    requires
        args.len() >= 1,
    ensures
        export_file_name(arg_or(args, 0, ""@)) == "raffle_"@ + args[0] + ".export.txt"@,
{
}

} // verus!
