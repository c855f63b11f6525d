//! What the bot does for each command: the decision is made here from the command's
//! arguments, the bot then runs the outside work it names.

use vstd::prelude::*;

use crate::model::{Raffle, Ticket};
use crate::record_id::{new_record_id, parse_record_id, parsed_record_id, RecordId};
use crate::text::{parse_u16, parse_unsigned, same_text};

verus! {

/// The arguments of a command, as texts.
pub open spec fn arg_texts(args: Seq<String>) -> Seq<Seq<char>> {
    args.map_values(|a: String| a@)
}

/// Argument `i`, or `default` when there are fewer arguments.
pub open spec fn arg_or(args: Seq<Seq<char>>, i: int, default: Seq<char>) -> Seq<char> {
    if 0 <= i < args.len() { args[i] } else { default }
}

fn arg_or_text(args: &Vec<String>, i: usize, default: &str) -> (a: String)
    ensures
        a@ == arg_or(arg_texts(args@), i as int, default@),
{
    if i < args.len() {
        args[i].clone()
    } else {
        String::from_str(default)
    }
}

/// A new raffle as the `add` subcommand gives it.
#[derive(Debug)]
pub struct RaffleDraft {
    pub title: String,
    pub price: String,
    pub amount: u16,
    pub currency: String,
    pub description: String,
}

/// What a `~raffle` command asks for.
#[derive(Debug)]
pub enum RaffleAction {
    /// Answer with this text.
    Reply(String),
    /// Create this raffle and answer with the service's response.
    Create(RaffleDraft),
    /// List the raffles that this id selects (`0`: all of them).
    List(String),
    /// Delete the raffle with this id and answer with the service's response.
    Delete(String),
    /// Give the raffle with this id this status.
    SetStatus { id: String, status: String },
    /// Fetch the raffles that `lookup` selects, give the first this title and store it
    /// under `id`.
    SetTitle { id: String, lookup: String, title: String },
}

/// A `~raffle` decision, over texts.
pub enum RaffleDecision {
    Reply(Seq<char>),
    Create { title: Seq<char>, price: Seq<char>, amount: u16, currency: Seq<char>, description: Seq<char> },
    List(Seq<char>),
    Delete(Seq<char>),
    SetStatus { id: Seq<char>, status: Seq<char> },
    SetTitle { id: Seq<char>, lookup: Seq<char>, title: Seq<char> },
}

impl View for RaffleAction {
    type V = RaffleDecision;

    open spec fn view(&self) -> RaffleDecision {
        match self {
            RaffleAction::Reply(t) => RaffleDecision::Reply(t@),
            RaffleAction::Create(d) => RaffleDecision::Create {
                title: d.title@,
                price: d.price@,
                amount: d.amount,
                currency: d.currency@,
                description: d.description@,
            },
            RaffleAction::List(id) => RaffleDecision::List(id@),
            RaffleAction::Delete(id) => RaffleDecision::Delete(id@),
            RaffleAction::SetStatus { id, status } => RaffleDecision::SetStatus { id: id@, status: status@ },
            RaffleAction::SetTitle { id, lookup, title } => RaffleDecision::SetTitle {
                id: id@,
                lookup: lookup@,
                title: title@,
            },
        }
    }
}

/// The answer to a user without the raffle role.
pub open spec fn unauthenticated_reply() -> Seq<char> {
    "Unauthenticated: User has the wrong role!"@
}

/// The answer to a malformed `~raffle add`.
pub open spec fn raffle_add_usage() -> Seq<char> {
    "Expecting: ```~raffle add <title> <ticket_price> <ticket_amount> <ticket_currency> \"<description>\"```"@
}

/// The answer to a malformed `~raffle delete`.
pub open spec fn raffle_delete_usage() -> Seq<char> {
    "Expecting: ```~raffle delete <raffle_id>```"@
}

/// The answer to `~raffle start` or `~raffle stop` without a raffle.
pub open spec fn raffle_status_usage() -> Seq<char> {
    "Expecting: ```~raffle <start/stop> <raffle_id>```"@
}

/// The answer to a `~raffle title` that is refused.
pub open spec fn raffle_title_usage() -> Seq<char> {
    "Expecting: ```~raffle update <raffle_id> <new_title>```"@
}

/// The answer to an unknown `~raffle` subcommand.
pub open spec fn raffle_usage() -> Seq<char> {
    "Expecting: ```~raffle <add/list/delete/start/stop>```"@
}

/// The `~raffle` command with these arguments (the subcommand first) can be decided: a
/// `title` names a raffle and a title, and a complete `add` gives a ticket amount that
/// reads as a `u16`. The bot stops on any other such command.
pub open spec fn raffle_decidable(authorized: bool, args: Seq<Seq<char>>) -> bool {
    let sub = arg_or(args, 0, ""@);
    &&& (authorized && sub == "title"@ ==> args.len() >= 3)
    &&& (authorized && sub == "add"@ && args.len() == 6 ==> parse_unsigned(args[3], u16::MAX as nat)
        is Some)
}

/// What a `~raffle` command decides: users without the role are turned away; `add` with
/// five values creates a raffle; `list` lists the raffle named (all with `0`); `delete`
/// with one id deletes it; `start` and `stop` set the status of the raffle named, unless
/// none or `0` is named; `title` retitles unless the id is `0` and the title is not empty.
pub open spec fn raffle_decision(authorized: bool, args: Seq<Seq<char>>) -> RaffleDecision {
    let sub = arg_or(args, 0, ""@);
    if !authorized {
        RaffleDecision::Reply(unauthenticated_reply())
    } else if sub == "add"@ {
        if args.len() == 6 {
            RaffleDecision::Create {
                title: args[1],
                price: args[2],
                amount: parse_unsigned(args[3], u16::MAX as nat).unwrap() as u16,
                currency: args[4],
                description: args[5],
            }
        } else {
            RaffleDecision::Reply(raffle_add_usage())
        }
    } else if sub == "list"@ {
        RaffleDecision::List(arg_or(args, 1, "0"@))
    } else if sub == "delete"@ {
        if args.len() == 2 {
            RaffleDecision::Delete(args[1])
        } else {
            RaffleDecision::Reply(raffle_delete_usage())
        }
    } else if sub == "start"@ || sub == "stop"@ {
        let id = arg_or(args, 1, "0"@);
        if id != "0"@ {
            RaffleDecision::SetStatus {
                id,
                status: if sub == "start"@ { "running"@ } else { "stopped"@ },
            }
        } else {
            RaffleDecision::Reply(raffle_status_usage())
        }
    } else if sub == "title"@ {
        if args[1] != "0"@ || args[2].len() == 0 {
            RaffleDecision::SetTitle { id: args[1], lookup: arg_or(args, 3, "0"@), title: args[2] }
        } else {
            RaffleDecision::Reply(raffle_title_usage())
        }
    } else {
        RaffleDecision::Reply(raffle_usage())
    }
}

fn text_of(s: &'static str) -> (t: String)
    ensures
        t@ == s@,
{
    String::from_str(s)
}

/// Decides a `~raffle` command; `authorized` tells whether the user has the raffle role.
pub fn raffle_action(authorized: bool, args: &Vec<String>) -> (a: RaffleAction)
    requires
        raffle_decidable(authorized, arg_texts(args@)),
    ensures
        a@ == raffle_decision(authorized, arg_texts(args@)),
{
    let ghost texts = arg_texts(args@);
    if !authorized {
        return RaffleAction::Reply(text_of("Unauthenticated: User has the wrong role!"));
    }
    let sub = arg_or_text(args, 0, "");
    if same_text(sub.as_str(), "add") {
        if args.len() == 6 {
            let amount = parse_u16(args[3].as_str());
            assert(texts[3] == args@[3]@);
            match amount {
                Some(amount) => RaffleAction::Create(
                    RaffleDraft {
                        title: args[1].clone(),
                        price: args[2].clone(),
                        amount,
                        currency: args[4].clone(),
                        description: args[5].clone(),
                    },
                ),
                None => {
                    assert(false);
                    RaffleAction::Reply(String::new())
                },
            }
        } else {
            RaffleAction::Reply(
                text_of(
                    "Expecting: ```~raffle add <title> <ticket_price> <ticket_amount> <ticket_currency> \"<description>\"```",
                ),
            )
        }
    } else if same_text(sub.as_str(), "list") {
        RaffleAction::List(arg_or_text(args, 1, "0"))
    } else if same_text(sub.as_str(), "delete") {
        if args.len() == 2 {
            RaffleAction::Delete(args[1].clone())
        } else {
            RaffleAction::Reply(text_of("Expecting: ```~raffle delete <raffle_id>```"))
        }
    } else if same_text(sub.as_str(), "start") || same_text(sub.as_str(), "stop") {
        let id = arg_or_text(args, 1, "0");
        if !same_text(id.as_str(), "0") {
            let status = if same_text(sub.as_str(), "start") {
                text_of("running")
            } else {
                text_of("stopped")
            };
            RaffleAction::SetStatus { id, status }
        } else {
            RaffleAction::Reply(text_of("Expecting: ```~raffle <start/stop> <raffle_id>```"))
        }
    } else if same_text(sub.as_str(), "title") {
        let id = args[1].clone();
        let title = args[2].clone();
        if !same_text(id.as_str(), "0") || title.as_str().unicode_len() == 0 {
            RaffleAction::SetTitle { id, lookup: arg_or_text(args, 3, "0"), title }
        } else {
            RaffleAction::Reply(text_of("Expecting: ```~raffle update <raffle_id> <new_title>```"))
        }
    } else {
        RaffleAction::Reply(text_of("Expecting: ```~raffle <add/list/delete/start/stop>```"))
    }
}


/// A user without the raffle role is turned away, whatever the command.
pub proof fn lemma_raffle_needs_role(args: Seq<Seq<char>>)
    ensures
        raffle_decision(false, args) == RaffleDecision::Reply(unauthenticated_reply()),
{
}

/// The raffle an `add` creates: a fresh id, no status yet, no rule and no dates.
pub fn new_raffle(draft: RaffleDraft) -> (r: Raffle)
    ensures
        r.title@ == draft.title@,
        r.description@ == draft.description@,
        r.status@ == Seq::<char>::empty(),
        r.ticket_amount == draft.amount,
        r.ticket_price@ == draft.price@,
        r.ticket_token_name@ == draft.currency@,
        r.rule@ == "none"@,
        r.date_created == 0,
        r.date_updated == 0,
{
    Raffle {
        id: new_record_id(),
        title: draft.title,
        description: draft.description,
        status: String::new(),
        ticket_amount: draft.amount,
        ticket_price: draft.price,
        ticket_token_name: draft.currency,
        rule: text_of("none"),
        date_created: 0,
        date_updated: 0,
    }
}

/// The answer to a `~raffle delete` that the service refused.
pub open spec fn delete_failed_reply() -> Seq<char> {
    "Error in raffle_id"@
}

/// The answer to a `~raffle delete`: the service's response, or the refusal notice when
/// there is none.
pub fn delete_reply(response: Option<String>) -> (t: String)
    ensures
        t@ == match response {
            Some(r) => r@,
            None => delete_failed_reply(),
        },
{
    match response {
        Some(r) => r,
        None => text_of("Error in raffle_id"),
    }
}

/// The answer to a `~raffle start`, `stop` or `title` once the service has stored the
/// change.
pub fn updated_reply(response: &str) -> (t: String)
    ensures
        t@ == "Updated: "@ + response@,
{
    let mut t = text_of("Updated: ");
    t.append(response);
    t
}

/// What a `~ticket` command asks for.
#[derive(Debug)]
pub enum TicketAction {
    /// Answer with this text.
    Reply(String),
    /// List the tickets of the user.
    Me,
    /// Buy a ticket in the raffle with this id, paid by this transaction.
    Add { raffle_id: String, signature: String },
    /// List every raffle's tickets.
    List,
    /// Delete the ticket with this id and answer with the service's response.
    Delete(String),
}

/// A `~ticket` decision, over texts.
pub enum TicketDecision {
    Reply(Seq<char>),
    Me,
    Add { raffle_id: Seq<char>, signature: Seq<char> },
    List,
    Delete(Seq<char>),
}

impl View for TicketAction {
    type V = TicketDecision;

    open spec fn view(&self) -> TicketDecision {
        match self {
            TicketAction::Reply(t) => TicketDecision::Reply(t@),
            TicketAction::Me => TicketDecision::Me,
            TicketAction::Add { raffle_id, signature } => TicketDecision::Add {
                raffle_id: raffle_id@,
                signature: signature@,
            },
            TicketAction::List => TicketDecision::List,
            TicketAction::Delete(id) => TicketDecision::Delete(id@),
        }
    }
}

/// The answer to a malformed `~ticket add`.
pub open spec fn ticket_add_usage() -> Seq<char> {
    "Expecting: ```~ticket add <raffle_id> <spl_tx_signature>```"@
}

/// The answer to a malformed `~ticket delete`.
pub open spec fn ticket_delete_usage() -> Seq<char> {
    "Expecting: ```~ticket delete <raffle_id>```"@
}

/// The answer to an unknown `~ticket` subcommand.
pub open spec fn ticket_usage() -> Seq<char> {
    "Expecting: ```~ticket <me/add/list/delete>```"@
}

/// What a `~ticket` command decides: `me` and `list` list tickets, `add` with a raffle id
/// and a signature buys a ticket, `delete` with one id deletes that ticket.
pub open spec fn ticket_decision(args: Seq<Seq<char>>) -> TicketDecision {
    let sub = arg_or(args, 0, ""@);
    if sub == "me"@ {
        TicketDecision::Me
    } else if sub == "add"@ {
        if args.len() == 3 {
            TicketDecision::Add { raffle_id: args[1], signature: args[2] }
        } else {
            TicketDecision::Reply(ticket_add_usage())
        }
    } else if sub == "list"@ {
        TicketDecision::List
    } else if sub == "delete"@ {
        if args.len() == 2 {
            TicketDecision::Delete(args[1])
        } else {
            TicketDecision::Reply(ticket_delete_usage())
        }
    } else {
        TicketDecision::Reply(ticket_usage())
    }
}

/// Decides a `~ticket` command.
pub fn ticket_action(args: &Vec<String>) -> (a: TicketAction)
    ensures
        a@ == ticket_decision(arg_texts(args@)),
{
    let sub = arg_or_text(args, 0, "");
    if same_text(sub.as_str(), "me") {
        TicketAction::Me
    } else if same_text(sub.as_str(), "add") {
        if args.len() == 3 {
            TicketAction::Add { raffle_id: args[1].clone(), signature: args[2].clone() }
        } else {
            TicketAction::Reply(text_of("Expecting: ```~ticket add <raffle_id> <spl_tx_signature>```"))
        }
    } else if same_text(sub.as_str(), "list") {
        TicketAction::List
    } else if same_text(sub.as_str(), "delete") {
        if args.len() == 2 {
            TicketAction::Delete(args[1].clone())
        } else {
            TicketAction::Reply(text_of("Expecting: ```~ticket delete <raffle_id>```"))
        }
    } else {
        TicketAction::Reply(text_of("Expecting: ```~ticket <me/add/list/delete>```"))
    }
}

/// The answer to a `~ticket delete` that the service refused.
pub open spec fn ticket_delete_failed_reply() -> Seq<char> {
    "Error in ticket_id"@
}

/// The answer to a `~ticket delete`: the service's response, or the refusal notice when
/// there is none.
pub fn ticket_delete_reply(response: Option<String>) -> (t: String)
    ensures
        t@ == match response {
            Some(r) => r@,
            None => ticket_delete_failed_reply(),
        },
{
    match response {
        Some(r) => r,
        None => text_of("Error in ticket_id"),
    }
}

/// The ticket a `~ticket add` asks the service to store: a fresh id; the raffle the id
/// text names, or a fresh id when the text names none; the player, the transaction, no
/// amount and no dates.
pub fn new_ticket(raffle_id: &str, username: &str, signature: &str) -> (t: Ticket)
    ensures
        parsed_record_id(raffle_id@) matches Some(bytes) ==> t.raffle_id.bytes@ == bytes,
        t.username@ == username@,
        t.spl_tx_signature@ == signature@,
        t.amount == 0,
        t.date_created == 0,
        t.date_updated == 0,
{
    let raffle = match parse_record_id(raffle_id) {
        Some(id) => id,
        None => new_record_id(),
    };
    Ticket {
        id: new_record_id(),
        raffle_id: raffle,
        username: String::from_str(username),
        spl_tx_signature: String::from_str(signature),
        amount: 0,
        date_created: 0,
        date_updated: 0,
    }
}

/// What a `~status` command asks for.
#[derive(Debug, PartialEq, Eq, Structural)]
pub enum StatusAction {
    /// Answer with the short status.
    Short,
    /// Post the short status as a message of its own, then answer with the notice.
    Permanent,
    /// Answer with the full status.
    Full,
    /// Answer with the usage notice.
    Usage,
}

/// The answer to an unknown `~status` subcommand.
pub open spec fn status_usage() -> Seq<char> {
    "Expecting: ```~status <list/perm/full>```"@
}

/// The answer to `~status perm` once the status is posted.
pub open spec fn permanent_notice() -> Seq<char> {
    "--- permanent message ---"@
}

/// What a `~status` command decides.
pub open spec fn status_decision(args: Seq<Seq<char>>) -> StatusAction {
    let sub = arg_or(args, 0, ""@);
    if sub == "list"@ {
        StatusAction::Short
    } else if sub == "perm"@ {
        StatusAction::Permanent
    } else if sub == "full"@ {
        StatusAction::Full
    } else {
        StatusAction::Usage
    }
}

/// Decides a `~status` command.
pub fn status_action(args: &Vec<String>) -> (a: StatusAction)
    ensures
        a == status_decision(arg_texts(args@)),
{
    let sub = arg_or_text(args, 0, "");
    if same_text(sub.as_str(), "list") {
        StatusAction::Short
    } else if same_text(sub.as_str(), "perm") {
        StatusAction::Permanent
    } else if same_text(sub.as_str(), "full") {
        StatusAction::Full
    } else {
        StatusAction::Usage
    }
}

/// Writes the answer to an unknown `~status` subcommand.
pub fn status_usage_text() -> (t: String)
    ensures
        t@ == status_usage(),
{
    text_of("Expecting: ```~status <list/perm/full>```")
}

/// Writes the answer to `~status perm`.
pub fn permanent_notice_text() -> (t: String)
    ensures
        t@ == permanent_notice(),
{
    text_of("--- permanent message ---")
}

/// What an `~export` command decides: the file to write and, when the argument names a
/// raffle, that raffle; otherwise the usage notice as the answer.
#[derive(Debug)]
pub struct ExportPlan {
    pub file_name: String,
    pub raffle: Option<RecordId>,
    pub reply: String,
}

/// The name of the export file of a raffle.
pub open spec fn export_file_name(raffle_id: Seq<char>) -> Seq<char> {
    "raffle_"@ + raffle_id + ".export.txt"@
}

/// The answer to an `~export` that names no raffle.
pub open spec fn export_usage() -> Seq<char> {
    "Expecting: ```~export <raffle_id>```"@
}

/// Decides an `~export` command from its arguments.
pub fn export_plan(args: &Vec<String>) -> (p: ExportPlan)
    ensures
        p.file_name@ == export_file_name(arg_or(arg_texts(args@), 0, ""@)),
        match parsed_record_id(arg_or(arg_texts(args@), 0, ""@)) {
            Some(bytes) => p.raffle matches Some(id) && id.bytes@ == bytes && p.reply@ == Seq::<
                char,
            >::empty(),
            None => p.raffle is None && p.reply@ == export_usage(),
        },
{
    let id = arg_or_text(args, 0, "");
    let mut file_name = text_of("raffle_");
    file_name.append(id.as_str());
    file_name.append(".export.txt");
    match parse_record_id(id.as_str()) {
        Some(raffle) => ExportPlan { file_name, raffle: Some(raffle), reply: String::new() },
        None => ExportPlan {
            file_name,
            raffle: None,
            reply: text_of("Expecting: ```~export <raffle_id>```"),
        },
    }
}

} // verus!
