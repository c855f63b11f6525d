use raffle_bot::api::{api_request, update_ticket, ApiCall, Method};
use raffle_bot::commands::{
    delete_reply, export_plan, new_raffle, new_ticket, permanent_notice_text, raffle_action,
    status_action, status_usage_text, ticket_action, ticket_delete_reply, updated_reply, RaffleAction,
    StatusAction, TicketAction,
};
use raffle_bot::model::Ticket;
use raffle_bot::record_id::RecordId;
use raffle_bot::reply::{reply_plan, BoardStep, StatusBoard};

fn args(words: &[&str]) -> Vec<String> {
    words.iter().map(|w| w.to_string()).collect()
}

fn reply_of(a: RaffleAction) -> String {
    match a {
        RaffleAction::Reply(t) => t,
        other => panic!("expected a reply, got {:?}", other),
    }
}

#[test]
fn raffle_without_role_is_refused() {
    for words in [&["add", "a", "1", "2", "SOL", "d"][..], &["list"][..], &[][..], &["title"][..]] {
        assert_eq!(reply_of(raffle_action(false, &args(words))), "Unauthenticated: User has the wrong role!");
    }
}

#[test]
fn raffle_add() {
    match raffle_action(true, &args(&["add", "Moon", "1.50", "+10", "SOL", "\"a raffle\""])) {
        RaffleAction::Create(d) => {
            assert_eq!(d.title, "Moon");
            assert_eq!(d.price, "1.50");
            assert_eq!(d.amount, 10);
            assert_eq!(d.currency, "SOL");
            assert_eq!(d.description, "\"a raffle\"");
            let r = new_raffle(d);
            assert_eq!(r.status, "");
            assert_eq!(r.rule, "none");
            assert_eq!(r.ticket_amount, 10);
            assert_eq!(r.ticket_token_name, "SOL");
        }
        other => panic!("expected a raffle, got {:?}", other),
    }
    assert_eq!(
        reply_of(raffle_action(true, &args(&["add", "Moon"]))),
        "Expecting: ```~raffle add <title> <ticket_price> <ticket_amount> <ticket_currency> \"<description>\"```"
    );
}

#[test]
fn raffle_list_and_delete() {
    match raffle_action(true, &args(&["list"])) {
        RaffleAction::List(id) => assert_eq!(id, "0"),
        other => panic!("{:?}", other),
    }
    match raffle_action(true, &args(&["list", "abc"])) {
        RaffleAction::List(id) => assert_eq!(id, "abc"),
        other => panic!("{:?}", other),
    }
    match raffle_action(true, &args(&["delete", "abc"])) {
        RaffleAction::Delete(id) => assert_eq!(id, "abc"),
        other => panic!("{:?}", other),
    }
    assert_eq!(reply_of(raffle_action(true, &args(&["delete"]))), "Expecting: ```~raffle delete <raffle_id>```");
    assert_eq!(delete_reply(Some("gone".to_string())), "gone");
    assert_eq!(delete_reply(None), "Error in raffle_id");
}

#[test]
fn raffle_start_stop_title() {
    match raffle_action(true, &args(&["start", "r1"])) {
        RaffleAction::SetStatus { id, status } => {
            assert_eq!(id, "r1");
            assert_eq!(status, "running");
        }
        other => panic!("{:?}", other),
    }
    match raffle_action(true, &args(&["stop", "r1"])) {
        RaffleAction::SetStatus { status, .. } => assert_eq!(status, "stopped"),
        other => panic!("{:?}", other),
    }
    assert_eq!(reply_of(raffle_action(true, &args(&["stop"]))), "Expecting: ```~raffle <start/stop> <raffle_id>```");
    assert_eq!(reply_of(raffle_action(true, &args(&["start", "0"]))), "Expecting: ```~raffle <start/stop> <raffle_id>```");
    match raffle_action(true, &args(&["title", "r1", "New"])) {
        RaffleAction::SetTitle { id, lookup, title } => {
            assert_eq!(id, "r1");
            assert_eq!(lookup, "0");
            assert_eq!(title, "New");
        }
        other => panic!("{:?}", other),
    }
    match raffle_action(true, &args(&["title", "0", "", "r2"])) {
        RaffleAction::SetTitle { lookup, .. } => assert_eq!(lookup, "r2"),
        other => panic!("{:?}", other),
    }
    assert_eq!(reply_of(raffle_action(true, &args(&["title", "0", "New"]))), "Expecting: ```~raffle update <raffle_id> <new_title>```");
    assert_eq!(reply_of(raffle_action(true, &args(&["what"]))), "Expecting: ```~raffle <add/list/delete/start/stop>```");
    assert_eq!(reply_of(raffle_action(true, &args(&[]))), "Expecting: ```~raffle <add/list/delete/start/stop>```");
    assert_eq!(updated_reply("ok"), "Updated: ok");
}

#[test]
fn ticket_commands() {
    assert!(matches!(ticket_action(&args(&["me"])), TicketAction::Me));
    assert!(matches!(ticket_action(&args(&["list", "x"])), TicketAction::List));
    match ticket_action(&args(&["add", "r1", "sig"])) {
        TicketAction::Add { raffle_id, signature } => {
            assert_eq!(raffle_id, "r1");
            assert_eq!(signature, "sig");
        }
        other => panic!("{:?}", other),
    }
    let reply = |w: &[&str]| match ticket_action(&args(w)) {
        TicketAction::Reply(t) => t,
        other => panic!("{:?}", other),
    };
    assert_eq!(reply(&["add", "r1"]), "Expecting: ```~ticket add <raffle_id> <spl_tx_signature>```");
    match ticket_action(&args(&["delete", "t1"])) {
        TicketAction::Delete(id) => assert_eq!(id, "t1"),
        other => panic!("{:?}", other),
    }
    assert_eq!(ticket_delete_reply(Some("deleted".to_string())), "deleted");
    assert_eq!(ticket_delete_reply(None), "Error in ticket_id");
    assert_eq!(reply(&["delete"]), "Expecting: ```~ticket delete <raffle_id>```");
    assert_eq!(reply(&[]), "Expecting: ```~ticket <me/add/list/delete>```");
}

#[test]
fn new_tickets() {
    let t = new_ticket("0123456789abcdef01234567", "bob", "sig");
    assert_eq!(t.raffle_id.bytes, [0x01, 0x23, 0x45, 0x67, 0x89, 0xab, 0xcd, 0xef, 0x01, 0x23, 0x45, 0x67]);
    assert_eq!(t.username, "bob");
    assert_eq!(t.spl_tx_signature, "sig");
    assert_eq!((t.amount, t.date_created, t.date_updated), (0, 0, 0));
    let u = new_ticket("nope", "bob", "sig");
    assert_ne!(u.raffle_id.bytes, [0u8; 12]);
}

#[test]
fn status_commands() {
    assert_eq!(status_action(&args(&["list"])), StatusAction::Short);
    assert_eq!(status_action(&args(&["perm"])), StatusAction::Permanent);
    assert_eq!(status_action(&args(&["full"])), StatusAction::Full);
    assert_eq!(status_action(&args(&[])), StatusAction::Usage);
    assert_eq!(status_usage_text(), "Expecting: ```~status <list/perm/full>```");
    assert_eq!(permanent_notice_text(), "--- permanent message ---");
}

#[test]
fn export_plans() {
    let p = export_plan(&args(&["0123456789abcdef01234567"]));
    assert_eq!(p.file_name, "raffle_0123456789abcdef01234567.export.txt");
    assert!(p.raffle.is_some());
    assert_eq!(p.reply, "");
    let q = export_plan(&args(&[]));
    assert_eq!(q.file_name, "raffle_.export.txt");
    assert!(q.raffle.is_none());
    assert_eq!(q.reply, "Expecting: ```~export <raffle_id>```");
}

#[test]
fn reply_plans() {
    let quiet = reply_plan("hi".to_string(), "false", 5);
    assert!(!quiet.remove_command);
    assert_eq!(quiet.text, "hi");
    assert_eq!(quiet.remove_reply_after, None);
    let loud = reply_plan("hi".to_string(), "yes,true", 7);
    assert!(loud.remove_command);
    assert_eq!(loud.text, "hi\n > this message will destruct in 7s");
    assert_eq!(loud.remove_reply_after, Some(7));
}

#[test]
fn status_board() {
    let mut b = StatusBoard::new();
    assert!(!StatusBoard::loop_runs(0));
    assert!(StatusBoard::loop_runs(30));
    assert_eq!(b.step(false), BoardStep::Wait);
    assert_eq!(b.step(true), BoardStep::Post { remove: None });
    b.posted(99);
    assert_eq!(b.step(true), BoardStep::Post { remove: Some(99) });
    assert_eq!(b.step(false), BoardStep::Wait);
}

#[test]
fn api_requests() {
    let r = api_request("https://api", &ApiCall::AddRaffle);
    assert_eq!((r.method, r.url.as_str()), (Method::Post, "https://api/raffle"));
    let r = api_request("https://api", &ApiCall::AddTicket);
    assert_eq!((r.method, r.url.as_str()), (Method::Post, "https://api/ticket"));
    let r = api_request("https://api", &ApiCall::GetRaffle("0".to_string()));
    assert_eq!((r.method, r.url.as_str()), (Method::Get, "https://api/raffle/0"));
    let r = api_request("https://api", &ApiCall::GetTicket("7".to_string()));
    assert_eq!((r.method, r.url.as_str()), (Method::Get, "https://api/ticket/7"));
    let r = api_request("https://api", &ApiCall::DeleteRaffle("7".to_string()));
    assert_eq!((r.method, r.url.as_str()), (Method::Delete, "https://api/raffle/7"));
    let r = api_request("https://api", &ApiCall::DeleteTicket("9".to_string()));
    assert_eq!((r.method, r.url.as_str()), (Method::Delete, "https://api/ticket/9"));
    let r = api_request("https://api", &ApiCall::UpdateRaffle("7".to_string()));
    assert_eq!((r.method, r.url.as_str()), (Method::Patch, "https://api/raffle/7"));
    let t = Ticket {
        id: RecordId { bytes: [0; 12] },
        raffle_id: RecordId { bytes: [0; 12] },
        username: String::new(),
        spl_tx_signature: String::new(),
        amount: 0,
        date_created: 0,
        date_updated: 0,
    };
    assert_eq!(update_ticket(&t), "NOT-IMPLEMENTED");
}
