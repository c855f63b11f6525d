use raffle_bot::messages::{
    emote_for, full_status_text, help_text, my_tickets_text, raffle_list_text, roster_text,
    short_status_text, ticket_list_text,
};
use raffle_bot::model::{Raffle, Ticket};
use raffle_bot::record_id::RecordId;
use raffle_bot::table::{FIRST_UTC_SECOND, LAST_UTC_SECOND};
use raffle_bot::tally::{export_entries, progress_bar, push_progress_block, tickets_sold};

fn id(n: u8) -> RecordId {
    RecordId { bytes: [n; 12] }
}

fn raffle(n: u8, title: &str, status: &str, amount: u16) -> Raffle {
    Raffle {
        id: id(n),
        title: title.to_string(),
        description: format!("about {}", title),
        status: status.to_string(),
        ticket_amount: amount,
        ticket_price: "1.5".to_string(),
        ticket_token_name: "SOL".to_string(),
        rule: "none".to_string(),
        date_created: 0,
        date_updated: 0,
    }
}

fn ticket(n: u8, raffle: u8, user: &str, amount: u16, created: u64) -> Ticket {
    Ticket {
        id: id(n),
        raffle_id: id(raffle),
        username: user.to_string(),
        spl_tx_signature: "sig".to_string(),
        amount,
        date_created: created,
        date_updated: 0,
    }
}

fn sample_tickets() -> Vec<Ticket> {
    vec![
        ticket(10, 1, "alice", 2, 0),
        ticket(11, 2, "bob", 5, 86_400),
        ticket(12, 1, "alicia", 1, 1_431_648_000),
    ]
}

#[test]
fn tickets_sold_adds_amounts_of_the_raffle() {
    let tickets = sample_tickets();
    assert_eq!(tickets_sold(&tickets, &id(1)), 3);
    assert_eq!(tickets_sold(&tickets, &id(2)), 5);
    assert_eq!(tickets_sold(&tickets, &id(3)), 0);
    assert_eq!(tickets_sold(&Vec::new(), &id(1)), 0);
}

#[test]
fn export_has_one_line_per_ticket_sold() {
    let tickets = sample_tickets();
    let out = export_entries(&tickets, &id(1));
    assert_eq!(out, "alice\nalice\nalicia\n");
    assert_eq!(out.matches('\n').count() as i32, tickets_sold(&tickets, &id(1)));
    assert_eq!(export_entries(&tickets, &id(3)), "");
}

#[test]
fn progress_bar_cells() {
    // 50 / 10 = 5 per ticket; 3 sold: cells 1..=14 are filled.
    let bar = progress_bar(3, 10);
    assert_eq!(bar.chars().count(), 49);
    assert_eq!(bar, format!("{}{}", "#".repeat(14), " ".repeat(35)));
    // more than 50 tickets: the scale truncates to 0, nothing is filled.
    assert_eq!(progress_bar(40, 60), " ".repeat(49));
    // no tickets offered: the scale saturates.
    assert_eq!(progress_bar(1, 0), "#".repeat(49));
    assert_eq!(progress_bar(0, 0), " ".repeat(49));
    // sold out at 50 tickets: 49 of 49.
    assert_eq!(progress_bar(50, 50), "#".repeat(49));
}

#[test]
fn progress_block_text() {
    let mut text = String::from(">");
    push_progress_block(&mut text, 3, 10, "1.5", "SOL", "30");
    assert_eq!(
        text,
        format!(
            ">```Tickets SOLD: 3/10 \tprice_per_ticket: 1.5SOL\n[{}{}] 30% ```\n",
            "#".repeat(14),
            " ".repeat(35)
        )
    );
}

#[test]
fn emotes() {
    assert_eq!(emote_for("created"), ":yellow_circle:");
    assert_eq!(emote_for("running"), ":green_circle:");
    assert_eq!(emote_for("stopped"), ":red_circle:");
    assert_eq!(emote_for(""), "red_circle");
}

#[test]
fn help_text_lists_commands() {
    assert_eq!(
        help_text(),
        "**RaffleBOT Help:**\n``` Commands: \n\n    ~status \t [prints a status of raffles]\n\n    ~raffle \t [prints commands for raffle]\n\n    ~ticket \t [prints commands for tickets]\n\n    ~output \t [print raffle tickets as file]```"
    );
}

#[test]
fn empty_table_is_a_frame() {
    assert_eq!(raffle_list_text(&Vec::new()), "**RaffleList**```┌──┐\n│  │\n└──┘\n ``` \n");
}

#[test]
fn raffle_list_matches_ascii_table() {
    let raffles = vec![raffle(1, "Moon", "running", 10), raffle(2, "Sun", "", 300)];
    let mut table = ascii_table::AsciiTable::default();
    table.set_max_width(150);
    table.column(0).set_header("ID").set_align(ascii_table::Align::Left);
    table.column(1).set_header("Title").set_align(ascii_table::Align::Center);
    table.column(2).set_header("Status").set_align(ascii_table::Align::Center);
    table.column(3).set_header("Amount").set_align(ascii_table::Align::Center);
    table.column(4).set_header("Price").set_align(ascii_table::Align::Right);
    table.column(5).set_header("TOKEN").set_align(ascii_table::Align::Left);
    let data = vec![
        ["010101010101010101010101", "Moon", "running", "10", "1.5", "SOL"],
        ["020202020202020202020202", "Sun", "", "300", "1.5", "SOL"],
    ];
    assert_eq!(
        raffle_list_text(&raffles),
        format!("**RaffleList**```{} ``` \n", table.format(data))
    );
}

#[test]
fn utc_times_in_full_status() {
    let raffles = vec![raffle(1, "Moon", "running", 10)];
    let tickets = vec![
        ticket(10, 1, "alice", 1, LAST_UTC_SECOND as u64),
        ticket(11, 1, "bob", 1, 0),
        ticket(12, 1, "carol", 1, u64::MAX),
    ];
    let text = full_status_text(&raffles, &tickets, &vec!["30".to_string()]);
    assert!(text.contains("+262142-12-31 23:59:59 UTC"));
    assert!(text.contains("1970-01-01 00:00:00 UTC"));
    // u64::MAX read as an i64 is -1: one second before the epoch.
    assert!(text.contains("1969-12-31 23:59:59 UTC"));
    assert!(chrono::DateTime::from_timestamp(LAST_UTC_SECOND, 0).is_some());
    assert!(chrono::DateTime::from_timestamp(LAST_UTC_SECOND + 1, 0).is_none());
    assert!(chrono::DateTime::from_timestamp(FIRST_UTC_SECOND, 0).is_some());
    assert!(chrono::DateTime::from_timestamp(FIRST_UTC_SECOND - 1, 0).is_none());
}

#[test]
fn full_status_at_the_earliest_second() {
    let raffles = vec![raffle(1, "Moon", "running", 10)];
    let tickets = vec![ticket(10, 1, "alice", 1, FIRST_UTC_SECOND as u64)];
    let text = full_status_text(&raffles, &tickets, &vec!["10".to_string()]);
    assert!(text.contains("-262143-01-01 00:00:00 UTC"));
}

#[test]
fn my_tickets_with_empty_name_is_the_list() {
    let raffles = vec![raffle(1, "Moon", "running", 10), raffle(2, "Sun", "created", 5)];
    let tickets = sample_tickets();
    let mine = my_tickets_text(&raffles, &tickets, "");
    let all = ticket_list_text(&raffles, &tickets);
    assert_eq!(
        &mine[":tickets: **Ticket LIST for User  **\n\n".len()..],
        &all["**Ticket LIST **\n\n".len()..]
    );
}

#[test]
fn short_status_ignores_order_and_other_raffles() {
    let raffles = vec![raffle(1, "Moon", "running", 10), raffle(2, "Sun", "created", 5)];
    let tickets = sample_tickets();
    let mut shuffled = vec![ticket(20, 9, "zed", 7, 0)];
    shuffled.extend(sample_tickets().into_iter().rev());
    let p = vec!["30".to_string(), "100".to_string()];
    assert_eq!(short_status_text(&raffles, &tickets, &p), short_status_text(&raffles, &shuffled, &p));
}

#[test]
fn progress_bar_never_shrinks() {
    for amount in [1u16, 3, 10, 49, 50, 51] {
        let mut before = 0;
        for sold in 0..60 {
            let filled = progress_bar(sold, amount).matches('#').count();
            let scale = (50 / amount) as i32;
            assert_eq!(filled as i32, (sold * scale - 1).clamp(0, 49));
            assert!(filled >= before);
            before = filled;
        }
    }
}

#[test]
fn raffle_list_rows() {
    let raffles = vec![raffle(1, "Moon", "running", 10)];
    let text = raffle_list_text(&raffles);
    assert!(text.starts_with("**RaffleList**```┌"));
    assert!(text.ends_with(" ``` \n"));
    assert!(text.contains("010101010101010101010101"));
    assert!(text.contains("Moon"));
    assert!(text.contains("running"));
    assert!(text.contains("1.5"));
    assert!(text.contains("SOL"));
}

#[test]
fn ticket_lists() {
    let raffles = vec![raffle(1, "Moon", "running", 10), raffle(2, "Sun", "created", 5)];
    let tickets = sample_tickets();
    let all = ticket_list_text(&raffles, &tickets);
    assert!(all.starts_with("**Ticket LIST **\n\n**Moon** - 010101010101010101010101\nabout Moon\n```"));
    assert!(all.contains("**Sun** - 020202020202020202020202\nabout Sun\n```"));
    let mine = my_tickets_text(&raffles, &tickets, "bob");
    assert!(mine.starts_with(":tickets: **Ticket LIST for User bob **\n\n**Sun** - "));
    assert!(!mine.contains("Moon"));
    let alices = my_tickets_text(&raffles, &tickets, "ali");
    assert!(alices.contains("alicia"));
    assert!(!alices.contains("Sun"));
    let nobody = my_tickets_text(&raffles, &tickets, "carol");
    assert_eq!(nobody, ":tickets: **Ticket LIST for User carol **\n\n");
}

#[test]
fn roster_lists_players() {
    let raffles = vec![raffle(1, "Moon", "running", 10), raffle(3, "Mars", "stopped", 5)];
    let tickets = sample_tickets();
    assert_eq!(
        roster_text(&raffles, &tickets),
        "**Ticket LIST **\n\nRaffle: ** Moon **\n> PlayerName \t TicketAmount\nalice \t\t\t 2\nalicia \t\t\t 1\nRaffle: ** Mars **\n> PlayerName \t TicketAmount\n"
    );
}

#[test]
fn short_status() {
    let raffles = vec![raffle(1, "Moon", "running", 10)];
    let tickets = sample_tickets();
    let text = short_status_text(&raffles, &tickets, &vec!["30".to_string()]);
    assert_eq!(
        text,
        format!(
            "**:tickets: Raffle Status :tickets:**\n\n:green_circle: \t**Moon** \t ID=010101010101010101010101\n\t\t  about Moon\n```Tickets SOLD: 3/10 \tprice_per_ticket: 1.5SOL\n[{}{}] 30% ```\n\n> This message will auto-update",
            "#".repeat(14),
            " ".repeat(35)
        )
    );
    assert_eq!(
        short_status_text(&Vec::new(), &tickets, &Vec::new()),
        "**:tickets: Raffle Status :tickets:**\n\n\n> This message will auto-update"
    );
}

#[test]
fn full_status() {
    let raffles = vec![raffle(1, "Moon", "paused", 10)];
    let tickets = sample_tickets();
    let text = full_status_text(&raffles, &tickets, &vec!["30".to_string()]);
    assert!(text.starts_with("**Raffle Status**\n\n**Moon** - 010101010101010101010101 red_circle\nabout Moon\n```Tickets SOLD: 3/10"));
    assert!(text.contains("1970-01-01 00:00:00 UTC"));
    assert!(text.contains("2015-05-15 00:00:00 UTC"));
    assert!(!text.contains("bob"));
    assert!(text.ends_with("``` \n"));
}
