use raffle_bot::commands::{export_plan, new_ticket};
use raffle_bot::messages::roster_text;
use raffle_bot::model::Raffle;
use raffle_bot::record_id::{same_record, RecordId};
use raffle_bot::text::{
    chars_of, contains, decimal_text, parse_bool, parse_u16, parse_u64, same_text,
};

#[test]
fn decimal_text_writes_numbers() {
    assert_eq!(decimal_text(0), "0");
    assert_eq!(decimal_text(7), "7");
    assert_eq!(decimal_text(10), "10");
    assert_eq!(decimal_text(4096), "4096");
    assert_eq!(decimal_text(u64::MAX), u64::MAX.to_string());
}

#[test]
fn parse_u64_matches_std() {
    for s in ["0", "42", "+42", "007", "", "+", "-1", "-0", "4x", " 4", "18446744073709551615", "18446744073709551616", "99999999999999999999999"] {
        assert_eq!(parse_u64(s), s.parse::<u64>().ok(), "text {:?}", s);
    }
}

#[test]
fn parse_u16_matches_std() {
    for s in ["0", "65535", "65536", "+12", "abc", "", "70000000000000000000000"] {
        assert_eq!(parse_u16(s), s.parse::<u16>().ok(), "text {:?}", s);
    }
}

#[test]
fn decimal_reads_back() {
    for n in [0u64, 5, 10, 123456789, u64::MAX] {
        assert_eq!(parse_u64(&decimal_text(n)), Some(n));
    }
}

#[test]
fn parse_bool_matches_std() {
    for s in ["true", "false", "True", "", "yes", "true "] {
        assert_eq!(parse_bool(s), s.parse::<bool>().ok(), "text {:?}", s);
    }
}

#[test]
fn contains_finds_substrings() {
    assert!(contains("DELETE=true", "true"));
    assert!(contains("abc", ""));
    assert!(contains("", ""));
    assert!(!contains("", "a"));
    assert!(!contains("tru", "true"));
    assert!(contains("player#1234", "player"));
    assert!(contains("ünïcödé", "cöd"));
    assert!(!contains("aab", "abb"));
}

#[test]
fn chars_and_equality() {
    assert_eq!(chars_of("héllo"), vec!['h', 'é', 'l', 'l', 'o']);
    assert!(same_text("a", "a"));
    assert!(!same_text("a", "b"));
}

fn plan_id(text: &str) -> Option<RecordId> {
    export_plan(&vec![text.to_string()]).raffle
}

fn printed(id: RecordId) -> String {
    let raffle = Raffle {
        id,
        title: String::new(),
        description: String::new(),
        status: String::new(),
        ticket_amount: 1,
        ticket_price: "1".to_string(),
        ticket_token_name: String::new(),
        rule: String::new(),
        date_created: 0,
        date_updated: 0,
    };
    // The roster does not print ids; the list does, between "** - " and the line break.
    let text = raffle_bot::messages::ticket_list_text(&vec![raffle], &Vec::new());
    let start = text.find("** - ").unwrap() + 5;
    let end = start + text[start..].find('\n').unwrap();
    text[start..end].to_string()
}

#[test]
fn record_ids_parse() {
    let id = plan_id("0123456789abcdefABCDEF00").unwrap();
    assert_eq!(
        id.bytes,
        [0x01, 0x23, 0x45, 0x67, 0x89, 0xab, 0xcd, 0xef, 0xab, 0xcd, 0xef, 0x00]
    );
    assert!(plan_id("0123456789abcdefabcdef0").is_none());
    assert!(plan_id("0123456789abcdefabcdef000").is_none());
    assert!(plan_id("0123456789abcdefabcdef0g").is_none());
    assert!(plan_id("").is_none());
    assert!(plan_id("0").is_none());
    assert!(plan_id("0123456789abcdefabcdef0é").is_none());
}

#[test]
fn record_ids_print_and_read_back() {
    let id = RecordId { bytes: [0, 1, 2, 3, 250, 251, 252, 253, 254, 255, 16, 15] };
    let text = printed(id);
    assert_eq!(text, "00010203fafbfcfdfeff100f");
    let back = plan_id(&text).unwrap();
    assert!(same_record(&id, &back));
}

#[test]
fn fresh_ids_differ() {
    let a = new_ticket("not an id", "p", "s");
    let b = new_ticket("not an id", "p", "s");
    assert!(!same_record(&a.id, &b.id));
    assert!(!same_record(&a.raffle_id, &b.raffle_id));
    let c = a.id;
    assert!(same_record(&a.id, &c));
    assert_eq!(roster_text(&Vec::new(), &vec![a]), "**Ticket LIST **\n\n");
}
