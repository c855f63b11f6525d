//! Counting sold tickets, the progress bar of a raffle and the export of its entrants.

use vstd::prelude::*;

use crate::model::{belongs_to, Ticket};
use crate::record_id::{same_record, RecordId};
use crate::text::{decimal, decimal_text};

verus! {

/// The number of tickets sold for a raffle: the amounts of its tickets, added up.
pub open spec fn sold(tickets: Seq<Ticket>, raffle: Seq<u8>) -> int
    decreases tickets.len(),
{
    if tickets.len() == 0 {
        0
    } else {
        sold(tickets.drop_last(), raffle) + if belongs_to(tickets.last(), raffle) {
            tickets.last().amount as int
        } else {
            0
        }
    }
}

/// No raffle has a negative number of tickets sold.
pub proof fn lemma_sold_nonnegative(tickets: Seq<Ticket>, raffle: Seq<u8>)
    ensures
        0 <= sold(tickets, raffle),
    decreases tickets.len(),
{
    if tickets.len() > 0 {
        lemma_sold_nonnegative(tickets.drop_last(), raffle);
    }
}

proof fn lemma_sold_grows(tickets: Seq<Ticket>, raffle: Seq<u8>, i: int, j: int)
    requires
        0 <= i <= j <= tickets.len(),
    ensures
        0 <= sold(tickets.take(i), raffle) <= sold(tickets.take(j), raffle),
    decreases j - i,
{
    lemma_sold_nonnegative(tickets.take(i), raffle);
    if i < j {
        lemma_sold_grows(tickets, raffle, i, j - 1);
        assert(tickets.take(j).drop_last() =~= tickets.take(j - 1));
    }
}

/// Adds up the tickets sold for a raffle.
pub fn tickets_sold(tickets: &Vec<Ticket>, raffle: &RecordId) -> (n: i32)
    requires
        sold(tickets@, raffle.bytes@) <= i32::MAX,
    ensures
        n == sold(tickets@, raffle.bytes@),
{
    let mut n: i32 = 0;
    let mut i: usize = 0;
    proof {
        assert(tickets@.take(tickets@.len() as int) =~= tickets@);
    }
    while i < tickets.len()
        invariant
            i <= tickets@.len(),
            sold(tickets@, raffle.bytes@) <= i32::MAX,
            tickets@.take(tickets@.len() as int) == tickets@,
            n == sold(tickets@.take(i as int), raffle.bytes@),
        decreases tickets@.len() - i,
    {
        proof {
            lemma_sold_grows(tickets@, raffle.bytes@, i + 1, tickets@.len() as int);
            assert(tickets@.take(i + 1).drop_last() =~= tickets@.take(i as int));
        }
        if same_record(&tickets[i].raffle_id, raffle) {
            n = n + tickets[i].amount as i32;
        }
        i = i + 1;
    }
    n
}


/// What a progress bar multiplies the sold count by: `50 / ticket_amount`, which the
/// float division of the bot truncates to that integer quotient, or `i32::MAX` when the
/// raffle has no tickets, where that division is infinite and saturates.
pub open spec fn bar_scale(ticket_amount: u16) -> int {
    if ticket_amount == 0 {
        i32::MAX as int
    } else {
        50int / (ticket_amount as int)
    }
}

/// The 49 cells of a progress bar: cell `k` (counted from 1) is filled when
/// `k < sold * scale`.
pub open spec fn bar_cells(sold: int, ticket_amount: u16) -> Seq<char> {
    Seq::new(49, |k: int| if k + 1 < sold * bar_scale(ticket_amount) { '#' } else { ' ' })
}

/// The product of the sold count and the scale fits in an `i32`, as the bot's
/// arithmetic needs.
pub open spec fn bar_fits(sold: int, ticket_amount: u16) -> bool {
    i32::MIN <= sold * bar_scale(ticket_amount) <= i32::MAX
}

/// The scale of a progress bar, as the bot computes it.
pub fn bar_scale_value(ticket_amount: u16) -> (s: i32)
    ensures
        s == bar_scale(ticket_amount),
{
    if ticket_amount == 0 {
        i32::MAX
    } else {
        (50 / ticket_amount) as i32
    }
}

/// The cells of a progress bar for a raffle with `ticket_amount` tickets of which `sold`
/// are sold.
pub fn progress_bar(sold: i32, ticket_amount: u16) -> (bar: String)
    requires
        bar_fits(sold as int, ticket_amount),
    ensures
        bar@ == bar_cells(sold as int, ticket_amount),
{
    let threshold: i32 = sold * bar_scale_value(ticket_amount);
    let mut bar = String::new();
    let mut n: i32 = 1;
    proof {
        reveal_strlit("#");
        reveal_strlit(" ");
    }
    while n < 50
        invariant
            1 <= n <= 50,
            threshold == sold * bar_scale(ticket_amount),
            bar@ == bar_cells(sold as int, ticket_amount).take(n - 1),
            "#"@ == seq!['#'],
            " "@ == seq![' '],
        decreases 50 - n,
    {
        if n < threshold {
            bar.append("#");
        } else {
            bar.append(" ");
        }
        assert(bar_cells(sold as int, ticket_amount).take(n as int) =~= bar_cells(
            sold as int,
            ticket_amount,
        ).take(n - 1).push(if n < threshold { '#' } else { ' ' }));
        n = n + 1;
    }
    assert(bar_cells(sold as int, ticket_amount).take(49) =~= bar_cells(sold as int, ticket_amount));
    bar
}

/// The progress block of a raffle: sold and offered tickets, the price, the bar and the
/// share sold, `percent` being that share already written out.
pub open spec fn progress_block(
    sold: int,
    ticket_amount: u16,
    price: Seq<char>,
    token: Seq<char>,
    percent: Seq<char>,
) -> Seq<char> {
    "```Tickets SOLD: "@ + decimal(sold as nat) + "/"@ + decimal(ticket_amount as nat) + " \t"@
        + "price_per_ticket: "@ + price + token + "\n"@ + "["@ + bar_cells(sold, ticket_amount)
        + "] "@ + percent + "% ```\n"@
}

/// Appends the progress block of a raffle to `text`.
pub fn push_progress_block(
    text: &mut String,
    sold: i32,
    ticket_amount: u16,
    price: &str,
    token: &str,
    percent: &str,
)
    requires
        0 <= sold,
        bar_fits(sold as int, ticket_amount),
    ensures
        final(text)@ == old(text)@ + progress_block(
            sold as int,
            ticket_amount,
            price@,
            token@,
            percent@,
        ),
{
    text.append("```Tickets SOLD: ");
    text.append(decimal_text(sold as u64).as_str());
    text.append("/");
    text.append(decimal_text(ticket_amount as u64).as_str());
    text.append(" \t");
    text.append("price_per_ticket: ");
    text.append(price);
    text.append(token);
    text.append("\n");
    text.append("[");
    text.append(progress_bar(sold, ticket_amount).as_str());
    text.append("] ");
    text.append(percent);
    text.append("% ```\n");
}

/// `line` written `n` times.
pub open spec fn repeated(line: Seq<char>, n: nat) -> Seq<char>
    decreases n,
{
    if n == 0 {
        Seq::empty()
    } else {
        repeated(line, (n - 1) as nat) + line
    }
}

/// The export of a raffle: for each of its tickets in order, the player's name on a line
/// of its own, once per ticket bought.
pub open spec fn export_text(tickets: Seq<Ticket>, raffle: Seq<u8>) -> Seq<char>
    decreases tickets.len(),
{
    if tickets.len() == 0 {
        Seq::empty()
    } else {
        export_text(tickets.drop_last(), raffle) + if belongs_to(tickets.last(), raffle) {
            repeated(tickets.last().username@ + "\n"@, tickets.last().amount as nat)
        } else {
            Seq::empty()
        }
    }
}

/// Writes the export file of a raffle: one line per ticket bought.
pub fn export_entries(tickets: &Vec<Ticket>, raffle: &RecordId) -> (out: String)
    ensures
        out@ == export_text(tickets@, raffle.bytes@),
{
    let mut out = String::new();
    let mut i: usize = 0;
    while i < tickets.len()
        invariant
            i <= tickets@.len(),
            out@ == export_text(tickets@.take(i as int), raffle.bytes@),
        decreases tickets@.len() - i,
    {
        let t = &tickets[i];
        let ghost before = out@;
        if same_record(&t.raffle_id, raffle) {
            let mut n: u16 = 0;
            while n < t.amount
                invariant
                    n <= t.amount,
                    out@ == before + repeated(t.username@ + "\n"@, n as nat),
                decreases t.amount - n,
            {
                out.append(t.username.as_str());
                out.append("\n");
                n = n + 1;
            }
        }
        assert(tickets@.take(i + 1).drop_last() =~= tickets@.take(i as int));
        i = i + 1;
    }
    assert(tickets@.take(tickets@.len() as int) =~= tickets@);
    out
}


/// How many times `c` occurs in `s`.
pub open spec fn occurrences(s: Seq<char>, c: char) -> nat
    decreases s.len(),
{
    if s.len() == 0 {
        0
    } else {
        occurrences(s.drop_last(), c) + if s.last() == c { 1nat } else { 0nat }
    }
}

proof fn lemma_occurrences_concat(a: Seq<char>, b: Seq<char>, c: char)
    ensures
        occurrences(a + b, c) == occurrences(a, c) + occurrences(b, c),
    decreases b.len(),
{
    if b.len() == 0 {
        assert(a + b =~= a);
    } else {
        lemma_occurrences_concat(a, b.drop_last(), c);
        assert((a + b).drop_last() =~= a + b.drop_last());
    }
}

proof fn lemma_occurrences_absent(s: Seq<char>, c: char)
    requires
        !s.contains(c),
    ensures
        occurrences(s, c) == 0,
    decreases s.len(),
{
    if s.len() > 0 {
        assert(!s.drop_last().contains(c)) by {
            if s.drop_last().contains(c) {
                let k = choose|k: int| 0 <= k < s.drop_last().len() && s.drop_last()[k] == c;
                assert(s[k] == c);
            }
        }
        lemma_occurrences_absent(s.drop_last(), c);
        assert(s[s.len() - 1] != c);
    }
}

proof fn lemma_occurrences_repeated(line: Seq<char>, n: nat, c: char)
    ensures
        occurrences(repeated(line, n), c) == n * occurrences(line, c),
    decreases n,
{
    if n > 0 {
        let m = (n - 1) as nat;
        let k = occurrences(line, c);
        lemma_occurrences_repeated(line, m, c);
        assert(repeated(line, n) == repeated(line, m) + line);
        lemma_occurrences_concat(repeated(line, m), line, c);
        assert(occurrences(repeated(line, m), c) == m * k);
        assert(occurrences(repeated(line, n), c) == m * k + k);
        assert(n * k == m * k + k) by (nonlinear_arith)
            requires
                m + 1 == n,
        ;
    } else {
        assert(repeated(line, n) == Seq::<char>::empty());
        assert(occurrences(Seq::<char>::empty(), c) == 0);
        assert(n * occurrences(line, c) == 0) by (nonlinear_arith)
            requires
                n == 0,
        ;
    }
}

/// The export of a raffle has as many lines as the raffle has tickets sold, when no
/// player's name holds a line break.
pub proof fn lemma_export_lines_are_tickets_sold(tickets: Seq<Ticket>, raffle: Seq<u8>)
    requires
        forall|i: int| 0 <= i < tickets.len() ==> !(#[trigger] tickets[i]).username@.contains('\n'),
    ensures
        occurrences(export_text(tickets, raffle), '\n') == sold(tickets, raffle),
    decreases tickets.len(),
{
    if tickets.len() > 0 {
        let rest = tickets.drop_last();
        assert forall|i: int| 0 <= i < rest.len() implies !(#[trigger] rest[i]).username@.contains('\n') by {
            assert(rest[i] == tickets[i]);
        }
        lemma_export_lines_are_tickets_sold(rest, raffle);
        let t = tickets.last();
        let tail = if belongs_to(t, raffle) {
            repeated(t.username@ + "\n"@, t.amount as nat)
        } else {
            Seq::empty()
        };
        lemma_occurrences_concat(export_text(rest, raffle), tail, '\n');
        if belongs_to(t, raffle) {
            reveal_strlit("\n");
            assert(!tickets[tickets.len() - 1].username@.contains('\n'));
            lemma_occurrences_absent(t.username@, '\n');
            lemma_occurrences_concat(t.username@, "\n"@, '\n');
            assert(occurrences(seq!['\n'], '\n') == 1) by {
                let one = seq!['\n'];
                assert(one.drop_last() =~= Seq::<char>::empty());
                assert(one.last() == '\n');
                assert(occurrences(Seq::<char>::empty(), '\n') == 0);
            }
            assert("\n"@ =~= seq!['\n']);
            assert(occurrences(t.username@ + "\n"@, '\n') == 1);
            lemma_occurrences_repeated(t.username@ + "\n"@, t.amount as nat, '\n');
            assert(occurrences(tail, '\n') == t.amount);
        } else {
            assert(occurrences(Seq::<char>::empty(), '\n') == 0);
        }
    } else {
        assert(occurrences(Seq::<char>::empty(), '\n') == 0);
    }
}

/// The progress bar fills its first `sold * scale - 1` cells, at most all 49 and none
/// when that number is not positive; the rest are blank.
pub proof fn lemma_progress_bar_fill(sold: int, ticket_amount: u16, k: int)
    requires
        0 <= k < 49,
    ensures
        bar_cells(sold, ticket_amount).len() == 49,
        (bar_cells(sold, ticket_amount)[k] == '#') <==> (k < sold * bar_scale(ticket_amount) - 1),
        (bar_cells(sold, ticket_amount)[k] == ' ') <==> !(k < sold * bar_scale(ticket_amount) - 1),
{
}


/// What one ticket adds to a raffle's sold count.
pub open spec fn contribution(t: Ticket, raffle: Seq<u8>) -> int {
    if belongs_to(t, raffle) { t.amount as int } else { 0 }
}

proof fn lemma_sold_without(tickets: Seq<Ticket>, raffle: Seq<u8>, k: int)
    requires
        0 <= k < tickets.len(),
    ensures
        sold(tickets, raffle) == sold(tickets.remove(k), raffle) + contribution(tickets[k], raffle),
    decreases tickets.len(),
{
    if k == tickets.len() - 1 {
        assert(tickets.remove(k) =~= tickets.drop_last());
    } else {
        lemma_sold_without(tickets.drop_last(), raffle, k);
        assert(tickets.remove(k).drop_last() =~= tickets.drop_last().remove(k));
        assert(tickets.remove(k).last() == tickets.last());
    }
}

/// The tickets sold for a raffle do not depend on the order of the tickets.
pub proof fn lemma_sold_ignores_order(first: Seq<Ticket>, second: Seq<Ticket>, raffle: Seq<u8>)
    requires
        first.to_multiset() == second.to_multiset(),
    ensures
        sold(first, raffle) == sold(second, raffle),
    decreases second.len(),
{
    broadcast use vstd::seq_lib::group_to_multiset_ensures;

    if second.len() == 0 {
        vstd::seq_lib::to_multiset_len(first);
        vstd::seq_lib::to_multiset_len(second);
        assert(first.len() == 0);
    } else {
        let x = second.last();
        assert(second.contains(x)) by {
            assert(second[second.len() - 1] == x);
        }
        assert(first.to_multiset().count(x) > 0);
        assert(first.contains(x));
        let k = choose|k: int| 0 <= k < first.len() && first[k] == x;
        assert(second.drop_last() =~= second.remove(second.len() - 1));
        assert(first.remove(k).to_multiset() == second.drop_last().to_multiset());
        lemma_sold_ignores_order(first.remove(k), second.drop_last(), raffle);
        lemma_sold_without(first, raffle, k);
        lemma_sold_without(second, raffle, second.len() - 1);
    }
}

/// Tickets appended after others add their own sold count.
pub proof fn lemma_sold_append(first: Seq<Ticket>, more: Seq<Ticket>, raffle: Seq<u8>)
    ensures
        sold(first + more, raffle) == sold(first, raffle) + sold(more, raffle),
    decreases more.len(),
{
    if more.len() == 0 {
        assert(first + more =~= first);
    } else {
        lemma_sold_append(first, more.drop_last(), raffle);
        assert((first + more).drop_last() =~= first + more.drop_last());
    }
}

/// Tickets none of which belongs to the raffle sell none of it.
pub proof fn lemma_sold_of_others(tickets: Seq<Ticket>, raffle: Seq<u8>)
    requires
        forall|i: int| 0 <= i < tickets.len() ==> !belongs_to(#[trigger] tickets[i], raffle),
    ensures
        sold(tickets, raffle) == 0,
    decreases tickets.len(),
{
    if tickets.len() > 0 {
        let rest = tickets.drop_last();
        assert forall|i: int| 0 <= i < rest.len() implies !belongs_to(#[trigger] rest[i], raffle) by {
            assert(rest[i] == tickets[i]);
        }
        lemma_sold_of_others(rest, raffle);
        assert(!belongs_to(tickets[tickets.len() - 1], raffle));
    }
}

/// How many cells of a progress bar are filled: `sold * scale - 1`, kept between 0 and 49.
pub open spec fn filled_cells(sold: int, ticket_amount: u16) -> int {
    let n = sold * bar_scale(ticket_amount) - 1;
    if n < 0 { 0 } else if n > 49 { 49 } else { n }
}

proof fn lemma_filled_prefix(sold: int, ticket_amount: u16, j: int)
    requires
        0 <= j <= 49,
    ensures
        occurrences(bar_cells(sold, ticket_amount).take(j), '#') == {
            let n = sold * bar_scale(ticket_amount) - 1;
            if n < 0 { 0 } else if n > j { j } else { n }
        },
    decreases j,
{
    let cells = bar_cells(sold, ticket_amount);
    if j == 0 {
        assert(cells.take(0) =~= Seq::<char>::empty());
    } else {
        lemma_filled_prefix(sold, ticket_amount, j - 1);
        assert(cells.take(j).drop_last() =~= cells.take(j - 1));
        assert(cells.take(j).last() == cells[j - 1]);
    }
}

/// A progress bar has exactly `filled_cells` cells filled.
pub proof fn lemma_progress_bar_count(sold: int, ticket_amount: u16)
    ensures
        occurrences(bar_cells(sold, ticket_amount), '#') == filled_cells(sold, ticket_amount),
{
    lemma_filled_prefix(sold, ticket_amount, 49);
    assert(bar_cells(sold, ticket_amount).take(49) =~= bar_cells(sold, ticket_amount));
}

/// Selling more never empties a cell of the progress bar, so the filled count never drops.
pub proof fn lemma_progress_bar_grows(fewer: int, more: int, ticket_amount: u16)
    requires
        0 <= fewer <= more,
    ensures
        forall|k: int|
            0 <= k < 49 && bar_cells(fewer, ticket_amount)[k] == '#' ==> #[trigger] bar_cells(
                more,
                ticket_amount,
            )[k] == '#',
        filled_cells(fewer, ticket_amount) <= filled_cells(more, ticket_amount),
{
    let scale = bar_scale(ticket_amount);
    assert(scale >= 0);
    assert(fewer * scale <= more * scale) by (nonlinear_arith)
        requires
            0 <= fewer <= more,
            scale >= 0,
    ;
}

} // verus!
