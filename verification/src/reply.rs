//! How a reply goes out, and when the status board is posted again.

use vstd::prelude::*;

use crate::text::{contains, contains_text, decimal, decimal_text};

verus! {

/// How the bot sends a reply: whether it first removes the command message, the text it
/// posts, and after how many seconds it removes the reply again, if it does.
#[derive(Debug)]
pub struct ReplyPlan {
    pub remove_command: bool,
    pub text: String,
    pub remove_reply_after: Option<u64>,
}

/// Replies destruct when the deletion setting holds the word `true`.
pub open spec fn destructs(setting: Seq<char>) -> bool {
    contains_text(setting, "true"@)
}

/// The text of a reply: when replies destruct, a notice with the delay is added.
pub open spec fn reply_text(text: Seq<char>, setting: Seq<char>, seconds: u64) -> Seq<char> {
    if destructs(setting) {
        text + "\n > this message will destruct in "@ + decimal(seconds as nat) + "s"@
    } else {
        text
    }
}

/// Plans a reply; `setting` is the deletion setting (`false` when unset) and `seconds`
/// the delay after which a destructing reply is removed.
pub fn reply_plan(text: String, setting: &str, seconds: u64) -> (p: ReplyPlan)
    ensures
        p.remove_command == destructs(setting@),
        p.text@ == reply_text(text@, setting@, seconds),
        p.remove_reply_after == if destructs(setting@) { Some(seconds) } else { None::<u64> },
{
    if contains(setting, "true") {
        let mut t = text;
        t.append("\n > this message will destruct in ");
        t.append(decimal_text(seconds).as_str());
        t.append("s");
        ReplyPlan { remove_command: true, text: t, remove_reply_after: Some(seconds) }
    } else {
        ReplyPlan { remove_command: false, text, remove_reply_after: None }
    }
}

/// With replies that do not destruct, a reply is the text unchanged and nothing is
/// removed.
pub proof fn lemma_quiet_reply_is_verbatim(text: Seq<char>, setting: Seq<char>, seconds: u64)
    requires
        !destructs(setting),
    ensures
        reply_text(text, setting, seconds) == text,
{
}

/// The status board: the message the bot keeps the short status in (0: none yet).
#[derive(Debug)]
pub struct StatusBoard {
    pub message_id: u64,
}

/// What the status loop does on a tick.
#[derive(Debug, PartialEq, Eq, Structural)]
pub enum BoardStep {
    /// Nothing changed: leave the board.
    Wait,
    /// Post the status again, after removing the message `remove` when there is one.
    Post { remove: Option<u64> },
}

/// What a tick decides for a board holding `message_id`: post again when an update was
/// asked for, removing the message posted before if there is one.
pub open spec fn board_step(message_id: u64, update_requested: bool) -> BoardStep {
    if !update_requested {
        BoardStep::Wait
    } else if message_id != 0 {
        BoardStep::Post { remove: Some(message_id) }
    } else {
        BoardStep::Post { remove: None }
    }
}

/// The message a board holds after a run of ticks from `start`: each tick is whether an
/// update was asked for and, when the status was posted, the id of the new message.
pub open spec fn board_after(start: u64, ticks: Seq<(bool, u64)>) -> u64
    decreases ticks.len(),
{
    if ticks.len() == 0 {
        start
    } else if ticks.last().0 {
        ticks.last().1
    } else {
        board_after(start, ticks.drop_last())
    }
}

/// The message of the latest tick that posted the status, if any tick did.
pub open spec fn latest_post(ticks: Seq<(bool, u64)>) -> Option<u64>
    decreases ticks.len(),
{
    if ticks.len() == 0 {
        None
    } else if ticks.last().0 {
        Some(ticks.last().1)
    } else {
        latest_post(ticks.drop_last())
    }
}

/// Over any run of ticks from an empty board, a tick without a request leaves the board,
/// and a tick with one posts the status again, removing exactly the message the latest
/// earlier post put up (none before the first post, or when that post got id 0).
pub proof fn lemma_board_removes_latest_post(ticks: Seq<(bool, u64)>, i: int)
    requires
        0 <= i < ticks.len(),
    ensures
        board_after(0, ticks.take(i)) == match latest_post(ticks.take(i)) {
            Some(id) => id,
            None => 0,
        },
        !ticks[i].0 ==> board_step(board_after(0, ticks.take(i)), false) == (BoardStep::Wait)
            && board_after(0, ticks.take(i + 1)) == board_after(0, ticks.take(i)),
        ticks[i].0 ==> board_step(board_after(0, ticks.take(i)), true) == (BoardStep::Post {
            remove: match latest_post(ticks.take(i)) {
                Some(id) => if id != 0 { Some(id) } else { None },
                None => None,
            },
        }) && board_after(0, ticks.take(i + 1)) == ticks[i].1,
    decreases i,
{
    assert(ticks.take(i + 1).drop_last() =~= ticks.take(i));
    if i > 0 {
        lemma_board_removes_latest_post(ticks, i - 1);
        assert(ticks.take(i).drop_last() =~= ticks.take(i - 1));
    }
}

impl StatusBoard {
    /// A board with no message yet.
    pub fn new() -> (b: StatusBoard)
        ensures
            b.message_id == 0,
    {
        StatusBoard { message_id: 0 }
    }

    /// The status loop runs only with a nonzero pause between ticks.
    pub fn loop_runs(pause_seconds: u64) -> (r: bool)
        ensures
            r == (pause_seconds != 0),
    {
        pause_seconds != 0
    }

    /// What to do on a tick: post again when an update was asked for, removing the
    /// message posted before if there is one.
    pub fn step(&self, update_requested: bool) -> (s: BoardStep)
        ensures
            s == board_step(self.message_id, update_requested),
    {
        if !update_requested {
            BoardStep::Wait
        } else if self.message_id != 0 {
            BoardStep::Post { remove: Some(self.message_id) }
        } else {
            BoardStep::Post { remove: None }
        }
    }

    /// Records the message the status was posted in.
    pub fn posted(&mut self, message_id: u64)
        ensures
            final(self).message_id == message_id,
    {
        self.message_id = message_id;
    }
}

} // verus!
