//! The records that the raffle service keeps.

use vstd::prelude::*;

use crate::record_id::RecordId;

verus! {

/// A raffle. Its price is held as the text the bot shows for it.
#[derive(Debug)]
pub struct Raffle {
    pub id: RecordId,
    pub title: String,
    pub description: String,
    pub status: String,
    pub ticket_amount: u16,
    pub ticket_price: String,
    pub ticket_token_name: String,
    pub rule: String,
    pub date_created: u64,
    pub date_updated: u64,
}

/// A ticket bought in a raffle by a player.
#[derive(Debug)]
pub struct Ticket {
    pub id: RecordId,
    pub raffle_id: RecordId,
    pub username: String,
    pub spl_tx_signature: String,
    pub amount: u16,
    pub date_created: u64,
    pub date_updated: u64,
}

/// The ticket belongs to the raffle with this id.
pub open spec fn belongs_to(ticket: Ticket, raffle: Seq<u8>) -> bool {
    ticket.raffle_id.bytes@ == raffle
}

} // verus!
