//! The requests the bot sends to the raffle service.

use vstd::prelude::*;

use crate::model::Ticket;

verus! {

/// The HTTP method of a request.
#[derive(Clone, Copy, Debug, PartialEq, Eq, Structural)]
pub enum Method {
    Get,
    Post,
    Patch,
    Delete,
}

/// A call to the raffle service.
#[derive(Debug)]
pub enum ApiCall {
    /// Store a new raffle (the raffle goes in the body).
    AddRaffle,
    /// Store a new ticket (the ticket goes in the body).
    AddTicket,
    /// Fetch the raffles this id selects (`0`: all).
    GetRaffle(String),
    /// Fetch the tickets this id selects (`0`: all).
    GetTicket(String),
    /// Delete the raffle with this id.
    DeleteRaffle(String),
    /// Replace the raffle with this id (the raffle goes in the body).
    UpdateRaffle(String),
    /// Delete the ticket with this id.
    DeleteTicket(String),
}

/// A request: its method and its address.
#[derive(Debug)]
pub struct ApiRequest {
    pub method: Method,
    pub url: String,
}

/// The method and address of a call, below the service's base address `base`.
pub open spec fn request_for(base: Seq<char>, call: ApiCall) -> (Method, Seq<char>) {
    match call {
        ApiCall::AddRaffle => (Method::Post, base + "/raffle"@),
        ApiCall::AddTicket => (Method::Post, base + "/ticket"@),
        ApiCall::GetRaffle(id) => (Method::Get, base + "/raffle/"@ + id@),
        ApiCall::GetTicket(id) => (Method::Get, base + "/ticket/"@ + id@),
        ApiCall::DeleteRaffle(id) => (Method::Delete, base + "/raffle/"@ + id@),
        ApiCall::UpdateRaffle(id) => (Method::Patch, base + "/raffle/"@ + id@),
        ApiCall::DeleteTicket(id) => (Method::Delete, base + "/ticket/"@ + id@),
    }
}

fn address(base: &str, path: &str, id: Option<&String>) -> (u: String)
    ensures
        u@ == base@ + path@ + match id {
            Some(i) => i@,
            None => Seq::<char>::empty(),
        },
{
    let mut u = String::from_str(base);
    u.append(path);
    match id {
        Some(i) => u.append(i.as_str()),
        None => {},
    }
    u
}

/// The request for a call.
pub fn api_request(base: &str, call: &ApiCall) -> (r: ApiRequest)
    ensures
        (r.method, r.url@) == request_for(base@, *call),
{
    match call {
        ApiCall::AddRaffle => ApiRequest { method: Method::Post, url: address(base, "/raffle", None) },
        ApiCall::AddTicket => ApiRequest { method: Method::Post, url: address(base, "/ticket", None) },
        ApiCall::GetRaffle(id) => ApiRequest { method: Method::Get, url: address(base, "/raffle/", Some(id)) },
        ApiCall::GetTicket(id) => ApiRequest { method: Method::Get, url: address(base, "/ticket/", Some(id)) },
        ApiCall::DeleteRaffle(id) => ApiRequest {
            method: Method::Delete,
            url: address(base, "/raffle/", Some(id)),
        },
        ApiCall::UpdateRaffle(id) => ApiRequest {
            method: Method::Patch,
            url: address(base, "/raffle/", Some(id)),
        },
        ApiCall::DeleteTicket(id) => ApiRequest {
            method: Method::Delete,
            url: address(base, "/ticket/", Some(id)),
        },
    }
}

/// The answer to a ticket update, which the service does not offer.
pub fn update_ticket(ticket: &Ticket) -> (answer: String)
    ensures
        answer@ == "NOT-IMPLEMENTED"@,
{
    String::from_str("NOT-IMPLEMENTED")
}

} // verus!
