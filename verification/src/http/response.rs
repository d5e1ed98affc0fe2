//! The success envelope. Every success carries the request's id; every successful change
//! also carries the transaction id, so a client's retry and the logs share one name for it.

use vstd::prelude::*;

use crate::error::StatusCode;
use crate::http::request_id::TransactionId;
use crate::ident::uuid_text;

verus! {

/// What a success answers with.
#[derive(Debug, Clone, PartialEq, Eq)]
pub struct Envelope<T> {
    pub data: T,
    pub request_id: String,
    /// Present on changes only; a read never advertises a transaction.
    pub transaction_id: Option<String>,
}

/// A read that succeeded.
#[derive(Debug, Clone, PartialEq, Eq)]
pub struct ApiOk<T>(pub T);

/// A change that succeeded; `status` tells 200 from 201.
#[derive(Debug, Clone, PartialEq, Eq)]
pub struct ApiMutation<T> {
    pub data: T,
    pub status: StatusCode,
    pub transaction_id: TransactionId,
}

pub open spec fn request_id_text(request_id: Option<String>) -> Seq<char> {
    match request_id {
        Some(r) => r@,
        None => Seq::empty(),
    }
}

fn request_id_string(request_id: Option<String>) -> (s: String)
    ensures
        s@ == request_id_text(request_id),
{
    match request_id {
        Some(r) => r,
        None => String::new(),
    }
}

impl<T> ApiOk<T> {
    /// The envelope of a read answered within a request with this id (empty outside one).
    pub fn envelope(self, request_id: Option<String>) -> (e: Envelope<T>)
        ensures
            e.data == self.0,
            e.request_id@ == request_id_text(request_id),
            e.transaction_id is None,
    {
        Envelope { data: self.0, request_id: request_id_string(request_id), transaction_id: None }
    }
}

impl<T> ApiMutation<T> {
    pub fn ok(data: T, transaction_id: TransactionId) -> (m: ApiMutation<T>)
        ensures
            m.data == data,
            m.status.0 == 200,
            m.transaction_id == transaction_id,
    {
        ApiMutation { data, status: StatusCode(200), transaction_id }
    }

    pub fn created(data: T, transaction_id: TransactionId) -> (m: ApiMutation<T>)
        ensures
            m.data == data,
            m.status.0 == 201,
            m.transaction_id == transaction_id,
    {
        ApiMutation { data, status: StatusCode(201), transaction_id }
    }

    /// The status and envelope of a change answered within a request with this id; the
    /// envelope names the transaction.
    pub fn envelope(self, request_id: Option<String>) -> (r: (StatusCode, Envelope<T>))
        ensures
            r.0 == self.status,
            r.1.data == self.data,
            r.1.request_id@ == request_id_text(request_id),
            r.1.transaction_id matches Some(t) && t@ == uuid_text(self.transaction_id.0),
    {
        let transaction = self.transaction_id.to_string();
        (self.status, Envelope { data: self.data, request_id: request_id_string(request_id), transaction_id: Some(transaction) })
    }
}

} // verus!
