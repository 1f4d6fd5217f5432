//! What a client asks of the server.

use vstd::prelude::*;
use crate::value::{Value, ValueView};

verus! {

/// One request, as the codec is to serialise it.
#[derive(Debug, PartialEq, Eq)]
pub enum Request {
    /// Fetch what is stored under `key`.
    Read { key: u32 },
    /// Store `data` under `key`, issued at the time `iat`.
    Write { key: u32, data: Value, iat: u64 },
}

/// What a [`Request`] holds, as a mathematical value.
pub enum RequestView {
    Read { key: u32 },
    Write { key: u32, data: ValueView, iat: u64 },
}

impl RequestView {
    /// The key that the request is about.
    pub open spec fn key(self) -> u32 {
        match self {
            RequestView::Read { key } => key,
            RequestView::Write { key, .. } => key,
        }
    }
}

impl View for Request {
    type V = RequestView;

    open spec fn view(&self) -> RequestView {
        match self {
            Request::Read { key } => RequestView::Read { key: *key },
            Request::Write { key, data, iat } => RequestView::Write {
                key: *key,
                data: data@,
                iat: *iat,
            },
        }
    }
}

impl Request {
    /// The key that the request is about.
    pub fn key(&self) -> (key: u32)
        ensures
            key == self@.key(),
    {
        match self {
            Request::Read { key } => *key,
            Request::Write { key, .. } => *key,
        }
    }
}

impl Clone for Request {
    /// A second request that asks the same.
    fn clone(&self) -> (copy: Request)
        ensures
            copy@ == self@,
    {
        match self {
            Request::Read { key } => Request::Read { key: *key },
            Request::Write { key, data, iat } => Request::Write {
                key: *key,
                data: data.clone(),
                iat: *iat,
            },
        }
    }
}

} // verus!
