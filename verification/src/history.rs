//! What the gateway answers around its search-history store.  The store
//! itself is the caller's: this module only decides the reply from whether
//! the store did what was asked.

use vstd::prelude::*;

verus! {

/// How many searches a listing of recent ones holds at most.
pub const RECENT_SEARCH_LIMIT: u32 = 10;

/// The status sent with a record that was created.
pub const STATUS_CREATED: u16 = 201;

/// What is answered around the store: the status, and the error text where
/// the store failed.  On success the body is what the store handed back.
#[derive(Clone, Debug, PartialEq, Eq)]
pub struct StoreReply {
    pub http_status: u16,
    pub error: Option<String>,
}

/// The mathematical content of a [`StoreReply`].
pub struct StoreReplyView {
    pub http_status: u16,
    pub error: Option<Seq<char>>,
}

impl View for StoreReply {
    type V = StoreReplyView;

    open spec fn view(&self) -> StoreReplyView {
        StoreReplyView {
            http_status: self.http_status,
            error: match self.error {
                Some(text) => Some(text@),
                None => None,
            },
        }
    }
}

/// The reply to a request to record a search: 201 where the store took the
/// record, 500 with a fixed text where it did not.
pub open spec fn creation_reply(stored: bool) -> StoreReplyView {
    if stored {
        StoreReplyView { http_status: 201, error: None }
    } else {
        StoreReplyView { http_status: 500, error: Some("Failed to create record"@) }
    }
}

/// The reply to a request for the recent searches: 200 where the store
/// listed them, 500 with a fixed text where it did not.
pub open spec fn listing_reply(listed: bool) -> StoreReplyView {
    if listed {
        StoreReplyView { http_status: 200, error: None }
    } else {
        StoreReplyView { http_status: 500, error: Some("Failed to fetch records"@) }
    }
}

/// Decides the reply to a request to record a search.
pub fn create_search_history(stored: bool) -> (reply: StoreReply)
    ensures
        reply@ == creation_reply(stored),
{
    if stored {
        StoreReply { http_status: STATUS_CREATED, error: None }
    } else {
        StoreReply { http_status: 500, error: Some(String::from_str("Failed to create record")) }
    }
}

/// Decides the reply to a request for the recent searches.
pub fn get_recent_searches(listed: bool) -> (reply: StoreReply)
    ensures
        reply@ == listing_reply(listed),
{
    if listed {
        StoreReply { http_status: 200, error: None }
    } else {
        StoreReply { http_status: 500, error: Some(String::from_str("Failed to fetch records")) }
    }
}

} // verus!
