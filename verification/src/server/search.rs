//! The tag search route.
use vstd::prelude::*;
use crate::server::reply::{status_only, Payload, Reply, Status};

verus! {

/// The reply to a tag list search whose path holds `attr` or not: without
/// it 400, with it 200 and the JSON string `"{}"`.
pub fn search_tag_list(attr: Option<&str>) -> (r: Reply)
    ensures
        match attr {
            None => status_only(r, Status::BadRequest),
            Some(_) => r.status == Status::Success && (r.payload matches Payload::JsonText(t) && t@ == "{}"@),
        },
{
    match attr {
        Some(_) => Reply { status: Status::Success, payload: Payload::JsonText(String::from_str("{}")) },
        None => Reply::status(Status::BadRequest),
    }
}

} // verus!
