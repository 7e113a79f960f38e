//! The bodies that the services send back, as plain values.
use vstd::prelude::*;

use crate::fresh::random_uuid;
use crate::record::Record;
use crate::store::Store;

verus! {

/// What a health check reports.
#[derive(Clone, Debug, PartialEq, Eq)]
pub struct Health {
    pub ok: bool,
    pub service: String,
    pub stack: String,
}

/// The receipt for a message handed to the messaging service.
#[derive(Clone, Debug, PartialEq, Eq)]
pub struct MessageReceipt {
    pub success: bool,
    pub message_id: String,
    pub service: String,
}

/// Every stored user, with their number.
#[derive(Clone, Debug, PartialEq, Eq)]
pub struct UserListing {
    pub success: bool,
    pub users: Vec<Record>,
    pub service: String,
    pub count: usize,
}

/// A healthy report for `service`, running on the Rust stack.
pub fn health(service: &str) -> (r: Health)
    ensures
        r.ok,
        r.service@ == service@,
        r.stack@ == "Rust"@,
{
    Health { ok: true, service: String::from_str(service), stack: String::from_str("Rust") }
}

/// The message id built from a UUID: `msg_` followed by the UUID.
pub fn message_id(uuid: &str) -> (r: String)
    ensures
        r@ == "msg_"@ + uuid@,
{
    let mut r = String::from_str("msg_");
    r.append(uuid);
    r
}

/// Accepts a message for `service` under a fresh random message id.
pub fn send_message(service: &str) -> (r: MessageReceipt)
    ensures
        r.success,
        r.service@ == service@,
        r.message_id@.len() == 40,
        r.message_id@.subrange(0, 4) == "msg_"@,
{
    let uuid = random_uuid();
    let id = message_id(uuid.as_str());
    proof {
        reveal_strlit("msg_");
        assert(id@.subrange(0, 4) =~= "msg_"@);
    }
    MessageReceipt { success: true, message_id: id, service: String::from_str(service) }
}

/// Lists every record of `store`, oldest first, with their count.
pub fn user_listing(store: &Store, service: &str) -> (r: UserListing)
    ensures
        r.success,
        r.users@.map_values(|x: Record| x@) == store@,
        r.count == store@.len(),
        r.service@ == service@,
{
    let users = store.list();
    let count = users.len();
    UserListing { success: true, users, service: String::from_str(service), count }
}

} // verus!
