//! The ledger's laws, stated and proved over the store's mathematical model.
//!
//! Together with the contracts of the store's operations these pin the
//! protocol down: identifiers are unique, histories only ever grow, and a
//! transfer changes nothing but the status and the history of the one
//! product it names.

use vstd::prelude::*;
use crate::model::ProductView;
use crate::model::TimelineEventView;
use crate::model::TransferRequestView;
use crate::store::appended;
use crate::store::contains_id;
use crate::store::transferred;
use crate::token::dec_str;

verus! {

/// Uniqueness: a successful creation appends its record, so its identifier
/// is present in the table afterwards. By `create_product`'s contract, a
/// later creation with the same identifier then returns `InvalidInput` and
/// leaves the table unchanged: two creations of one identifier never both
/// succeed.
pub proof fn lemma_created_id_is_present(s: Seq<ProductView>, p: ProductView, q: ProductView)
    requires
        q.id == p.id,
    ensures
        contains_id(s.push(p), q.id),
{
    assert(s.push(p)[s.len() as int].id == q.id);
}

/// Append-only history: prefixes compose, so the history observed at one
/// time is a prefix of the history observed at any later time, across any
/// sequence of transfers and appended stage events — each of which ensures
/// the one-step prefix relation for every record in the table.
pub proof fn lemma_history_prefix_transitive(
    a: Seq<TimelineEventView>,
    b: Seq<TimelineEventView>,
    c: Seq<TimelineEventView>,
)
    requires
        a.is_prefix_of(b),
        b.is_prefix_of(c),
    ensures
        a.is_prefix_of(c),
{
    assert(a =~= c.take(a.len() as int));
}

/// A transfer appends exactly one event: the history grows by one entry,
/// dated `now` and carrying the request's location, the status names the
/// new location, and the identifier and the holder stay what they were.
pub proof fn lemma_transfer_appends_one(p: ProductView, req: TransferRequestView, now: u64)
    ensures
        transferred(p, req, now).timeline.len() == p.timeline.len() + 1,
        p.timeline.is_prefix_of(transferred(p, req, now).timeline),
        transferred(p, req, now).timeline.last() == (TimelineEventView {
            date: dec_str(now),
            event: "Transfer"@,
            location: req.location,
        }),
        transferred(p, req, now).id == p.id,
        transferred(p, req, now).name == p.name,
        transferred(p, req, now).manufacturer == p.manufacturer,
        transferred(p, req, now).status == "Transferred to "@ + req.location,
{
    assert(p.timeline =~= transferred(p, req, now).timeline.take(p.timeline.len() as int));
}

/// An appended stage event extends the history by exactly that entry and
/// changes nothing else about the record.
pub proof fn lemma_append_appends_one(p: ProductView, e: TimelineEventView)
    ensures
        appended(p, e).timeline.len() == p.timeline.len() + 1,
        p.timeline.is_prefix_of(appended(p, e).timeline),
        appended(p, e).timeline.last() == e,
        appended(p, e).id == p.id,
        appended(p, e).manufacturer == p.manufacturer,
        appended(p, e).status == p.status,
{
    assert(p.timeline =~= appended(p, e).timeline.take(p.timeline.len() as int));
}

} // verus!
