//! The provenance store: the single source of truth for all product records.
//!
//! The store owns the table of records and enforces the ledger's invariants
//! under every mutation path: identifiers are unique for the life of the
//! store, histories are append-only, and every mutation passes the
//! authorization gate before it is applied. Mutations are all-or-nothing: a
//! rejected request leaves the table exactly as it was.

use vstd::prelude::*;
use vstd::string::StringExecFns;
use crate::auth::authorize_create;
use crate::auth::authorize_mutation;
use crate::identity::Identity;
use crate::model::Error;
use crate::model::Product;
use crate::model::ProductView;
use crate::model::TimelineEvent;
use crate::model::TimelineEventView;
use crate::model::TransferRequest;
use crate::model::TransferRequestView;
use crate::token::dec_str;
use crate::token::render_u64;

verus! {

/// Whether appending a stage event is gated on the current holder.
#[derive(Clone, Copy, Debug, PartialEq, Eq, Structural)]
pub enum AppendPolicy {
    /// Only the current holder may append an event (the default).
    OwnerGated,
    /// Any caller may append an event.
    Open,
}

/// Whether `s` holds a record with identifier `id`.
pub open spec fn contains_id(s: Seq<ProductView>, id: Seq<char>) -> bool {
    exists|i: int| 0 <= i < s.len() && s[i].id == id
}

/// The index of the record with identifier `id`, where one exists and
/// identifiers are unique.
pub open spec fn id_index(s: Seq<ProductView>, id: Seq<char>) -> int {
    choose|i: int| 0 <= i < s.len() && s[i].id == id
}

/// The record with identifier `id`, where one exists and identifiers are
/// unique.
pub open spec fn product_with_id(s: Seq<ProductView>, id: Seq<char>) -> ProductView {
    s[id_index(s, id)]
}

/// No two records share an identifier.
pub open spec fn unique_ids(s: Seq<ProductView>) -> bool {
    forall|i: int, j: int|
        #![trigger s[i].id, s[j].id]
        0 <= i < s.len() && 0 <= j < s.len() && i != j ==> s[i].id != s[j].id
}

/// Pins down the index that `id_index` denotes when `id` is present under
/// unique identifiers.
pub proof fn lemma_id_index(s: Seq<ProductView>, id: Seq<char>, i: int)
    requires
        unique_ids(s),
        0 <= i < s.len(),
        s[i].id == id,
    ensures
        contains_id(s, id),
        id_index(s, id) == i,
        product_with_id(s, id) == s[i],
{
    assert(contains_id(s, id));
    let k = id_index(s, id);
    assert(0 <= k < s.len() && s[k].id == id);
}

/// A product after a transfer: the status names the new location, exactly
/// one transfer event is appended, and every other field — the identifier
/// and the holder included — is unchanged.
pub open spec fn transferred(p: ProductView, req: TransferRequestView, now: u64) -> ProductView {
    ProductView {
        status: "Transferred to "@ + req.location,
        timeline: p.timeline.push(
            TimelineEventView { date: dec_str(now), event: "Transfer"@, location: req.location },
        ),
        ..p
    }
}

/// A product after a stage event is appended: the event is pushed onto the
/// timeline and every other field is unchanged.
pub open spec fn appended(p: ProductView, e: TimelineEventView) -> ProductView {
    ProductView { timeline: p.timeline.push(e), ..p }
}

/// The table of product records, with its append policy.
pub struct ProvenanceStore {
    products: Vec<Product>,
    policy: AppendPolicy,
}

impl View for ProvenanceStore {
    type V = Seq<ProductView>;

    closed spec fn view(&self) -> Seq<ProductView> {
        self.products@.map_values(|p: Product| p@)
    }
}

impl ProvenanceStore {
    /// The append policy the store was created with.
    pub closed spec fn policy(&self) -> AppendPolicy {
        self.policy
    }

    /// The store's invariant: identifiers are unique across the table.
    pub open spec fn wf(&self) -> bool {
        unique_ids(self@)
    }

    /// An empty store under the given append policy.
    pub fn new(policy: AppendPolicy) -> (r: ProvenanceStore)
        ensures
            r@ == Seq::<ProductView>::empty(),
            r.wf(),
            r.policy() == policy,
    {
        let r = ProvenanceStore { products: Vec::new(), policy };
        proof {
            assert(r@ =~= Seq::<ProductView>::empty());
        }
        r
    }

    /// Finds the position of the record with identifier `id`, if any.
    fn find_index(&self, id: &String) -> (r: Option<usize>)
        ensures
            match r {
                Some(i) => 0 <= i < self@.len() && self@[i as int].id == id@,
                None => !contains_id(self@, id@),
            },
    {
        let n = self.products.len();
        let mut i: usize = 0;
        while i < n
            invariant
                i <= n,
                n == self@.len(),
                forall|j: int| 0 <= j < i ==> self@[j].id != id@,
            decreases n - i,
        {
            let p = &self.products[i];
            if p.id.eq(id) {
                return Some(i);
            }
            i += 1;
        }
        None
    }

    /// Registers a new product.
    ///
    /// Rejected with `Unauthorized` for the anonymous caller and with
    /// `InvalidInput` for a duplicate identifier; in both cases the table is
    /// unchanged. On success the record is stored verbatim at the end of the
    /// table.
    pub fn create_product(&mut self, caller: &Identity, product: Product) -> (r: Result<
        String,
        Error,
    >)
        requires
            old(self).wf(),
        ensures
            final(self).wf(),
            final(self).policy() == old(self).policy(),
            caller.is_anonymous() ==> r == Err::<String, Error>(Error::Unauthorized) && final(self)@ == old(self)@,
            !caller.is_anonymous() && contains_id(old(self)@, product@.id) ==> r == Err::<
                String,
                Error,
            >(Error::InvalidInput) && final(self)@ == old(self)@,
            !caller.is_anonymous() && !contains_id(old(self)@, product@.id) ==> (r matches Ok(m)
                && m@ == "Product created successfully"@) && final(self)@ == old(self)@.push(
                product@,
            ),
            old(self)@.len() <= final(self)@.len(),
            forall|k: int| 0 <= k < old(self)@.len() ==> final(self)@[k] == old(self)@[k],
    {
        let ghost pv = product@;
        if let Err(e) = authorize_create(caller) {
            return Err(e);
        }
        match self.find_index(&product.id) {
            Some(_) => Err(Error::InvalidInput),
            None => {
                self.products.push(product);
                proof {
                    assert(self@ =~= old(self)@.push(pv));
                }
                Ok(String::from_str("Product created successfully"))
            },
        }
    }

    /// Looks a record up by exact identifier match.
    ///
    /// Returns a full copy of the record, or `ProductNotFound` when the
    /// identifier was never created.
    pub fn get_product(&self, id: &String) -> (r: Result<Product, Error>)
        requires
            self.wf(),
        ensures
            contains_id(self@, id@) ==> (r matches Ok(p) && p@ == product_with_id(self@, id@)),
            !contains_id(self@, id@) ==> r == Err::<Product, Error>(Error::ProductNotFound),
    {
        match self.find_index(id) {
            Some(i) => {
                proof {
                    lemma_id_index(self@, id@, i as int);
                }
                let p = &self.products[i];
                Ok(p.clone())
            },
            None => Err(Error::ProductNotFound),
        }
    }

    /// Returns a full snapshot of all records, in insertion order.
    pub fn get_products(&self) -> (r: Vec<Product>)
        ensures
            r@.map_values(|p: Product| p@) == self@,
    {
        let r = self.products.clone();
        proof {
            assert forall|i: int| 0 <= i < r@.len() implies r@[i]@ == self.products@[i]@ by {
                assert(vstd::pervasive::cloned::<Product>(self.products@[i], r@[i]));
            }
            assert(r@.map_values(|p: Product| p@) =~= self@);
        }
        r
    }

    /// Returns the full, ordered history of a product, or the empty sequence
    /// when the identifier is unknown — a soft miss, in contrast with
    /// `get_product`'s hard `ProductNotFound`.
    pub fn get_history(&self, product_id: &String) -> (r: Vec<TimelineEvent>)
        requires
            self.wf(),
        ensures
            contains_id(self@, product_id@) ==> r@.map_values(|e: TimelineEvent| e@)
                == product_with_id(self@, product_id@).timeline,
            !contains_id(self@, product_id@) ==> r@ == Seq::<TimelineEvent>::empty(),
    {
        match self.find_index(product_id) {
            Some(i) => {
                proof {
                    lemma_id_index(self@, product_id@, i as int);
                }
                let p = &self.products[i];
                let r = p.timeline.clone();
                proof {
                    assert forall|k: int| 0 <= k < r@.len() implies r@[k]@ == p.timeline@[k]@ by {
                        assert(vstd::pervasive::cloned::<TimelineEvent>(p.timeline@[k], r@[k]));
                    }
                    assert(r@.map_values(|e: TimelineEvent| e@) =~= product_with_id(
                        self@,
                        product_id@,
                    ).timeline);
                }
                r
            },
            None => {
                let r: Vec<TimelineEvent> = Vec::new();
                proof {
                    assert(r@ =~= Seq::<TimelineEvent>::empty());
                }
                r
            },
        }
    }

    /// Transfers custody of a product to a new location.
    ///
    /// Rejected with `ProductNotFound` for an unknown identifier and with
    /// `Unauthorized` whenever the caller is not the current holder; in both
    /// cases the table is unchanged. On success the status names the new
    /// location and exactly one transfer event, dated `now`, is appended to
    /// the history; the identifier and the holder of every record — the
    /// transferred one included — stay as they were.
    pub fn transfer_product(&mut self, caller: &Identity, request: TransferRequest, now: u64) -> (r:
        Result<String, Error>)
        requires
            old(self).wf(),
        ensures
            final(self).wf(),
            final(self).policy() == old(self).policy(),
            !contains_id(old(self)@, request@.product_id) ==> r == Err::<String, Error>(
                Error::ProductNotFound,
            ) && final(self)@ == old(self)@,
            contains_id(old(self)@, request@.product_id) && product_with_id(
                old(self)@,
                request@.product_id,
            ).manufacturer != caller@ ==> r == Err::<String, Error>(Error::Unauthorized) && final(self)@ == old(self)@,
            contains_id(old(self)@, request@.product_id) && product_with_id(
                old(self)@,
                request@.product_id,
            ).manufacturer == caller@ ==> (r matches Ok(m) && m@
                == "Product transferred successfully"@) && final(self)@ == old(self)@.update(
                id_index(old(self)@, request@.product_id),
                transferred(product_with_id(old(self)@, request@.product_id), request@, now),
            ),
            final(self)@.len() == old(self)@.len(),
            forall|k: int|
                0 <= k < old(self)@.len() ==> old(self)@[k].timeline.is_prefix_of(
                    final(self)@[k].timeline,
                ),
            forall|k: int|
                0 <= k < old(self)@.len() ==> final(self)@[k].id == old(self)@[k].id
                    && final(self)@[k].manufacturer == old(self)@[k].manufacturer,
    {
        let ghost rq = request@;
        let idx = match self.find_index(&request.product_id) {
            None => {
                return Err(Error::ProductNotFound);
            },
            Some(i) => i,
        };
        proof {
            lemma_id_index(self@, rq.product_id, idx as int);
        }
        let gate = {
            let p = &self.products[idx];
            authorize_mutation(caller, p)
        };
        if let Err(e) = gate {
            return Err(e);
        }
        let ghost s0 = self@;
        let new_status = String::from_str("Transferred to ").concat(request.location.as_str());
        let date = render_u64(now);
        let ev = TimelineEvent { date, event: String::from_str("Transfer"), location: request.location };
        let ghost evv = ev@;
        let mut p = self.products.remove(idx);
        p.status = new_status;
        p.timeline.push(ev);
        let ghost pv2 = p@;
        self.products.insert(idx, p);
        proof {
            assert(evv == TimelineEventView {
                date: dec_str(now),
                event: "Transfer"@,
                location: rq.location,
            });
            assert(pv2.timeline =~= s0[idx as int].timeline.push(evv));
            assert(pv2 =~~= transferred(s0[idx as int], rq, now));
            assert(self@ =~= s0.update(idx as int, pv2));
            assert forall|k: int|
                0 <= k < s0.len() implies s0[k].timeline.is_prefix_of(self@[k].timeline) by {
                assert(s0[k].timeline =~= self@[k].timeline.take(s0[k].timeline.len() as int));
            }
        }
        Ok(String::from_str("Product transferred successfully"))
    }

    /// Appends one stage event to a product's history.
    ///
    /// Rejected with `ProductNotFound` for an unknown identifier, and — under
    /// the `OwnerGated` policy — with `Unauthorized` whenever the caller is
    /// not the current holder; in both cases the table is unchanged. On
    /// success the event is appended and every other field of every record is
    /// unchanged.
    pub fn append_event(&mut self, caller: &Identity, product_id: &String, event: TimelineEvent) -> (r:
        Result<(), Error>)
        requires
            old(self).wf(),
        ensures
            final(self).wf(),
            final(self).policy() == old(self).policy(),
            !contains_id(old(self)@, product_id@) ==> r == Err::<(), Error>(Error::ProductNotFound)
                && final(self)@ == old(self)@,
            contains_id(old(self)@, product_id@) && old(self).policy() == AppendPolicy::OwnerGated
                && product_with_id(old(self)@, product_id@).manufacturer != caller@ ==> r == Err::<
                (),
                Error,
            >(Error::Unauthorized) && final(self)@ == old(self)@,
            contains_id(old(self)@, product_id@) && (old(self).policy() == AppendPolicy::Open
                || product_with_id(old(self)@, product_id@).manufacturer == caller@) ==> r == Ok::<
                (),
                Error,
            >(()) && final(self)@ == old(self)@.update(
                id_index(old(self)@, product_id@),
                appended(product_with_id(old(self)@, product_id@), event@),
            ),
            final(self)@.len() == old(self)@.len(),
            forall|k: int|
                0 <= k < old(self)@.len() ==> old(self)@[k].timeline.is_prefix_of(
                    final(self)@[k].timeline,
                ),
            forall|k: int|
                0 <= k < old(self)@.len() ==> final(self)@[k].id == old(self)@[k].id
                    && final(self)@[k].manufacturer == old(self)@[k].manufacturer && final(self)@[k].status == old(self)@[k].status,
    {
        let ghost ev = event@;
        let idx = match self.find_index(product_id) {
            None => {
                return Err(Error::ProductNotFound);
            },
            Some(i) => i,
        };
        proof {
            lemma_id_index(self@, product_id@, idx as int);
        }
        let gated = match self.policy {
            AppendPolicy::OwnerGated => true,
            AppendPolicy::Open => false,
        };
        if gated {
            let gate = {
                let p = &self.products[idx];
                authorize_mutation(caller, p)
            };
            if let Err(e) = gate {
                return Err(e);
            }
        }
        let ghost s0 = self@;
        let mut p = self.products.remove(idx);
        p.timeline.push(event);
        let ghost pv2 = p@;
        self.products.insert(idx, p);
        proof {
            assert(pv2.timeline =~= s0[idx as int].timeline.push(ev));
            assert(pv2 =~~= appended(s0[idx as int], ev));
            assert(self@ =~= s0.update(idx as int, pv2));
            assert forall|k: int|
                0 <= k < s0.len() implies s0[k].timeline.is_prefix_of(self@[k].timeline) by {
                assert(s0[k].timeline =~= self@[k].timeline.take(s0[k].timeline.len() as int));
            }
        }
        Ok(())
    }
}

} // verus!
