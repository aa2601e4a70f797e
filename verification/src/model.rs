//! The record model: products, their materials, and their timeline events.
//!
//! A product's `timeline` is its append-only history: entries are only ever
//! pushed, never edited, removed or reordered. The `manufacturer` is the
//! identity currently authorized to mutate the record.

use vstd::prelude::*;
use crate::identity::Identity;

verus! {

/// Mathematical view of a [`Material`].
#[verifier::ext_equal]
pub struct MaterialView {
    pub name: Seq<char>,
    pub percentage: u32,
    pub source: Seq<char>,
}

/// One component of a product, set at creation and immutable thereafter.
pub struct Material {
    pub name: String,
    pub percentage: u32,
    pub source: String,
}

impl View for Material {
    type V = MaterialView;

    open spec fn view(&self) -> MaterialView {
        MaterialView { name: self.name@, percentage: self.percentage, source: self.source@ }
    }
}

impl Clone for Material {
    fn clone(&self) -> (r: Self)
        ensures
            r@ == self@,
    {
        Material {
            name: self.name.clone(),
            percentage: self.percentage,
            source: self.source.clone(),
        }
    }
}

/// Mathematical view of a [`TimelineEvent`].
#[verifier::ext_equal]
pub struct TimelineEventView {
    pub date: Seq<char>,
    pub event: Seq<char>,
    pub location: Seq<char>,
}

/// One immutable custody or processing entry in a product's history.
pub struct TimelineEvent {
    pub date: String,
    pub event: String,
    pub location: String,
}

impl View for TimelineEvent {
    type V = TimelineEventView;

    open spec fn view(&self) -> TimelineEventView {
        TimelineEventView { date: self.date@, event: self.event@, location: self.location@ }
    }
}

impl Clone for TimelineEvent {
    fn clone(&self) -> (r: Self)
        ensures
            r@ == self@,
    {
        TimelineEvent {
            date: self.date.clone(),
            event: self.event.clone(),
            location: self.location.clone(),
        }
    }
}

/// Mathematical view of a [`Product`].
#[verifier::ext_equal]
pub struct ProductView {
    pub id: Seq<char>,
    pub name: Seq<char>,
    pub description: Seq<char>,
    pub manufacturer: Seq<u8>,
    pub status: Seq<char>,
    pub ethical_score: u32,
    pub materials: Seq<MaterialView>,
    pub certifications: Seq<Seq<char>>,
    pub timeline: Seq<TimelineEventView>,
}

/// One traced physical item or batch.
pub struct Product {
    pub id: String,
    pub name: String,
    pub description: String,
    pub manufacturer: Identity,
    pub status: String,
    pub ethical_score: u32,
    pub materials: Vec<Material>,
    pub certifications: Vec<String>,
    pub timeline: Vec<TimelineEvent>,
}

impl View for Product {
    type V = ProductView;

    open spec fn view(&self) -> ProductView {
        ProductView {
            id: self.id@,
            name: self.name@,
            description: self.description@,
            manufacturer: self.manufacturer@,
            status: self.status@,
            ethical_score: self.ethical_score,
            materials: self.materials@.map_values(|m: Material| m@),
            certifications: self.certifications@.map_values(|c: String| c@),
            timeline: self.timeline@.map_values(|e: TimelineEvent| e@),
        }
    }
}

impl Clone for Product {
    fn clone(&self) -> (r: Self)
        ensures
            r@ == self@,
    {
        let r = Product {
            id: self.id.clone(),
            name: self.name.clone(),
            description: self.description.clone(),
            manufacturer: self.manufacturer.clone(),
            status: self.status.clone(),
            ethical_score: self.ethical_score,
            materials: self.materials.clone(),
            certifications: self.certifications.clone(),
            timeline: self.timeline.clone(),
        };
        proof {
            assert(r@.materials =~= self@.materials);
            assert(r@.certifications =~= self@.certifications);
            assert(r@.timeline =~= self@.timeline);
            assert(r@ =~= self@);
        }
        r
    }
}

/// Mathematical view of a [`TransferRequest`].
#[verifier::ext_equal]
pub struct TransferRequestView {
    pub product_id: Seq<char>,
    pub recipient: Seq<u8>,
    pub location: Seq<char>,
    pub notes: Seq<char>,
}

/// A transient request to move a product to a new holder and location.
pub struct TransferRequest {
    pub product_id: String,
    pub recipient: Identity,
    pub location: String,
    pub notes: String,
}

impl View for TransferRequest {
    type V = TransferRequestView;

    open spec fn view(&self) -> TransferRequestView {
        TransferRequestView {
            product_id: self.product_id@,
            recipient: self.recipient@,
            location: self.location@,
            notes: self.notes@,
        }
    }
}

/// Why an operation was rejected.
#[derive(Clone, Copy, Debug, PartialEq, Eq, Structural)]
pub enum Error {
    /// The referenced product identifier is absent from the store.
    ProductNotFound,
    /// The caller lacks the required relationship to the product, or is the
    /// anonymous identity.
    Unauthorized,
    /// The payload is invalid: a duplicate identifier at creation.
    InvalidInput,
}

} // verus!
