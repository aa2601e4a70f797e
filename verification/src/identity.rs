//! Caller identities.
//!
//! The boundary layer resolves the platform principal for each request and
//! hands its raw byte encoding to the library; the library never resolves
//! identities itself. The distinguished anonymous (unauthenticated) identity
//! is encoded as the single tag byte `4`, and is never authorized to mutate.

use vstd::prelude::*;

verus! {

/// The byte encoding of the distinguished anonymous identity.
pub open spec fn anonymous_id() -> Seq<u8> {
    seq![4u8]
}

/// The identity attached to a request: the raw bytes of a platform principal.
pub struct Identity {
    bytes: Vec<u8>,
}

impl View for Identity {
    type V = Seq<u8>;

    closed spec fn view(&self) -> Seq<u8> {
        self.bytes@
    }
}

impl Identity {
    /// Wraps the raw principal bytes supplied by the boundary layer.
    pub fn from_bytes(bytes: Vec<u8>) -> (r: Identity)
        ensures
            r@ == bytes@,
    {
        Identity { bytes }
    }

    /// The anonymous identity value.
    pub fn anonymous() -> (r: Identity)
        ensures
            r@ == anonymous_id(),
            r.is_anonymous(),
    {
        let mut bytes: Vec<u8> = Vec::new();
        bytes.push(4u8);
        proof {
            assert(bytes@ =~= anonymous_id());
        }
        Identity { bytes }
    }

    /// Whether this is the anonymous identity.
    pub open spec fn is_anonymous(&self) -> bool {
        self@ == anonymous_id()
    }

    /// Decides whether this identity is the anonymous one.
    pub fn check_anonymous(&self) -> (r: bool)
        ensures
            r == self.is_anonymous(),
    {
        if self.bytes.len() == 1 {
            let b = self.bytes[0];
            proof {
                if b == 4u8 {
                    assert(self.bytes@ =~= anonymous_id());
                } else {
                    assert(self.bytes@[0] != anonymous_id()[0]);
                }
            }
            b == 4
        } else {
            proof {
                assert(self@.len() != anonymous_id().len());
            }
            false
        }
    }

    /// Decides equality of two identities, byte for byte.
    pub fn same_as(&self, other: &Identity) -> (r: bool)
        ensures
            r == (self@ == other@),
    {
        if self.bytes.len() != other.bytes.len() {
            proof {
                assert(self@.len() != other@.len());
            }
            return false;
        }
        let n = self.bytes.len();
        let mut i: usize = 0;
        while i < n
            invariant
                i <= n,
                n == self.bytes@.len(),
                n == other.bytes@.len(),
                forall|j: int| 0 <= j < i ==> self.bytes@[j] == other.bytes@[j],
            decreases n - i,
        {
            if self.bytes[i] != other.bytes[i] {
                proof {
                    assert(self@[i as int] != other@[i as int]);
                }
                return false;
            }
            i += 1;
        }
        proof {
            assert(self@ =~= other@);
        }
        true
    }

    /// The raw principal bytes, for the boundary layer to convert back.
    pub fn raw_bytes(&self) -> (r: &Vec<u8>)
        ensures
            r@ == self@,
    {
        &self.bytes
    }
}

impl Clone for Identity {
    fn clone(&self) -> (r: Self)
        ensures
            r@ == self@,
    {
        let bytes = self.bytes.clone();
        proof {
            assert(bytes@ =~= self.bytes@);
        }
        Identity { bytes }
    }
}

} // verus!
