//! The payload buffer of a frame.

use vstd::prelude::*;

verus! {

/// Payload bytes of one frame.
#[derive(Clone, Debug)]
pub struct MspPacketData(pub Vec<u8>);

impl View for MspPacketData {
    type V = Seq<u8>;

    open spec fn view(&self) -> Seq<u8> {
        self.0@
    }
}

impl MspPacketData {
    /// An empty payload.
    pub fn new() -> (r: MspPacketData)
        ensures
            r@ == Seq::<u8>::empty(),
    {
        MspPacketData(Vec::new())
    }

    /// A payload holding a copy of the given bytes.
    pub fn from_slice(data: &[u8]) -> (r: MspPacketData)
        ensures
            r@ == data@,
    {
        let mut v: Vec<u8> = Vec::new();
        let mut i: usize = 0;
        while i < data.len()
            invariant
                i <= data@.len(),
                v@ == data@.take(i as int),
            decreases data@.len() - i,
        {
            v.push(data[i]);
            i = i + 1;
            proof {
                assert(v@ =~= data@.take(i as int));
            }
        }
        proof {
            assert(v@ =~= data@);
        }
        MspPacketData(v)
    }

    /// The payload bytes.
    pub fn as_slice(&self) -> (r: &[u8])
        ensures
            r@ == self@,
    {
        self.0.as_slice()
    }

    /// The number of payload bytes.
    pub fn len(&self) -> (r: usize)
        ensures
            r == self@.len(),
    {
        self.0.len()
    }
}

impl PartialEq for MspPacketData {
    /// Two payloads are equal when they hold the same bytes.
    fn eq(&self, other: &MspPacketData) -> (r: bool) {
        if self.0.len() != other.0.len() {
            return false;
        }
        let n = self.0.len();
        let mut i: usize = 0;
        while i < n
            invariant
                n == self.0@.len(),
                n == other.0@.len(),
                i <= n,
                forall|k: int| 0 <= k < i ==> self.0@[k] == other.0@[k],
            decreases n - i,
        {
            if self.0[i] != other.0[i] {
                return false;
            }
            i = i + 1;
        }
        proof {
            assert(self.0@ =~= other.0@);
        }
        true
    }
}

impl vstd::std_specs::cmp::PartialEqSpecImpl for MspPacketData {
    open spec fn obeys_eq_spec() -> bool {
        true
    }

    open spec fn eq_spec(&self, other: &MspPacketData) -> bool {
        self.0@ == other.0@
    }
}

} // verus!
