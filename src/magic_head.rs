use vstd::prelude::*;

verus! {

/// The bytes of the magic header: `6A 2D 77 79`, the text "j-wy".
pub open spec fn magic_bytes() -> Seq<u8> {
    seq![0x6au8, 0x2du8, 0x77u8, 0x79u8]
}

/// Length of the magic header in bytes.
pub const MAGIC_LEN: usize = 4;

/// A reply is valid when its payload begins with the magic header.
pub open spec fn is_valid_reply(payload: Seq<u8>) -> bool {
    payload.len() >= MAGIC_LEN && payload.subrange(0, MAGIC_LEN as int) == magic_bytes()
}

/// The fixed payload of every probe and the required prefix of every reply.
pub struct MagicHead([u8; 4]);

impl View for MagicHead {
    type V = Seq<u8>;

    closed spec fn view(&self) -> Seq<u8> {
        self.0@
    }
}

impl MagicHead {
    pub fn new() -> (r: Self)
        ensures
            r@ == magic_bytes(),
    {
        let r = MagicHead([0x6au8, 0x2du8, 0x77u8, 0x79u8]);
        assert(r@ =~= magic_bytes());
        r
    }

    /// The header as a byte slice, as it goes on the wire.
    pub fn as_slice(&self) -> (r: &[u8])
        ensures
            r@ == self@,
    {
        self.0.as_slice()
    }

    /// Whether `other` is exactly the header.
    pub fn eq_bytes(&self, other: &[u8]) -> (r: bool)
        requires
            self@ == magic_bytes(),
        ensures
            r == (other@ == self@),
    {
        if other.len() != MAGIC_LEN {
            assert(other@.len() != self@.len());
            return false;
        }
        let mut i: usize = 0;
        while i < MAGIC_LEN
            invariant
                i <= MAGIC_LEN,
                other@.len() == MAGIC_LEN,
                self@ == magic_bytes(),
                forall|j: int| 0 <= j < i ==> other@[j] == self@[j],
            decreases MAGIC_LEN - i,
        {
            if other[i] != self.0[i] {
                return false;
            }
            i = i + 1;
        }
        assert(other@ =~= self@);
        true
    }

    /// Whether `payload` is a valid reply: it begins with the header.
    pub fn is_prefix_of(&self, payload: &[u8]) -> (r: bool)
        requires
            self@ == magic_bytes(),
        ensures
            r == is_valid_reply(payload@),
    {
        if payload.len() < MAGIC_LEN {
            return false;
        }
        let mut i: usize = 0;
        while i < MAGIC_LEN
            invariant
                i <= MAGIC_LEN,
                payload@.len() >= MAGIC_LEN,
                self@ == magic_bytes(),
                forall|j: int| 0 <= j < i ==> payload@[j] == self@[j],
            decreases MAGIC_LEN - i,
        {
            if payload[i] != self.0[i] {
                assert(payload@.subrange(0, MAGIC_LEN as int)[i as int] != magic_bytes()[i as int]);
                return false;
            }
            i = i + 1;
        }
        assert(payload@.subrange(0, MAGIC_LEN as int) =~= magic_bytes());
        true
    }
}

} // verus!
