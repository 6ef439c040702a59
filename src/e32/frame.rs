//! Outbound transmissions: a 3-byte header (address, high byte first, then
//! channel) followed by the payload, held in a buffer of fixed capacity.
use vstd::prelude::*;

verus! {

/// The bytes sent for `data` to `addr` on `channel`.
pub open spec fn frame_bytes(data: Seq<u8>, addr: u16, channel: u8) -> Seq<u8> {
    seq![(addr >> 8u16) as u8, (addr & 0xFFu16) as u8, channel] + data
}

/// Whether a payload of `len` bytes fits, after the header, in `capacity`.
pub open spec fn fits(len: nat, capacity: nat) -> bool {
    len + 3 <= capacity
}

/// A frame in a buffer of `N` bytes, of which the first `len` are used.
pub struct Frame<const N: usize> {
    bytes: [u8; N],
    len: usize,
}

impl<const N: usize> View for Frame<N> {
    type V = Seq<u8>;

    closed spec fn view(&self) -> Seq<u8> {
        self.bytes@.take(self.len as int)
    }
}

impl<const N: usize> Frame<N> {
    #[verifier::type_invariant]
    spec fn inv(self) -> bool {
        self.len <= N
    }

    /// Lays out `data` for `addr` and `channel`, or gives `None` when it
    /// does not fit in `N` bytes.
    pub fn build(data: &[u8], addr: u16, channel: u8) -> (r: Option<Self>)
        ensures
            r is Some <==> fits(data@.len(), N as nat),
            r is Some ==> r->Some_0@ == frame_bytes(data@, addr, channel),
            r is Some ==> r->Some_0@.len() <= N,
    {
        if N < 3 || data.len() > N - 3 {
            return None;
        }
        assert(addr >> 8u16 <= 0xFF && addr & 0xFFu16 <= 0xFF) by (bit_vector);
        let mut bytes = [0u8; N];
        bytes[0] = (addr >> 8) as u8;
        bytes[1] = (addr & 0xFF) as u8;
        bytes[2] = channel;
        let ghost header = seq![(addr >> 8u16) as u8, (addr & 0xFFu16) as u8, channel];
        assert(bytes@.take(3) =~= header);
        let mut i: usize = 0;
        while i < data.len()
            invariant
                data@.len() + 3 <= N,
                bytes@.len() == N,
                0 <= i <= data@.len(),
                bytes@.take(i + 3) =~= header + data@.take(i as int),
            decreases data@.len() - i,
        {
            let ghost prev = bytes@;
            bytes[i + 3] = data[i];
            assert(bytes@.take(i + 3) =~= prev.take(i + 3));
            assert(bytes@.take(i + 4) =~= bytes@.take(i + 3).push(data@[i as int]));
            assert(data@.take(i + 1) =~= data@.take(i as int).push(data@[i as int]));
            assert(bytes@.take(i + 4) =~= header + data@.take(i + 1));
            i = i + 1;
        }
        assert(data@.take(data@.len() as int) =~= data@);
        Some(Frame { bytes, len: data.len() + 3 })
    }

    /// Number of bytes in the frame.
    pub fn len(&self) -> (r: usize)
        ensures
            r == self@.len(),
    {
        proof {
            use_type_invariant(self);
        }
        self.len
    }

    /// The bytes of the frame.
    pub fn as_slice(&self) -> (r: &[u8])
        ensures
            r@ == self@,
    {
        proof {
            use_type_invariant(self);
        }
        self.bytes.as_slice().split_at(self.len).0
    }
}

} // verus!
