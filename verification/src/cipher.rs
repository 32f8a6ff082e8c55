//! Key preparation for the CAST5 block cipher: a caller-supplied key of
//! any shape is brought to the fixed sixteen-byte length the cipher
//! accepts.

use vstd::prelude::*;
use cast5::cipher::KeyInit;

verus! {

/// The key length the cipher is initialised with, in bytes.
pub open spec fn spec_cast5_key_len() -> int {
    16
}

/// `s` with every zero byte removed.
pub open spec fn spec_nonzero_bytes(s: Seq<u8>) -> Seq<u8>
    decreases s.len(),
{
    if s.len() == 0 {
        Seq::empty()
    } else {
        let rest = spec_nonzero_bytes(s.drop_last());
        if s.last() == 0 {
            rest
        } else {
            rest.push(s.last())
        }
    }
}

/// A short key grown to the full length by repeatedly appending a copy
/// of its own leading bytes, never more than the room that is left.
pub open spec fn spec_cast5_fill(k: Seq<u8>) -> Seq<u8>
    recommends
        k.len() >= 1,
    decreases spec_cast5_key_len() - k.len(),
{
    if k.len() >= spec_cast5_key_len() || k.len() == 0 {
        k
    } else {
        let room = spec_cast5_key_len() - k.len();
        let to_copy = if k.len() < room {
            k.len() as int
        } else {
            room
        };
        spec_cast5_fill(k + k.take(to_copy))
    }
}

/// The key handed to the cipher: the non-zero bytes of the input, padded
/// with zero bytes when none remain, repeated to sixteen bytes when too
/// short, and cut to sixteen bytes when too long.
pub open spec fn spec_cast5_key(key: Seq<u8>) -> Seq<u8> {
    let k = spec_nonzero_bytes(key);
    if k.len() == 0 {
        Seq::new(spec_cast5_key_len() as nat, |i: int| 0u8)
    } else if k.len() >= spec_cast5_key_len() {
        k.take(spec_cast5_key_len())
    } else {
        spec_cast5_fill(k)
    }
}

/// Brings a caller-supplied key to the sixteen bytes the cipher accepts,
/// exactly as `spec_cast5_key` states it.
pub fn normalize_cast5_key(key: &[u8]) -> (r: Vec<u8>)
    ensures
        r@ == spec_cast5_key(key@),
        r@.len() == spec_cast5_key_len(),
{
    let mut k: Vec<u8> = Vec::new();
    let mut i: usize = 0;
    proof {
        assert(key@.take(0) =~= Seq::empty());
    }
    while i < key.len()
        invariant
            i <= key@.len(),
            k@ == spec_nonzero_bytes(key@.take(i as int)),
        decreases key@.len() - i,
    {
        let b = key[i];
        if b != 0 {
            k.push(b);
        }
        proof {
            assert(key@.take(i + 1).drop_last() =~= key@.take(i as int));
        }
        i += 1;
    }
    proof {
        assert(key@.take(key@.len() as int) =~= key@);
    }
    if k.len() == 0 {
        let mut zeros: Vec<u8> = Vec::new();
        let mut j: usize = 0;
        while j < 16
            invariant
                j <= 16,
                zeros@.len() == j,
                forall|m: int| 0 <= m < j ==> zeros@[m] == 0u8,
            decreases 16 - j,
        {
            zeros.push(0);
            j += 1;
        }
        proof {
            assert(zeros@ =~= Seq::new(spec_cast5_key_len() as nat, |i: int| 0u8));
        }
        zeros
    } else if k.len() >= 16 {
        k.truncate(16);
        proof {
            assert(k@ =~= spec_nonzero_bytes(key@).take(spec_cast5_key_len()));
        }
        k
    } else {
        while k.len() < 16
            invariant
                1 <= k@.len() <= 16,
                spec_cast5_fill(k@) == spec_cast5_key(key@),
            decreases 16 - k@.len(),
        {
            let ghost k0 = k@;
            let room = 16 - k.len();
            let to_copy = if k.len() < room {
                k.len()
            } else {
                room
            };
            let mut j: usize = 0;
            while j < to_copy
                invariant
                    j <= to_copy,
                    to_copy < 16,
                    to_copy <= k0.len(),
                    k0.len() + to_copy <= 16,
                    k@ == k0 + k0.take(j as int),
                decreases to_copy - j,
            {
                let b = k[j];
                k.push(b);
                proof {
                    assert(k0 + k0.take(j + 1) =~= (k0 + k0.take(j as int)).push(k0[j as int]));
                }
                j += 1;
            }
            proof {
                assert(k@ == k0 + k0.take(to_copy as int));
            }
        }
        k
    }
}

/// Relies on `cast5::Cast5::new_from_slice` (through `cipher::KeyInit`):
/// the cipher takes keys of 40 to 128 bits, so initialisation succeeds
/// exactly when the key slice is five to sixteen bytes long; shorter
/// keys in that range are padded by the cipher itself.
#[verifier::external_body]
fn cast5_accepts_key(key: &Vec<u8>) -> (r: bool)
    ensures
        r == (5 <= key@.len() <= 16),
{
    cast5::Cast5::new_from_slice(key.as_slice()).is_ok()
}

/// Initialises a CAST5 cipher from the provided key bytes, first bringing
/// them to the cipher's key length; the preparation accepts every input,
/// so the call always succeeds.
pub fn use_cast5_with_insecure_key(key: &[u8]) -> (r: Result<(), ()>)
    ensures
        r is Ok,
{
    let k = normalize_cast5_key(key);
    let accepted = cast5_accepts_key(&k);
    assert(accepted);
    Ok(())
}

} // verus!
