//! The one cryptographic primitive the verifier needs, behind a trusted
//! wrapper, and a verified constant-time-equivalent byte comparison.

use hmac::Mac;
use vstd::prelude::*;

verus! {

/// The HMAC-SHA-256 tag of `msg` under `key`. The tag is a pure function
/// of key and message; its definition lives in the outside crates.
pub uninterp spec fn hmac_sha256(key: Seq<u8>, msg: Seq<u8>) -> Seq<u8>;

/// Relies on `hmac::Hmac<sha2::Sha256>`: the tag depends on the key and
/// message alone and is 32 bytes long (SHA-256 output). `new_from_slice`
/// on `Hmac` accepts every key length, so the `expect` never fires.
#[verifier::external_body]
pub(crate) fn compute_hmac_sha256(key: &[u8], msg: &[u8]) -> (r: Vec<u8>)
    ensures
        r@ == hmac_sha256(key@, msg@),
        r@.len() == 32,
{
    let mut mac = <hmac::Hmac<sha2::Sha256>>::new_from_slice(key).expect(
        "HMAC accepts any key length",
    );
    mac.update(msg);
    mac.finalize().into_bytes().to_vec()
}

/// Byte-sequence equality that examines every position of equal-length
/// inputs instead of stopping at the first difference, so the comparison
/// time does not reveal how long a forged signature matched.
pub fn bytes_eq_ct(a: &[u8], b: &[u8]) -> (r: bool)
    ensures
        r == (a@ == b@),
{
    let n = a.len();
    if n != b.len() {
        return false;
    }
    let mut eq = true;
    let mut i: usize = 0;
    while i < n
        invariant
            i <= n,
            n == a@.len() == b@.len(),
            eq == (forall|k: int| 0 <= k < i ==> a@[k] == b@[k]),
        decreases n - i,
    {
        eq = eq && a[i] == b[i];
        i = i + 1;
    }
    if eq {
        proof {
            assert(a@ =~= b@);
        }
    } else {
        proof {
            assert(a@ != b@);
        }
    }
    eq
}

} // verus!
