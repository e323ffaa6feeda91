use vstd::prelude::*;

use crate::account::AccountId;

verus! {

/// SHA2-256 of the SCALE encoding of a channel identity followed by an amount:
/// the message that an authorized signer signs.
pub uninterp spec fn sha2_256_of_claim(channel: Seq<u8>, amount: u128) -> Seq<u8>;

/// The compressed public key that ECDSA recovery yields for a signature over a
/// message digest, or `None` where recovery fails.
pub uninterp spec fn ecdsa_recovered_key(signature: Seq<u8>, digest: Seq<u8>) -> Option<Seq<u8>>;

/// BLAKE2-256 of the given bytes: how an account identity is derived from a key.
pub uninterp spec fn blake2_256(data: Seq<u8>) -> Seq<u8>;

/// The order of the secp256k1 group, big-endian.
pub open spec fn group_order() -> Seq<u8> {
    seq![
        0xffu8, 0xff, 0xff, 0xff, 0xff, 0xff, 0xff, 0xff,
        0xff, 0xff, 0xff, 0xff, 0xff, 0xff, 0xff, 0xfe,
        0xba, 0xae, 0xdc, 0xe6, 0xaf, 0x48, 0xa0, 0x3b,
        0xbf, 0xd2, 0x5e, 0x8c, 0xd0, 0x36, 0x41, 0x41,
    ]
}

/// A 32-byte big-endian scalar lies below the group order.
pub open spec fn below_group_order(s: Seq<u8>) -> bool {
    exists|k: int|
        0 <= k < 32 && #[trigger] s.subrange(0, k) == group_order().subrange(0, k) && s[k]
            < group_order()[k]
}

/// The last byte of a signature names a recovery id, either plainly (0 to 3)
/// or offset by 27.
pub open spec fn recovery_byte_valid(v: u8) -> bool {
    v <= 3 || (27 <= v && v <= 30)
}

/// A 65-byte signature that ECDSA recovery can parse: `r` and `s` below the
/// group order and a valid recovery id. Recovery may still fail on it.
pub open spec fn recoverable_form(sig: Seq<u8>) -> bool {
    &&& sig.len() == 65
    &&& recovery_byte_valid(sig[64])
    &&& below_group_order(sig.subrange(0, 32))
    &&& below_group_order(sig.subrange(32, 64))
}

/// The identity that signed `signature` over the claim `(channel, amount)`,
/// if the signature can be recovered at all.
pub open spec fn claim_signer(channel: Seq<u8>, amount: u128, signature: Seq<u8>) -> Option<Seq<u8>> {
    if !recoverable_form(signature) {
        None
    } else {
        match ecdsa_recovered_key(signature, sha2_256_of_claim(channel, amount)) {
            Some(key) => Some(blake2_256(key)),
            None => None,
        }
    }
}

/// The signature authorizes `amount` on `channel` for the party `expected`.
pub open spec fn authorizes(
    channel: Seq<u8>,
    amount: u128,
    signature: Seq<u8>,
    expected: Seq<u8>,
) -> bool {
    claim_signer(channel, amount, signature) == Some(expected)
}

/// Relies on ink::env::hash_encoded with Sha2x256: the digest of the encoded
/// pair `(channel, amount)`, a function of those values alone.
#[verifier::external_body]
fn claim_digest(channel: &AccountId, amount: u128) -> (r: [u8; 32])
    ensures
        r@ == sha2_256_of_claim(channel@, amount),
{
    let mut digest = [0u8; 32];
    ink::env::hash_encoded::<ink::env::hash::Sha2x256, _>(&(channel.0, amount), &mut digest);
    digest
}

/// Relies on ink::env::ecdsa_recover: the compressed key that produced the
/// signature, or an error where recovery fails. It panics on a signature whose
/// recovery id or scalars cannot be parsed, which `requires` leaves out.
#[verifier::external_body]
fn recover_key(signature: &[u8; 65], digest: &[u8; 32]) -> (r: Option<[u8; 33]>)
    requires
        recoverable_form(signature@),
    ensures
        ecdsa_recovered_key(signature@, digest@) == match r {
            Some(key) => Some(key@),
            None => None::<Seq<u8>>,
        },
{
    let mut key = [0u8; 33];
    match ink::env::ecdsa_recover(signature, digest, &mut key) {
        Ok(()) => Some(key),
        Err(_) => None,
    }
}

/// Relies on ink's Blake2x256 CryptoHash: the 256-bit BLAKE2 digest of the key.
#[verifier::external_body]
fn key_account(key: &[u8; 33]) -> (r: [u8; 32])
    ensures
        r@ == blake2_256(key@),
{
    let mut account = [0u8; 32];
    <ink::env::hash::Blake2x256 as ink::env::hash::CryptoHash>::hash(key, &mut account);
    account
}

/// Whether the 32 bytes of `sig` from `start` on lie below the group order.
fn scalar_below_order(sig: &[u8; 65], start: usize) -> (r: bool)
    requires
        start == 0 || start == 32,
    ensures
        r == below_group_order(sig@.subrange(start as int, start + 32)),
{
    broadcast use vstd::array::group_array_axioms;

    let order: [u8; 32] = [
        0xff, 0xff, 0xff, 0xff, 0xff, 0xff, 0xff, 0xff,
        0xff, 0xff, 0xff, 0xff, 0xff, 0xff, 0xff, 0xfe,
        0xba, 0xae, 0xdc, 0xe6, 0xaf, 0x48, 0xa0, 0x3b,
        0xbf, 0xd2, 0x5e, 0x8c, 0xd0, 0x36, 0x41, 0x41,
    ];
    assert(order@ =~= group_order());
    let ghost s = sig@.subrange(start as int, start + 32);
    let mut k: usize = 0;
    while k < 32
        invariant
            k <= 32,
            start == 0 || start == 32,
            sig@.len() == 65,
            s == sig@.subrange(start as int, start + 32),
            order@ == group_order(),
            s.subrange(0, k as int) == group_order().subrange(0, k as int),
        decreases 32 - k,
    {
        let b = sig[start + k];
        assert(b == s[k as int]);
        if b < order[k] {
            assert(s.subrange(0, k as int) == group_order().subrange(0, k as int));
            return true;
        }
        if b > order[k] {
            assert forall|j: int|
                0 <= j < 32 && #[trigger] s.subrange(0, j) == group_order().subrange(0, j)
                implies !(s[j] < group_order()[j]) by {
                if j < k {
                    assert(s[j] == s.subrange(0, k as int)[j]);
                    assert(group_order()[j] == group_order().subrange(0, k as int)[j]);
                } else if j > k {
                    assert(s[k as int] == s.subrange(0, j)[k as int]);
                    assert(group_order()[k as int] == group_order().subrange(0, j)[k as int]);
                }
            }
            return false;
        }
        assert(s.subrange(0, k + 1) =~= group_order().subrange(0, k + 1)) by {
            assert(s.subrange(0, k as int) == group_order().subrange(0, k as int));
            assert forall|j: int| 0 <= j < k + 1 implies #[trigger] s.subrange(0, k + 1)[j]
                == group_order().subrange(0, k + 1)[j] by {
                if j < k {
                    assert(s.subrange(0, k as int)[j] == group_order().subrange(0, k as int)[j]);
                }
            }
        }
        k += 1;
    }
    assert(s.subrange(0, 32) =~= s);
    assert(group_order().subrange(0, 32) =~= group_order());
    assert forall|j: int|
        0 <= j < 32 && #[trigger] s.subrange(0, j) == group_order().subrange(0, j)
        implies !(s[j] < group_order()[j]) by {
        assert(s[j] == group_order()[j]);
    }
    false
}

/// Whether the signature has a form that recovery can parse without aborting.
fn has_recoverable_form(signature: &[u8; 65]) -> (r: bool)
    ensures
        r == recoverable_form(signature@),
{
    broadcast use vstd::array::group_array_axioms;

    let v = signature[64];
    if !(v <= 3 || (27 <= v && v <= 30)) {
        return false;
    }
    scalar_below_order(signature, 0) && scalar_below_order(signature, 32)
}

/// Whether `signature` authorizes `amount` on the channel `channel` for the
/// party `expected`: the key recovered over the claim's digest hashes to
/// `expected`. A signature that cannot be recovered authorizes nothing.
pub fn signature_authorizes(
    channel: &AccountId,
    amount: u128,
    signature: &[u8; 65],
    expected: &AccountId,
) -> (r: bool)
    ensures
        r == authorizes(channel@, amount, signature@, expected@),
{
    broadcast use vstd::array::group_array_axioms;

    if !has_recoverable_form(signature) {
        return false;
    }
    let digest = claim_digest(channel, amount);
    match recover_key(signature, &digest) {
        Some(key) => {
            let signer = AccountId(key_account(&key));
            signer.same_as(expected)
        },
        None => false,
    }
}

} // verus!
