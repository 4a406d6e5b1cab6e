//! BLS12-381 guardian key sets: size, distinctness, the point at infinity,
//! subgroup membership and proofs of possession.
use vstd::prelude::*;

use crate::bytes::{bytes_eq, copy_bytes};
use crate::constants::{MAX_BLS_KEYS, MIN_BLS_KEYS};
use crate::errors::AccountError;

verus! {

/// A guardian BLS public key with its proof of possession.
pub struct BlsKeyWithPoP {
    pub key: Vec<u8>,
    pub sig: Vec<u8>,
}

/// A BLS signature.
pub struct BlsSignature {
    pub signature: Vec<u8>,
}

/// Whether a 96-byte G1 encoding is the point at infinity: the infinity
/// flag `0x40` followed by zeros.
pub open spec fn g1_infinity_spec(key: Seq<u8>) -> bool {
    key.len() == 96 && key[0] == 0x40u8 && forall|i: int| 1 <= i < 96 ==> key[i] == 0u8
}

/// Whether a G1 public key is the point at infinity.
pub fn is_g1_infinity(key: &Vec<u8>) -> (r: bool)
    requires
        key@.len() == 96,
    ensures
        r == g1_infinity_spec(key@),
{
    if key[0] != 0x40u8 {
        return false;
    }
    let mut i: usize = 1;
    while i < 96
        invariant
            1 <= i <= 96,
            key@.len() == 96,
            forall|j: int| 1 <= j < i ==> key@[j] == 0u8,
        decreases 96 - i,
    {
        if key[i] != 0u8 {
            return false;
        }
        i = i + 1;
    }
    true
}

/// The public keys of keys with proofs of possession, in order.
pub open spec fn keys_of(s: Seq<BlsKeyWithPoP>) -> Seq<Seq<u8>> {
    s.map_values(|k: BlsKeyWithPoP| k.key@)
}

/// The public keys of keys with proofs of possession.
pub fn extract_bls_keys(bls_keys_pop: &Vec<BlsKeyWithPoP>) -> (r: Vec<Vec<u8>>)
    ensures
        r@.map_values(|k: Vec<u8>| k@) == keys_of(bls_keys_pop@),
{
    let mut r: Vec<Vec<u8>> = Vec::new();
    let mut i: usize = 0;
    while i < bls_keys_pop.len()
        invariant
            i <= bls_keys_pop.len(),
            r.len() == i,
            r@.map_values(|k: Vec<u8>| k@) == keys_of(bls_keys_pop@).subrange(0, i as int),
        decreases bls_keys_pop.len() - i,
    {
        let ghost old_r = r@;
        r.push(copy_bytes(&bls_keys_pop[i].key));
        assert(forall|j: int| 0 <= j < old_r.len() ==> r@[j] == old_r[j]);
        i = i + 1;
        assert(r@.map_values(|k: Vec<u8>| k@) =~= keys_of(bls_keys_pop@).subrange(0, i as int));
    }
    assert(keys_of(bls_keys_pop@).subrange(0, i as int) =~= keys_of(bls_keys_pop@));
    r
}

/// The error the key at position `i` raises, given whether it lies in the
/// prime-order subgroup: a repeat of an earlier key, the point at infinity,
/// or a point outside the subgroup.
pub open spec fn key_error(keys: Seq<Seq<u8>>, in_subgroup: Seq<bool>, i: int) -> Option<AccountError> {
    if exists|j: int| 0 <= j < i && keys[j] == keys[i] {
        Some(AccountError::DuplicateKeys)
    } else if g1_infinity_spec(keys[i]) {
        Some(AccountError::KeyAtInfinity)
    } else if !in_subgroup[i] {
        Some(AccountError::InvalidBlsKey)
    } else {
        None
    }
}

/// The error of the first key that raises one, among the first `n`.
pub open spec fn first_key_error(keys: Seq<Seq<u8>>, in_subgroup: Seq<bool>, n: int) -> Option<
    AccountError,
>
    decreases n,
{
    if n <= 0 {
        None
    } else {
        match first_key_error(keys, in_subgroup, n - 1) {
            Some(e) => Some(e),
            None => key_error(keys, in_subgroup, n - 1),
        }
    }
}

/// The checks on a guardian key set, before aggregation: between two and
/// five keys, each new, not at infinity and in the subgroup.
pub open spec fn key_set_spec(keys: Seq<Seq<u8>>, in_subgroup: Seq<bool>) -> Result<(), AccountError> {
    if keys.len() < MIN_BLS_KEYS {
        Err(AccountError::InsufficientKeys)
    } else if keys.len() > MAX_BLS_KEYS {
        Err(AccountError::TooManyKeys)
    } else {
        match first_key_error(keys, in_subgroup, keys.len() as int) {
            Some(e) => Err(e),
            None => Ok(()),
        }
    }
}

/// When the first `n` keys raise no error, each of them is new, not at
/// infinity and in the subgroup.
proof fn lemma_no_key_error(keys: Seq<Seq<u8>>, in_subgroup: Seq<bool>, n: int)
    requires
        first_key_error(keys, in_subgroup, n) is None,
    ensures
        forall|i: int| 0 <= i < n ==> key_error(keys, in_subgroup, i) is None,
    decreases n,
{
    if n > 0 {
        lemma_no_key_error(keys, in_subgroup, n - 1);
    }
}

/// A guardian key set is accepted only with two to five keys, all distinct,
/// none at infinity and each in the prime-order subgroup; fewer than two
/// keys are too few and more than five are too many.
pub proof fn lemma_key_set_accepted(keys: Seq<Seq<u8>>, in_subgroup: Seq<bool>)
    ensures
        keys.len() < 2 ==> key_set_spec(keys, in_subgroup) == Err::<(), AccountError>(
            AccountError::InsufficientKeys,
        ),
        keys.len() > 5 ==> key_set_spec(keys, in_subgroup) == Err::<(), AccountError>(
            AccountError::TooManyKeys,
        ),
        key_set_spec(keys, in_subgroup) is Ok ==> {
            &&& 2 <= keys.len() <= 5
            &&& keys.no_duplicates()
            &&& forall|i: int| 0 <= i < keys.len() ==> !g1_infinity_spec(#[trigger] keys[i])
            &&& forall|i: int| 0 <= i < keys.len() ==> #[trigger] in_subgroup[i]
        },
{
    if key_set_spec(keys, in_subgroup) is Ok {
        lemma_no_key_error(keys, in_subgroup, keys.len() as int);
        assert forall|i: int, j: int| 0 <= i < keys.len() && 0 <= j < keys.len() && i != j implies keys[i]
            != keys[j] by {
            if i < j {
                assert(key_error(keys, in_subgroup, j) is None);
            } else {
                assert(key_error(keys, in_subgroup, i) is None);
            }
        }
        assert forall|i: int| 0 <= i < keys.len() implies !g1_infinity_spec(#[trigger] keys[i]) by {
            assert(key_error(keys, in_subgroup, i) is None);
        }
        assert forall|i: int| 0 <= i < keys.len() implies #[trigger] in_subgroup[i] by {
            assert(key_error(keys, in_subgroup, i) is None);
        }
    }
}

/// Validates a guardian key set; `in_subgroup[i]` is the host's subgroup
/// check of key `i`.
pub fn validate_bls_key_set(keys: &Vec<Vec<u8>>, in_subgroup: &Vec<bool>) -> (r: Result<
    (),
    AccountError,
>)
    requires
        in_subgroup@.len() == keys@.len(),
        forall|i: int| 0 <= i < keys@.len() ==> (#[trigger] keys@[i])@.len() == 96,
    ensures
        r == key_set_spec(keys@.map_values(|k: Vec<u8>| k@), in_subgroup@),
        keys@.len() > 5 ==> r == Err::<(), AccountError>(AccountError::TooManyKeys),
        r is Ok ==> 2 <= keys@.len() <= 5,
{
    let ghost ks = keys@.map_values(|k: Vec<u8>| k@);
    proof {
        lemma_key_set_accepted(ks, in_subgroup@);
    }
    if keys.len() < 2 {
        return Err(AccountError::InsufficientKeys);
    }
    if keys.len() > 5 {
        return Err(AccountError::TooManyKeys);
    }
    let mut i: usize = 0;
    while i < keys.len()
        invariant
            i <= keys.len(),
            2 <= keys.len() <= 5,
            in_subgroup@.len() == keys@.len(),
            ks == keys@.map_values(|k: Vec<u8>| k@),
            forall|x: int| 0 <= x < keys@.len() ==> (#[trigger] keys@[x])@.len() == 96,
            first_key_error(ks, in_subgroup@, i as int) is None,
        decreases keys.len() - i,
    {
        let mut j: usize = 0;
        while j < i
            invariant
                j <= i < keys.len(),
                keys.len() <= 5,
                in_subgroup@.len() == keys@.len(),
                ks == keys@.map_values(|k: Vec<u8>| k@),
                first_key_error(ks, in_subgroup@, i as int) is None,
                forall|x: int| 0 <= x < j ==> ks[x] != ks[i as int],
            decreases i - j,
        {
            assert(ks[j as int] == keys@[j as int]@ && ks[i as int] == keys@[i as int]@);
            if bytes_eq(&keys[j], &keys[i]) {
                proof {
                    assert(0 <= j < i && ks[j as int] == ks[i as int]);
                    assert(key_error(ks, in_subgroup@, i as int) == Some(AccountError::DuplicateKeys));
                    lemma_first_key_error_extends(ks, in_subgroup@, (i + 1) as int);
                }
                return Err(AccountError::DuplicateKeys);
            }
            j = j + 1;
        }
        assert(ks[i as int] == keys@[i as int]@);
        if is_g1_infinity(&keys[i]) {
            proof {
                lemma_first_key_error_extends(ks, in_subgroup@, (i + 1) as int);
            }
            return Err(AccountError::KeyAtInfinity);
        }
        if !in_subgroup[i] {
            proof {
                lemma_first_key_error_extends(ks, in_subgroup@, (i + 1) as int);
            }
            return Err(AccountError::InvalidBlsKey);
        }
        i = i + 1;
    }
    Ok(())
}

/// Once one of the first `n` keys raises an error, it is the error of the
/// whole set.
proof fn lemma_first_key_error_extends(keys: Seq<Seq<u8>>, in_subgroup: Seq<bool>, n: int)
    requires
        0 <= n <= keys.len(),
        first_key_error(keys, in_subgroup, n) is Some,
    ensures
        first_key_error(keys, in_subgroup, keys.len() as int) == first_key_error(keys, in_subgroup, n),
    decreases keys.len() - n,
{
    if n < keys.len() {
        lemma_first_key_error_extends(keys, in_subgroup, n + 1);
    }
}

/// The checks on the aggregated key: not at infinity, in the subgroup.
pub open spec fn aggregate_spec(agg: Seq<u8>, agg_in_subgroup: bool) -> Result<(), AccountError> {
    if g1_infinity_spec(agg) {
        Err(AccountError::KeyAtInfinity)
    } else if !agg_in_subgroup {
        Err(AccountError::InvalidBlsKey)
    } else {
        Ok(())
    }
}

/// Validates the aggregate of a guardian key set.
pub fn validate_bls_agg(agg: &Vec<u8>, agg_in_subgroup: bool) -> (r: Result<(), AccountError>)
    requires
        agg@.len() == 96,
    ensures
        r == aggregate_spec(agg@, agg_in_subgroup),
{
    if is_g1_infinity(agg) {
        return Err(AccountError::KeyAtInfinity);
    }
    if !agg_in_subgroup {
        return Err(AccountError::InvalidBlsKey);
    }
    Ok(())
}

/// Checks the proof of possession of every key: `pop_valid[i]` is the
/// pairing check of key `i`'s signature over the creation challenge.
pub fn check_proofs_of_possession(pop_valid: &Vec<bool>) -> (r: Result<(), AccountError>)
    ensures
        r is Ok <==> forall|i: int| 0 <= i < pop_valid@.len() ==> pop_valid@[i],
        r is Err ==> r == Err::<(), AccountError>(AccountError::InvalidPoPSignature),
{
    let mut i: usize = 0;
    while i < pop_valid.len()
        invariant
            i <= pop_valid.len(),
            forall|j: int| 0 <= j < i ==> pop_valid@[j],
        decreases pop_valid.len() - i,
    {
        if !pop_valid[i] {
            return Err(AccountError::InvalidPoPSignature);
        }
        i = i + 1;
    }
    Ok(())
}

/// Checks the guardians' aggregate signature over a recovery challenge:
/// `pairing_ok` is the host's pairing check of the signature against the
/// account's aggregate guardian key.
pub fn check_recovery_signature(pairing_ok: bool) -> (r: Result<(), AccountError>)
    ensures
        pairing_ok ==> r is Ok,
        !pairing_ok ==> r == Err::<(), AccountError>(AccountError::InvalidSignature),
{
    if !pairing_ok {
        return Err(AccountError::InvalidSignature);
    }
    Ok(())
}

/// Validates a guardian key set with proofs of possession and returns its
/// aggregate: the set checks, the aggregate checks, then every proof.
pub fn validate_verify_bls_key_set_pop(
    bls_keys_pop: &Vec<BlsKeyWithPoP>,
    in_subgroup: &Vec<bool>,
    agg: &Vec<u8>,
    agg_in_subgroup: bool,
    pop_valid: &Vec<bool>,
) -> (r: Result<Vec<u8>, AccountError>)
    requires
        in_subgroup@.len() == bls_keys_pop@.len(),
        pop_valid@.len() == bls_keys_pop@.len(),
        forall|i: int| 0 <= i < bls_keys_pop@.len() ==> (#[trigger] bls_keys_pop@[i]).key@.len() == 96,
        agg@.len() == 96,
    ensures
        match key_set_spec(keys_of(bls_keys_pop@), in_subgroup@) {
            Err(e) => r == Err::<Vec<u8>, AccountError>(e),
            Ok(_) => match aggregate_spec(agg@, agg_in_subgroup) {
                Err(e) => r == Err::<Vec<u8>, AccountError>(e),
                Ok(_) => if forall|i: int| 0 <= i < pop_valid@.len() ==> pop_valid@[i] {
                    (r matches Ok(k) && k@ == agg@)
                } else {
                    r == Err::<Vec<u8>, AccountError>(AccountError::InvalidPoPSignature)
                },
            },
        },
{
    let keys = extract_bls_keys(bls_keys_pop);
    proof {
        assert forall|i: int| 0 <= i < keys@.len() implies (#[trigger] keys@[i])@.len() == 96 by {
            assert(keys@.map_values(|k: Vec<u8>| k@)[i] == keys_of(bls_keys_pop@)[i]);
        }
    }
    validate_bls_key_set(&keys, in_subgroup)?;
    validate_bls_agg(agg, agg_in_subgroup)?;
    check_proofs_of_possession(pop_valid)?;
    Ok(copy_bytes(agg))
}

} // verus!
