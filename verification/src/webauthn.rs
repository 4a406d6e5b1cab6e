//! WebAuthn passkey assertions: client data and authenticator data checks
//! made before the P-256 signature itself is verified.
use vstd::prelude::*;

use crate::bytes::{append_bytes, copy_bytes};
use crate::crypto::{sha256, sha256_digest};
use crate::errors::{AccountError, WalletError};

use soroban_sdk::Env;

verus! {

/// Maximum accepted size of `clientDataJSON`.
pub const MAX_CLIENT_DATA_JSON_LEN: u32 = 4096;

// ---------------------------------------------------------------------
// Base64url without padding
// ---------------------------------------------------------------------

/// The base64url alphabet character for a 6-bit value.
pub open spec fn b64_char(v: u8) -> u8 {
    if v < 26 {
        (65 + v) as u8
    } else if v < 52 {
        (97 + (v - 26)) as u8
    } else if v < 62 {
        (48 + (v - 52)) as u8
    } else if v == 62 {
        45u8
    } else {
        95u8
    }
}

/// Base64url encoding without padding (RFC 4648, section 5).
pub open spec fn base64url(d: Seq<u8>) -> Seq<u8>
    decreases d.len(),
{
    if d.len() == 0 {
        seq![]
    } else if d.len() == 1 {
        seq![b64_char(d[0] >> 2u8), b64_char(((d[0] & 3u8) << 4u8) as u8)]
    } else if d.len() == 2 {
        seq![
            b64_char(d[0] >> 2u8),
            b64_char((((d[0] & 3u8) << 4u8) | (d[1] >> 4u8)) as u8),
            b64_char(((d[1] & 15u8) << 2u8) as u8),
        ]
    } else {
        seq![
            b64_char(d[0] >> 2u8),
            b64_char((((d[0] & 3u8) << 4u8) | (d[1] >> 4u8)) as u8),
            b64_char((((d[1] & 15u8) << 2u8) | (d[2] >> 6u8)) as u8),
            b64_char(d[2] & 63u8),
        ] + base64url(d.skip(3))
    }
}

fn b64_char_exec(v: u8) -> (r: u8)
    ensures
        r == b64_char(v),
{
    if v < 26 {
        65 + v
    } else if v < 52 {
        97 + (v - 26)
    } else if v < 62 {
        48 + (v - 52)
    } else if v == 62 {
        45
    } else {
        95
    }
}

/// Encodes bytes as base64url without padding.
pub fn base64url_encode_no_pad(data: &Vec<u8>) -> (r: Vec<u8>)
    ensures
        r@ == base64url(data@),
{
    let mut out: Vec<u8> = Vec::new();
    let mut i: usize = 0;
    let n = data.len();
    assert(data@.skip(0) =~= data@);
    while n - i >= 3
        invariant
            n == data.len(),
            i <= n,
            out@ + base64url(data@.skip(i as int)) == base64url(data@),
        decreases n - i,
    {
        let ghost rest = data@.skip(i as int);
        let b0 = data[i];
        let b1 = data[i + 1];
        let b2 = data[i + 2];
        assert(rest[0] == b0 && rest[1] == b1 && rest[2] == b2);
        assert(rest.skip(3) =~= data@.skip(i + 3));
        out.push(b64_char_exec(b0 >> 2u8));
        out.push(b64_char_exec(((b0 & 3u8) << 4u8) | (b1 >> 4u8)));
        out.push(b64_char_exec(((b1 & 15u8) << 2u8) | (b2 >> 6u8)));
        out.push(b64_char_exec(b2 & 63u8));
        i = i + 3;
        assert(out@ + base64url(data@.skip(i as int)) =~= base64url(data@));
    }
    let ghost rest = data@.skip(i as int);
    if n - i == 1 {
        let b0 = data[i];
        assert(rest[0] == b0);
        out.push(b64_char_exec(b0 >> 2u8));
        out.push(b64_char_exec((b0 & 3u8) << 4u8));
    } else if n - i == 2 {
        let b0 = data[i];
        let b1 = data[i + 1];
        assert(rest[0] == b0 && rest[1] == b1);
        out.push(b64_char_exec(b0 >> 2u8));
        out.push(b64_char_exec(((b0 & 3u8) << 4u8) | (b1 >> 4u8)));
        out.push(b64_char_exec((b1 & 15u8) << 2u8));
    }
    assert(out@ =~= base64url(data@));
    out
}

// ---------------------------------------------------------------------
// JSON string fields
// ---------------------------------------------------------------------

/// Whether `pat` occurs in `hay` at position `i`.
pub open spec fn occurs_at(hay: Seq<u8>, pat: Seq<u8>, i: int) -> bool {
    0 <= i && i + pat.len() <= hay.len() && hay.subrange(i, i + pat.len()) == pat
}

/// The position of the first occurrence of `pat` in `hay`.
pub open spec fn first_occurrence(hay: Seq<u8>, pat: Seq<u8>) -> Option<int> {
    if exists|i: int| #[trigger] occurs_at(hay, pat, i) && forall|k: int| 0 <= k < i ==> !occurs_at(hay, pat, k) {
        Some(choose|i: int| #[trigger] occurs_at(hay, pat, i) && forall|k: int| 0 <= k < i ==> !occurs_at(hay, pat, k))
    } else {
        None
    }
}

/// The bytes that open a JSON string field: `"key":"`.
pub open spec fn field_opener(key: Seq<u8>) -> Seq<u8> {
    seq![34u8] + key + seq![34u8, 58u8, 34u8]
}

/// Whether the first `"key":"` field of `json` holds exactly the string
/// `expected`, closed by a quote.
pub open spec fn json_field_equals(json: Seq<u8>, key: Seq<u8>, expected: Seq<u8>) -> bool {
    match first_occurrence(json, field_opener(key)) {
        None => false,
        Some(i) => {
            let start = i + field_opener(key).len();
            &&& start + expected.len() < json.len()
            &&& json.subrange(start, start + expected.len()) == expected
            &&& json[start + expected.len()] == 34u8
        },
    }
}

fn occurs_at_exec(hay: &Vec<u8>, pat: &Vec<u8>, i: usize) -> (r: bool)
    ensures
        r == occurs_at(hay@, pat@, i as int),
{
    if i > hay.len() || pat.len() > hay.len() - i {
        return false;
    }
    let mut k: usize = 0;
    while k < pat.len()
        invariant
            i + pat.len() <= hay.len(),
            k <= pat.len(),
            forall|j: int| 0 <= j < k ==> hay@[i + j] == pat@[j],
        decreases pat.len() - k,
    {
        if hay[i + k] != pat[k] {
            assert(hay@.subrange(i as int, i + pat.len())[k as int] != pat@[k as int]);
            return false;
        }
        k = k + 1;
    }
    assert(hay@.subrange(i as int, i + pat.len()) =~= pat@);
    true
}

/// A position with the first-occurrence property is the first occurrence.
proof fn lemma_first_occurrence_is(hay: Seq<u8>, pat: Seq<u8>, i: int)
    requires
        occurs_at(hay, pat, i),
        forall|k: int| 0 <= k < i ==> !occurs_at(hay, pat, k),
    ensures
        first_occurrence(hay, pat) == Some(i),
{
    let c = choose|c: int| #[trigger] occurs_at(hay, pat, c) && forall|k: int| 0 <= k < c ==> !occurs_at(hay, pat, k);
    if c < i {
        assert(!occurs_at(hay, pat, c));
    }
    if i < c {
        assert(!occurs_at(hay, pat, i));
    }
}

/// Whether the first `"key":"` field of `json` is the string `expected`.
pub fn json_string_field_equals(json: &Vec<u8>, key: &Vec<u8>, expected: &Vec<u8>) -> (r: bool)
    ensures
        r == json_field_equals(json@, key@, expected@),
{
    let mut pat: Vec<u8> = vec![34u8];
    append_bytes(&mut pat, key);
    pat.push(34u8);
    pat.push(58u8);
    pat.push(34u8);
    assert(pat@ =~= field_opener(key@));
    let mut i: usize = 0;
    while i < json.len()
        invariant
            i <= json.len(),
            pat@ == field_opener(key@),
            forall|k: int| 0 <= k < i ==> !occurs_at(json@, pat@, k),
        decreases json.len() - i,
    {
        if occurs_at_exec(json, &pat, i) {
            proof {
                lemma_first_occurrence_is(json@, pat@, i as int);
            }
            let start = i + pat.len();
            if start >= json.len() || expected.len() >= json.len() - start {
                return false;
            }
            let mut k: usize = 0;
            while k < expected.len()
                invariant
                    start + expected.len() < json.len(),
                    first_occurrence(json@, field_opener(key@)) == Some(i as int),
                    start == i + field_opener(key@).len(),
                    k <= expected.len(),
                    forall|j: int| 0 <= j < k ==> json@[start + j] == expected@[j],
                decreases expected.len() - k,
            {
                if json[start + k] != expected[k] {
                    assert(json@.subrange(start as int, start + expected.len())[k as int]
                        != expected@[k as int]);
                    return false;
                }
                k = k + 1;
            }
            assert(json@.subrange(start as int, start + expected.len()) =~= expected@);
            return json[start + expected.len()] == 34u8;
        }
        i = i + 1;
    }
    assert forall|k: int| !#[trigger] occurs_at(json@, pat@, k) by {
        if k >= json@.len() {
            assert(pat@.len() >= 4);
        }
    }
    false
}

// ---------------------------------------------------------------------
// Assertion checks
// ---------------------------------------------------------------------

/// "type"
pub open spec fn type_key() -> Seq<u8> {
    seq![116u8, 121, 112, 101]
}

/// "challenge"
pub open spec fn challenge_key() -> Seq<u8> {
    seq![99u8, 104, 97, 108, 108, 101, 110, 103, 101]
}

/// "webauthn.get"
pub open spec fn webauthn_get() -> Seq<u8> {
    seq![119u8, 101, 98, 97, 117, 116, 104, 110, 46, 103, 101, 116]
}

/// The client-data checks: bounded size, the `webauthn.get` type, and the
/// challenge encoded as base64url without padding.
pub open spec fn client_data_spec(challenge: Seq<u8>, cdj: Seq<u8>) -> Result<(), WalletError> {
    if cdj.len() > MAX_CLIENT_DATA_JSON_LEN {
        Err(WalletError::ClientDataTooLarge)
    } else if !json_field_equals(cdj, type_key(), webauthn_get()) {
        Err(WalletError::InvalidClientDataType)
    } else if !json_field_equals(cdj, challenge_key(), base64url(challenge)) {
        Err(WalletError::InvalidChallenge)
    } else {
        Ok(())
    }
}

/// The authenticator-data checks: at least the RP ID hash and the flags,
/// user presence, user verification, and the expected RP ID hash.
pub open spec fn authenticator_data_spec(rpid_hash: Seq<u8>, ad: Seq<u8>) -> Result<(), WalletError> {
    if ad.len() < 33 {
        Err(WalletError::InvalidAuthenticatorData)
    } else if ad[32] & 1u8 == 0 {
        Err(WalletError::UserPresenceRequired)
    } else if ad[32] & 4u8 == 0 {
        Err(WalletError::UserVerificationRequired)
    } else if ad.subrange(0, 32) != rpid_hash {
        Err(WalletError::InvalidRpIdHash)
    } else {
        Ok(())
    }
}

/// Validates WebAuthn `clientDataJSON` against the expected challenge.
pub fn verify_webauthn_client_data(challenge: &Vec<u8>, client_data_json: &Vec<u8>) -> (r: Result<
    (),
    WalletError,
>)
    ensures
        r == client_data_spec(challenge@, client_data_json@),
{
    if client_data_json.len() > 4096 {
        return Err(WalletError::ClientDataTooLarge);
    }
    let type_k: Vec<u8> = vec![116u8, 121, 112, 101];
    let get: Vec<u8> = vec![119u8, 101, 98, 97, 117, 116, 104, 110, 46, 103, 101, 116];
    assert(type_k@ =~= type_key() && get@ =~= webauthn_get());
    if !json_string_field_equals(client_data_json, &type_k, &get) {
        return Err(WalletError::InvalidClientDataType);
    }
    let challenge_k: Vec<u8> = vec![99u8, 104, 97, 108, 108, 101, 110, 103, 101];
    assert(challenge_k@ =~= challenge_key());
    let encoded = base64url_encode_no_pad(challenge);
    if !json_string_field_equals(client_data_json, &challenge_k, &encoded) {
        return Err(WalletError::InvalidChallenge);
    }
    Ok(())
}

/// Validates the authenticator data of a passkey assertion.
pub fn verify_authenticator_data(expected_rpid_hash: &Vec<u8>, authenticator_data: &Vec<u8>) -> (r:
    Result<(), WalletError>)
    requires
        expected_rpid_hash@.len() == 32,
    ensures
        r == authenticator_data_spec(expected_rpid_hash@, authenticator_data@),
{
    if authenticator_data.len() < 33 {
        return Err(WalletError::InvalidAuthenticatorData);
    }
    let flags = authenticator_data[32];
    if flags & 1u8 == 0 {
        return Err(WalletError::UserPresenceRequired);
    }
    if flags & 4u8 == 0 {
        return Err(WalletError::UserVerificationRequired);
    }
    let mut i: usize = 0;
    while i < 32
        invariant
            i <= 32,
            authenticator_data@.len() >= 33,
            authenticator_data@[32] & 1u8 != 0,
            authenticator_data@[32] & 4u8 != 0,
            expected_rpid_hash@.len() == 32,
            forall|j: int| 0 <= j < i ==> authenticator_data@[j] == expected_rpid_hash@[j],
        decreases 32 - i,
    {
        if authenticator_data[i] != expected_rpid_hash[i] {
            assert(authenticator_data@.subrange(0, 32)[i as int] != expected_rpid_hash@[i as int]);
            return Err(WalletError::InvalidRpIdHash);
        }
        i = i + 1;
    }
    assert(authenticator_data@.subrange(0, 32) =~= expected_rpid_hash@);
    Ok(())
}

/// Validates a passkey assertion's metadata and challenge binding; the
/// signature itself is verified separately.
pub fn validate_passkey_assertion_data(
    challenge: &Vec<u8>,
    expected_rpid_hash: &Vec<u8>,
    authenticator_data: &Vec<u8>,
    client_data_json: &Vec<u8>,
) -> (r: Result<(), WalletError>)
    requires
        expected_rpid_hash@.len() == 32,
    ensures
        r == (match client_data_spec(challenge@, client_data_json@) {
            Err(e) => Err(e),
            Ok(_) => authenticator_data_spec(expected_rpid_hash@, authenticator_data@),
        }),
{
    verify_webauthn_client_data(challenge, client_data_json)?;
    verify_authenticator_data(expected_rpid_hash, authenticator_data)?;
    Ok(())
}

/// The account error that reports a passkey assertion failure.
pub open spec fn assertion_error(e: WalletError) -> AccountError {
    match e {
        WalletError::ClientDataTooLarge => AccountError::ClientDataTooLarge,
        WalletError::InvalidClientDataType => AccountError::InvalidClientDataType,
        WalletError::InvalidChallenge => AccountError::InvalidChallenge,
        WalletError::InvalidRpIdHash => AccountError::InvalidRpIdHash,
        WalletError::InvalidAuthenticatorData => AccountError::InvalidAuthenticatorData,
        WalletError::UserPresenceRequired => AccountError::UserPresenceRequired,
        WalletError::UserVerificationRequired => AccountError::UserVerificationRequired,
        _ => AccountError::InvalidSignature,
    }
}

/// Reports a passkey assertion failure as the account error of the same name.
pub fn to_account_error(e: WalletError) -> (r: AccountError)
    ensures
        r == assertion_error(e),
{
    match e {
        WalletError::ClientDataTooLarge => AccountError::ClientDataTooLarge,
        WalletError::InvalidClientDataType => AccountError::InvalidClientDataType,
        WalletError::InvalidChallenge => AccountError::InvalidChallenge,
        WalletError::InvalidRpIdHash => AccountError::InvalidRpIdHash,
        WalletError::InvalidAuthenticatorData => AccountError::InvalidAuthenticatorData,
        WalletError::UserPresenceRequired => AccountError::UserPresenceRequired,
        WalletError::UserVerificationRequired => AccountError::UserVerificationRequired,
        _ => AccountError::InvalidSignature,
    }
}

/// The digest a passkey signs: `SHA-256(authenticatorData || SHA-256(clientDataJSON))`.
pub open spec fn passkey_digest_spec(ad: Seq<u8>, cdj: Seq<u8>) -> Seq<u8> {
    sha256_digest(ad + sha256_digest(cdj))
}

/// Checks a passkey assertion over `challenge` for the relying party
/// `expected_rpid_hash`, and returns the digest that the passkey's P-256
/// signature must verify against.
pub fn verify_passkey_pop(
    env: &Env,
    challenge: &Vec<u8>,
    authenticator_data: &Vec<u8>,
    client_data_json: &Vec<u8>,
    expected_rpid_hash: &Vec<u8>,
) -> (r: Result<Vec<u8>, AccountError>)
    requires
        expected_rpid_hash@.len() == 32,
        authenticator_data@.len() + 32 <= u32::MAX,
    ensures
        match (match client_data_spec(challenge@, client_data_json@) {
            Err(e) => Err(e),
            Ok(_) => authenticator_data_spec(expected_rpid_hash@, authenticator_data@),
        }) {
            Err(e) => r == Err::<Vec<u8>, AccountError>(assertion_error(e)),
            Ok(_) => (r matches Ok(d) && d@ == passkey_digest_spec(
                authenticator_data@,
                client_data_json@,
            )),
        },
{
    match validate_passkey_assertion_data(
        challenge,
        expected_rpid_hash,
        authenticator_data,
        client_data_json,
    ) {
        Err(e) => {
            return Err(to_account_error(e));
        },
        Ok(()) => {},
    }
    let client_hash = sha256(env, client_data_json);
    let mut payload = copy_bytes(authenticator_data);
    append_bytes(&mut payload, &client_hash);
    Ok(sha256(env, &payload))
}

} // verus!
