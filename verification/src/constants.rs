//! Protocol-wide limits and domain-separation tags.
use vstd::prelude::*;

verus! {

pub const MAX_LEN: u32 = 256;
pub const MIN_BLS_KEYS: u32 = 2;
pub const MAX_BLS_KEYS: u32 = 5;
pub const MAX_GUARDIANS: u32 = 5;
pub const DAY_IN_LEDGERS: u32 = 17280;
pub const DAY_IN_SECONDS: u64 = 86400;
pub const MAX_AUTH_WINDOW_LEDGER: u32 = 60;
/// Maximum lifetime of an account-creation proof (~10 minutes at 5s/ledger).
pub const MAX_CREATION_WINDOW_LEDGERS: u32 = 120;
pub const GUARDIAN_REMOVAL_DELAY_LEDGERS: u32 = 17280;
pub const DEFAULT_CLAIM_PERIOD_SECONDS: u64 = 604800;
pub const SESSION_VERSION: u32 = 1;
/// About ninety days at five seconds per ledger.
pub const MAX_SESSION_LIFETIME_LEDGERS: u32 = 1_555_200;
pub const MAX_PERMISSIONS: u32 = 16;
pub const MAX_SPEND_LIMITS: u32 = 8;
pub const MAX_CONTEXTS: u32 = 32;
pub const MAX_RECIPIENTS: u32 = 16;

/// "SOCKETFI_CREATE_ACCOUNT_POP_V2"
pub open spec fn creation_domain() -> Seq<u8> {
    seq![
        83u8, 79, 67, 75, 69, 84, 70, 73, 95, 67, 82, 69, 65, 84, 69, 95, 65, 67, 67, 79, 85, 78,
        84, 95, 80, 79, 80, 95, 86, 50,
    ]
}

/// The account-creation domain tag.
pub fn creation_domain_bytes() -> (r: Vec<u8>)
    ensures
        r@ == creation_domain(),
{
    let r = vec![
        83u8, 79, 67, 75, 69, 84, 70, 73, 95, 67, 82, 69, 65, 84, 69, 95, 65, 67, 67, 79, 85, 78,
        84, 95, 80, 79, 80, 95, 86, 50,
    ];
    assert(r@ =~= creation_domain());
    r
}

/// "SOCKETFI_SESSION_POLICY_V1"
pub open spec fn session_id_domain() -> Seq<u8> {
    seq![
        83u8, 79, 67, 75, 69, 84, 70, 73, 95, 83, 69, 83, 83, 73, 79, 78, 95, 80, 79, 76, 73, 67,
        89, 95, 86, 49,
    ]
}

/// The session-identifier domain tag.
pub fn session_id_domain_bytes() -> (r: Vec<u8>)
    ensures
        r@ == session_id_domain(),
{
    let r = vec![
        83u8, 79, 67, 75, 69, 84, 70, 73, 95, 83, 69, 83, 83, 73, 79, 78, 95, 80, 79, 76, 73, 67,
        89, 95, 86, 49,
    ];
    assert(r@ =~= session_id_domain());
    r
}

/// "SOCKETFI_SESSION_POP_V1"
pub open spec fn session_pop_domain() -> Seq<u8> {
    seq![
        83u8, 79, 67, 75, 69, 84, 70, 73, 95, 83, 69, 83, 83, 73, 79, 78, 95, 80, 79, 80, 95, 86,
        49,
    ]
}

/// The delegate proof-of-possession domain tag.
pub fn session_pop_domain_bytes() -> (r: Vec<u8>)
    ensures
        r@ == session_pop_domain(),
{
    let r = vec![
        83u8, 79, 67, 75, 69, 84, 70, 73, 95, 83, 69, 83, 83, 73, 79, 78, 95, 80, 79, 80, 95, 86,
        49,
    ];
    assert(r@ =~= session_pop_domain());
    r
}

/// "SOCKETFI_ROTATE_ACCOUNT_V1"
pub open spec fn rotation_domain() -> Seq<u8> {
    seq![
        83u8, 79, 67, 75, 69, 84, 70, 73, 95, 82, 79, 84, 65, 84, 69, 95, 65, 67, 67, 79, 85, 78,
        84, 95, 86, 49,
    ]
}

/// The signer-rotation domain tag.
pub fn rotation_domain_bytes() -> (r: Vec<u8>)
    ensures
        r@ == rotation_domain(),
{
    let r = vec![
        83u8, 79, 67, 75, 69, 84, 70, 73, 95, 82, 79, 84, 65, 84, 69, 95, 65, 67, 67, 79, 85, 78,
        84, 95, 86, 49,
    ];
    assert(r@ =~= rotation_domain());
    r
}

/// "SOCKETFI_RECOVER_ACCOUNT_V1"
pub open spec fn recover_domain() -> Seq<u8> {
    seq![
        83u8, 79, 67, 75, 69, 84, 70, 73, 95, 82, 69, 67, 79, 86, 69, 82, 95, 65, 67, 67, 79, 85,
        78, 84, 95, 86, 49,
    ]
}

/// The account-recovery domain tag.
pub fn recover_domain_bytes() -> (r: Vec<u8>)
    ensures
        r@ == recover_domain(),
{
    let r = vec![
        83u8, 79, 67, 75, 69, 84, 70, 73, 95, 82, 69, 67, 79, 86, 69, 82, 95, 65, 67, 67, 79, 85,
        78, 84, 95, 86, 49,
    ];
    assert(r@ =~= recover_domain());
    r
}

/// "\x19Ethereum Signed Message:\n32"
pub open spec fn eth_personal_sign_prefix() -> Seq<u8> {
    seq![
        25u8, 69, 116, 104, 101, 114, 101, 117, 109, 32, 83, 105, 103, 110, 101, 100, 32, 77, 101,
        115, 115, 97, 103, 101, 58, 10, 51, 50,
    ]
}

/// The Ethereum personal-sign prefix for a 32-byte message.
pub fn eth_personal_sign_prefix_bytes() -> (r: Vec<u8>)
    ensures
        r@ == eth_personal_sign_prefix(),
{
    let r = vec![
        25u8, 69, 116, 104, 101, 114, 101, 117, 109, 32, 83, 105, 103, 110, 101, 100, 32, 77, 101,
        115, 115, 97, 103, 101, 58, 10, 51, 50,
    ];
    assert(r@ =~= eth_personal_sign_prefix());
    r
}

/// The contract function name "transfer".
pub open spec fn transfer_fn() -> Seq<u8> {
    seq![116u8, 114, 97, 110, 115, 102, 101, 114]
}

/// The contract function name "approve".
pub open spec fn approve_fn() -> Seq<u8> {
    seq![97u8, 112, 112, 114, 111, 118, 101]
}

/// The contract function name "burn".
pub open spec fn burn_fn() -> Seq<u8> {
    seq![98u8, 117, 114, 110]
}

/// The contract function name "unpause".
pub open spec fn unpause_fn() -> Seq<u8> {
    seq![117u8, 110, 112, 97, 117, 115, 101]
}

/// The name "transfer".
pub fn transfer_fn_bytes() -> (r: Vec<u8>)
    ensures
        r@ == transfer_fn(),
{
    let r = vec![116u8, 114, 97, 110, 115, 102, 101, 114];
    assert(r@ =~= transfer_fn());
    r
}

/// The name "approve".
pub fn approve_fn_bytes() -> (r: Vec<u8>)
    ensures
        r@ == approve_fn(),
{
    let r = vec![97u8, 112, 112, 114, 111, 118, 101];
    assert(r@ =~= approve_fn());
    r
}

/// The name "burn".
pub fn burn_fn_bytes() -> (r: Vec<u8>)
    ensures
        r@ == burn_fn(),
{
    let r = vec![98u8, 117, 114, 110];
    assert(r@ =~= burn_fn());
    r
}

/// The name "unpause".
pub fn unpause_fn_bytes() -> (r: Vec<u8>)
    ensures
        r@ == unpause_fn(),
{
    let r = vec![117u8, 110, 112, 97, 117, 115, 101];
    assert(r@ =~= unpause_fn());
    r
}

} // verus!
