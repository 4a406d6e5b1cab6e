//! Delegated session policies: what a delegate key may call on the
//! account's behalf, how much it may transfer, for how long and how often.
use vstd::prelude::*;

use crate::address::{Address, AddressView};
use crate::address_set::views_of;
use crate::bytes::{bytes_eq, copy_bytes};
use crate::constants::{
    approve_fn, approve_fn_bytes, burn_fn, burn_fn_bytes, transfer_fn, transfer_fn_bytes, MAX_CONTEXTS, MAX_PERMISSIONS,
    MAX_RECIPIENTS, MAX_SESSION_LIFETIME_LEDGERS, MAX_SPEND_LIMITS, SESSION_VERSION,
};
use crate::errors::AccountError;

verus! {

/// Permission to call exactly one function of one contract.
pub struct ProtocolPermission {
    pub contract: Address,
    pub function: Vec<u8>,
}

/// A spend limit as requested when a session is created.
pub struct AssetSpendLimitInput {
    pub asset: Address,
    pub recipients: Vec<Address>,
    pub max_per_call: i128,
    pub max_total: i128,
}

/// A stored spend limit with the amount already spent.
pub struct AssetSpendLimit {
    pub asset: Address,
    pub recipients: Vec<Address>,
    pub max_per_call: i128,
    pub max_total: i128,
    pub spent: i128,
}

/// The request to create a session.
pub struct SessionPolicyInput {
    pub salt: Vec<u8>,
    pub delegate: Vec<u8>,
    pub valid_after_ledger: u32,
    pub expires_at_ledger: u32,
    pub max_uses: Option<u32>,
    pub permissions: Vec<ProtocolPermission>,
    pub spend_limits: Vec<AssetSpendLimitInput>,
}

/// A stored session policy.
pub struct SessionPolicy {
    pub version: u32,
    pub policy_id: Vec<u8>,
    pub delegate: Vec<u8>,
    pub valid_after_ledger: u32,
    pub expires_at_ledger: u32,
    pub epoch: u64,
    pub max_uses: Option<u32>,
    pub uses: u32,
    pub permissions: Vec<ProtocolPermission>,
    pub spend_limits: Vec<AssetSpendLimit>,
}

/// A session authorization: the policy used and the delegate's signature.
pub struct SessionAuthorization {
    pub policy_id: Vec<u8>,
    pub signature: Vec<u8>,
}

/// An argument of an authorized contract call, as far as sessions read it.
pub enum ContextArg {
    Address(Address),
    I128(i128),
    Other,
}

/// A contract call being authorized.
pub struct ContractContext {
    pub contract: Address,
    pub fn_name: Vec<u8>,
    pub args: Vec<ContextArg>,
}

/// An invocation being authorized: a contract call, or a contract creation.
pub enum AuthContext {
    Contract(ContractContext),
    CreateContract,
}

// ---------------------------------------------------------------------
// Views
// ---------------------------------------------------------------------

pub struct PermissionView {
    pub contract: AddressView,
    pub function: Seq<u8>,
}

impl View for ProtocolPermission {
    type V = PermissionView;

    open spec fn view(&self) -> PermissionView {
        PermissionView { contract: self.contract@, function: self.function@ }
    }
}

pub struct LimitInputView {
    pub asset: AddressView,
    pub recipients: Seq<AddressView>,
    pub max_per_call: i128,
    pub max_total: i128,
}

impl View for AssetSpendLimitInput {
    type V = LimitInputView;

    open spec fn view(&self) -> LimitInputView {
        LimitInputView {
            asset: self.asset@,
            recipients: views_of(self.recipients@),
            max_per_call: self.max_per_call,
            max_total: self.max_total,
        }
    }
}

pub struct LimitView {
    pub asset: AddressView,
    pub recipients: Seq<AddressView>,
    pub max_per_call: i128,
    pub max_total: i128,
    pub spent: i128,
}

impl View for AssetSpendLimit {
    type V = LimitView;

    open spec fn view(&self) -> LimitView {
        LimitView {
            asset: self.asset@,
            recipients: views_of(self.recipients@),
            max_per_call: self.max_per_call,
            max_total: self.max_total,
            spent: self.spent,
        }
    }
}

pub open spec fn permission_views(s: Seq<ProtocolPermission>) -> Seq<PermissionView> {
    s.map_values(|p: ProtocolPermission| p@)
}

pub open spec fn limit_input_views(s: Seq<AssetSpendLimitInput>) -> Seq<LimitInputView> {
    s.map_values(|l: AssetSpendLimitInput| l@)
}

pub open spec fn limit_views(s: Seq<AssetSpendLimit>) -> Seq<LimitView> {
    s.map_values(|l: AssetSpendLimit| l@)
}

pub struct PolicyInputView {
    pub salt: Seq<u8>,
    pub delegate: Seq<u8>,
    pub valid_after_ledger: u32,
    pub expires_at_ledger: u32,
    pub max_uses: Option<u32>,
    pub permissions: Seq<PermissionView>,
    pub spend_limits: Seq<LimitInputView>,
}

impl View for SessionPolicyInput {
    type V = PolicyInputView;

    open spec fn view(&self) -> PolicyInputView {
        PolicyInputView {
            salt: self.salt@,
            delegate: self.delegate@,
            valid_after_ledger: self.valid_after_ledger,
            expires_at_ledger: self.expires_at_ledger,
            max_uses: self.max_uses,
            permissions: permission_views(self.permissions@),
            spend_limits: limit_input_views(self.spend_limits@),
        }
    }
}

pub struct PolicyView {
    pub version: u32,
    pub policy_id: Seq<u8>,
    pub delegate: Seq<u8>,
    pub valid_after_ledger: u32,
    pub expires_at_ledger: u32,
    pub epoch: u64,
    pub max_uses: Option<u32>,
    pub uses: u32,
    pub permissions: Seq<PermissionView>,
    pub spend_limits: Seq<LimitView>,
}

impl View for SessionPolicy {
    type V = PolicyView;

    open spec fn view(&self) -> PolicyView {
        PolicyView {
            version: self.version,
            policy_id: self.policy_id@,
            delegate: self.delegate@,
            valid_after_ledger: self.valid_after_ledger,
            expires_at_ledger: self.expires_at_ledger,
            epoch: self.epoch,
            max_uses: self.max_uses,
            uses: self.uses,
            permissions: permission_views(self.permissions@),
            spend_limits: limit_views(self.spend_limits@),
        }
    }
}

pub enum ArgView {
    Address(AddressView),
    I128(i128),
    Other,
}

impl View for ContextArg {
    type V = ArgView;

    open spec fn view(&self) -> ArgView {
        match self {
            ContextArg::Address(a) => ArgView::Address(a@),
            ContextArg::I128(v) => ArgView::I128(*v),
            ContextArg::Other => ArgView::Other,
        }
    }
}

pub enum ContextView {
    Contract { contract: AddressView, fn_name: Seq<u8>, args: Seq<ArgView> },
    CreateContract,
}

impl View for AuthContext {
    type V = ContextView;

    open spec fn view(&self) -> ContextView {
        match self {
            AuthContext::Contract(c) => ContextView::Contract {
                contract: c.contract@,
                fn_name: c.fn_name@,
                args: c.args@.map_values(|a: ContextArg| a@),
            },
            AuthContext::CreateContract => ContextView::CreateContract,
        }
    }
}

pub open spec fn context_views(s: Seq<AuthContext>) -> Seq<ContextView> {
    s.map_values(|c: AuthContext| c@)
}

// ---------------------------------------------------------------------
// Policy validation
// ---------------------------------------------------------------------

/// The error a single permission raises, if any: a session may never manage
/// the account itself, nor approve or burn.
pub open spec fn permission_error(account: AddressView, p: PermissionView) -> Option<AccountError> {
    if p.contract == account {
        Some(AccountError::SessionUnauthorized)
    } else if p.function == approve_fn() || p.function == burn_fn() {
        Some(AccountError::InvalidSessionPolicy)
    } else {
        None
    }
}

/// The error of the first permission that raises one.
pub open spec fn permissions_error(account: AddressView, ps: Seq<PermissionView>) -> Option<
    AccountError,
>
    decreases ps.len(),
{
    if ps.len() == 0 {
        None
    } else {
        match permissions_error(account, ps.drop_last()) {
            Some(e) => Some(e),
            None => permission_error(account, ps.last()),
        }
    }
}

/// No contract/function pair is permitted twice.
pub open spec fn permissions_distinct(ps: Seq<PermissionView>) -> bool {
    forall|i: int, j: int| 0 <= i < j < ps.len() ==> ps[i] != ps[j]
}

/// A requested spend limit is well formed.
pub open spec fn limit_input_ok(account: AddressView, l: LimitInputView) -> bool {
    &&& l.asset != account
    &&& 0 < l.recipients.len() <= MAX_RECIPIENTS
    &&& 0 < l.max_per_call <= l.max_total
}

/// No asset has two spend limits.
pub open spec fn limit_assets_distinct(ls: Seq<LimitInputView>) -> bool {
    forall|i: int, j: int| 0 <= i < j < ls.len() ==> ls[i].asset != ls[j].asset
}

/// The checks on a new session request at ledger `current`, in the order
/// the account applies them.
pub open spec fn validate_input_spec(
    account: AddressView,
    input: PolicyInputView,
    current: u32,
) -> Result<(), AccountError> {
    if input.permissions.len() > MAX_PERMISSIONS {
        Err(AccountError::InvalidSessionPolicy)
    } else if input.spend_limits.len() > MAX_SPEND_LIMITS {
        Err(AccountError::InvalidSessionPolicy)
    } else if input.permissions.len() == 0 && input.spend_limits.len() == 0 {
        Err(AccountError::InvalidSessionPolicy)
    } else if input.expires_at_ledger <= current || input.expires_at_ledger
        <= input.valid_after_ledger {
        Err(AccountError::InvalidSessionPolicy)
    } else if input.expires_at_ledger - input.valid_after_ledger > MAX_SESSION_LIFETIME_LEDGERS {
        Err(AccountError::InvalidSessionPolicy)
    } else if input.max_uses == Some(0u32) {
        Err(AccountError::InvalidSessionPolicy)
    } else {
        match permissions_error(account, input.permissions) {
            Some(e) => Err(e),
            None => if !permissions_distinct(input.permissions) {
                Err(AccountError::InvalidSessionPolicy)
            } else if !(forall|i: int|
                0 <= i < input.spend_limits.len() ==> limit_input_ok(
                    account,
                    #[trigger] input.spend_limits[i],
                )) {
                Err(AccountError::InvalidSessionPolicy)
            } else if !limit_assets_distinct(input.spend_limits) {
                Err(AccountError::InvalidSessionPolicy)
            } else {
                Ok(())
            },
        }
    }
}

fn is_approve_or_burn(f: &Vec<u8>) -> (r: bool)
    ensures
        r == (f@ == approve_fn() || f@ == burn_fn()),
{
    let a = approve_fn_bytes();
    let b = burn_fn_bytes();
    bytes_eq(f, &a) || bytes_eq(f, &b)
}

fn validate_permissions(account: &Address, perms: &Vec<ProtocolPermission>) -> (r: Result<
    (),
    AccountError,
>)
    ensures
        match permissions_error(account@, permission_views(perms@)) {
            Some(e) => r == Err::<(), AccountError>(e),
            None => if permissions_distinct(permission_views(perms@)) {
                r is Ok
            } else {
                r == Err::<(), AccountError>(AccountError::InvalidSessionPolicy)
            },
        },
{
    let ghost ps = permission_views(perms@);
    let mut i: usize = 0;
    while i < perms.len()
        invariant
            i <= perms.len(),
            ps == permission_views(perms@),
            permissions_error(account@, ps.take(i as int)) is None,
        decreases perms.len() - i,
    {
        assert(ps.take(i + 1).drop_last() =~= ps.take(i as int));
        assert(ps.take(i + 1).last() == perms@[i as int]@);
        let p = &perms[i];
        if p.contract.same(account) {
            proof {
                lemma_permissions_error_extends(account@, ps, (i + 1) as int);
            }
            return Err(AccountError::SessionUnauthorized);
        }
        if is_approve_or_burn(&p.function) {
            proof {
                lemma_permissions_error_extends(account@, ps, (i + 1) as int);
            }
            return Err(AccountError::InvalidSessionPolicy);
        }
        i = i + 1;
    }
    assert(ps.take(perms.len() as int) =~= ps);
    let mut i: usize = 0;
    while i < perms.len()
        invariant
            i <= perms.len(),
            ps == permission_views(perms@),
            permissions_error(account@, ps) is None,
            forall|a: int, b: int| 0 <= a < i && a < b < ps.len() ==> ps[a] != ps[b],
        decreases perms.len() - i,
    {
        let mut j: usize = i + 1;
        while j < perms.len()
            invariant
                i < perms.len(),
                i + 1 <= j <= perms.len(),
                ps == permission_views(perms@),
                permissions_error(account@, ps) is None,
                forall|a: int, b: int| 0 <= a < i && a < b < ps.len() ==> ps[a] != ps[b],
                forall|b: int| i < b < j ==> ps[i as int] != ps[b],
            decreases perms.len() - j,
        {
            let same_contract = perms[i].contract.same(&perms[j].contract);
            let same_fn = bytes_eq(&perms[i].function, &perms[j].function);
            assert(ps[i as int] == perms@[i as int]@ && ps[j as int] == perms@[j as int]@);
            if same_contract && same_fn {
                return Err(AccountError::InvalidSessionPolicy);
            }
            j = j + 1;
        }
        i = i + 1;
    }
    Ok(())
}

/// The error of the first `n` permissions is the error of the whole list
/// once it occurs.
proof fn lemma_permissions_error_extends(account: AddressView, ps: Seq<PermissionView>, n: int)
    requires
        0 <= n <= ps.len(),
        permissions_error(account, ps.take(n)) is Some,
    ensures
        permissions_error(account, ps) == permissions_error(account, ps.take(n)),
    decreases ps.len() - n,
{
    if n < ps.len() {
        assert(ps.take(n + 1).drop_last() =~= ps.take(n));
        lemma_permissions_error_extends(account, ps, n + 1);
    } else {
        assert(ps.take(n) =~= ps);
    }
}

fn validate_spend_limits(account: &Address, limits: &Vec<AssetSpendLimitInput>) -> (r: Result<
    (),
    AccountError,
>)
    ensures
        r is Ok <==> ((forall|i: int|
            0 <= i < limits@.len() ==> limit_input_ok(account@, #[trigger] limit_input_views(limits@)[i]))
            && limit_assets_distinct(limit_input_views(limits@))),
        r is Err ==> r == Err::<(), AccountError>(AccountError::InvalidSessionPolicy),
{
    let ghost ls = limit_input_views(limits@);
    let mut i: usize = 0;
    while i < limits.len()
        invariant
            i <= limits.len(),
            ls == limit_input_views(limits@),
            forall|k: int| 0 <= k < i ==> limit_input_ok(account@, #[trigger] ls[k]),
        decreases limits.len() - i,
    {
        let l = &limits[i];
        assert(ls[i as int] == l@);
        if l.asset.same(account) || l.recipients.len() == 0 || l.recipients.len() > 16
            || l.max_per_call <= 0 || l.max_total <= 0 || l.max_per_call > l.max_total {
            return Err(AccountError::InvalidSessionPolicy);
        }
        i = i + 1;
    }
    let mut i: usize = 0;
    while i < limits.len()
        invariant
            i <= limits.len(),
            ls == limit_input_views(limits@),
            forall|k: int| 0 <= k < limits@.len() ==> limit_input_ok(account@, #[trigger] ls[k]),
            forall|a: int, b: int| 0 <= a < i && a < b < ls.len() ==> ls[a].asset != ls[b].asset,
        decreases limits.len() - i,
    {
        let mut j: usize = i + 1;
        while j < limits.len()
            invariant
                i < limits.len(),
                i + 1 <= j <= limits.len(),
                ls == limit_input_views(limits@),
                forall|a: int, b: int| 0 <= a < i && a < b < ls.len() ==> ls[a].asset != ls[b].asset,
                forall|b: int| i < b < j ==> ls[i as int].asset != ls[b].asset,
            decreases limits.len() - j,
        {
            assert(ls[i as int] == limits@[i as int]@ && ls[j as int] == limits@[j as int]@);
            if limits[i].asset.same(&limits[j].asset) {
                return Err(AccountError::InvalidSessionPolicy);
            }
            j = j + 1;
        }
        i = i + 1;
    }
    Ok(())
}

/// Validates a session request for `account` at ledger `current`. The
/// caller then derives the policy identifier and refuses it with
/// `SessionAlreadyExists` when a session under it is stored.
pub fn validate_new_session_policy(
    account: &Address,
    input: &SessionPolicyInput,
    current: u32,
) -> (r: Result<(), AccountError>)
    ensures
        r == validate_input_spec(account@, input@, current),
{
    if input.permissions.len() > 16 {
        return Err(AccountError::InvalidSessionPolicy);
    }
    if input.spend_limits.len() > 8 {
        return Err(AccountError::InvalidSessionPolicy);
    }
    if input.permissions.len() == 0 && input.spend_limits.len() == 0 {
        return Err(AccountError::InvalidSessionPolicy);
    }
    if input.expires_at_ledger <= current || input.expires_at_ledger <= input.valid_after_ledger {
        return Err(AccountError::InvalidSessionPolicy);
    }
    let lifetime = input.expires_at_ledger - input.valid_after_ledger;
    if lifetime > MAX_SESSION_LIFETIME_LEDGERS {
        return Err(AccountError::InvalidSessionPolicy);
    }
    if input.max_uses == Some(0u32) {
        return Err(AccountError::InvalidSessionPolicy);
    }
    validate_permissions(account, &input.permissions)?;
    validate_spend_limits(account, &input.spend_limits)?;
    Ok(())
}

fn copy_addresses(v: &Vec<Address>) -> (r: Vec<Address>)
    ensures
        views_of(r@) == views_of(v@),
{
    let mut r: Vec<Address> = Vec::new();
    let mut i: usize = 0;
    while i < v.len()
        invariant
            i <= v.len(),
            r.len() == i,
            views_of(r@) == views_of(v@).subrange(0, i as int),
        decreases v.len() - i,
    {
        let ghost old_r = r@;
        r.push(v[i].duplicate());
        assert(forall|j: int| 0 <= j < old_r.len() ==> r@[j] == old_r[j]);
        i = i + 1;
        assert(views_of(r@) =~= views_of(v@).subrange(0, i as int));
    }
    assert(views_of(v@).subrange(0, i as int) =~= views_of(v@));
    r
}

fn copy_permissions(v: &Vec<ProtocolPermission>) -> (r: Vec<ProtocolPermission>)
    ensures
        permission_views(r@) == permission_views(v@),
{
    let mut r: Vec<ProtocolPermission> = Vec::new();
    let mut i: usize = 0;
    while i < v.len()
        invariant
            i <= v.len(),
            r.len() == i,
            permission_views(r@) == permission_views(v@).subrange(0, i as int),
        decreases v.len() - i,
    {
        let ghost old_r = r@;
        r.push(
            ProtocolPermission {
                contract: v[i].contract.duplicate(),
                function: copy_bytes(&v[i].function),
            },
        );
        assert(forall|j: int| 0 <= j < old_r.len() ==> r@[j] == old_r[j]);
        i = i + 1;
        assert(permission_views(r@) =~= permission_views(v@).subrange(0, i as int));
    }
    assert(permission_views(v@).subrange(0, i as int) =~= permission_views(v@));
    r
}

/// The policy stored for a validated request: version one, nothing spent,
/// never used, bound to the current session epoch.
pub open spec fn new_policy_spec(input: PolicyInputView, policy_id: Seq<u8>, epoch: u64) -> PolicyView {
    PolicyView {
        version: SESSION_VERSION,
        policy_id,
        delegate: input.delegate,
        valid_after_ledger: input.valid_after_ledger,
        expires_at_ledger: input.expires_at_ledger,
        epoch,
        max_uses: input.max_uses,
        uses: 0,
        permissions: input.permissions,
        spend_limits: input.spend_limits.map_values(
            |l: LimitInputView|
                LimitView {
                    asset: l.asset,
                    recipients: l.recipients,
                    max_per_call: l.max_per_call,
                    max_total: l.max_total,
                    spent: 0,
                },
        ),
    }
}

/// Builds the policy to store for a validated request under its identifier
/// `policy_id` at session epoch `epoch`; `slot_taken` is whether a session
/// is stored under that identifier already, which is never overwritten.
pub fn create_session_policy(
    input: &SessionPolicyInput,
    policy_id: &Vec<u8>,
    epoch: u64,
    slot_taken: bool,
) -> (r: Result<SessionPolicy, AccountError>)
    ensures
        slot_taken ==> r == Err::<SessionPolicy, AccountError>(AccountError::SessionAlreadyExists),
        !slot_taken ==> (r matches Ok(p) && p@ == new_policy_spec(input@, policy_id@, epoch)),
        r matches Ok(p) ==> p@.policy_id == policy_id@,
{
    if slot_taken {
        return Err(AccountError::SessionAlreadyExists);
    }
    let mut limits: Vec<AssetSpendLimit> = Vec::new();
    let mut i: usize = 0;
    let ghost target = new_policy_spec(input@, policy_id@, epoch).spend_limits;
    while i < input.spend_limits.len()
        invariant
            i <= input.spend_limits.len(),
            limits.len() == i,
            target == new_policy_spec(input@, policy_id@, epoch).spend_limits,
            target.len() == input.spend_limits.len(),
            limit_views(limits@) == target.subrange(0, i as int),
        decreases input.spend_limits.len() - i,
    {
        let l = &input.spend_limits[i];
        let ghost old_l = limits@;
        limits.push(
            AssetSpendLimit {
                asset: l.asset.duplicate(),
                recipients: copy_addresses(&l.recipients),
                max_per_call: l.max_per_call,
                max_total: l.max_total,
                spent: 0,
            },
        );
        assert(forall|j: int| 0 <= j < old_l.len() ==> limits@[j] == old_l[j]);
        assert(limit_input_views(input.spend_limits@)[i as int] == l@);
        i = i + 1;
        assert(limit_views(limits@) =~= target.subrange(0, i as int));
    }
    assert(target.subrange(0, i as int) =~= target);
    let r = SessionPolicy {
        version: SESSION_VERSION,
        policy_id: copy_bytes(policy_id),
        delegate: copy_bytes(&input.delegate),
        valid_after_ledger: input.valid_after_ledger,
        expires_at_ledger: input.expires_at_ledger,
        epoch,
        max_uses: input.max_uses,
        uses: 0,
        permissions: copy_permissions(&input.permissions),
        spend_limits: limits,
    };
    assert(r@.spend_limits =~= target);
    Ok(r)
}

// ---------------------------------------------------------------------
// Session epochs and lifetime
// ---------------------------------------------------------------------

/// Advances the session epoch, invalidating every existing session.
pub fn increment_session_epoch(epoch: u64) -> (r: Result<u64, AccountError>)
    ensures
        epoch < u64::MAX ==> r == Ok::<u64, AccountError>((epoch + 1) as u64),
        epoch == u64::MAX ==> r == Err::<u64, AccountError>(AccountError::ArithmeticOverflow),
{
    match epoch.checked_add(1) {
        Some(n) => Ok(n),
        None => Err(AccountError::ArithmeticOverflow),
    }
}

/// Whether a stored session may be used at ledger `current` under session
/// epoch `epoch`.
pub open spec fn lifetime_spec(p: PolicyView, current: u32, epoch: u64) -> Result<(), AccountError> {
    if p.version != SESSION_VERSION {
        Err(AccountError::InvalidSessionPolicy)
    } else if current < p.valid_after_ledger || current > p.expires_at_ledger {
        Err(AccountError::SessionUnavailable)
    } else if p.epoch != epoch {
        Err(AccountError::SessionRevoked)
    } else if p.max_uses matches Some(m) && p.uses >= m {
        Err(AccountError::SessionUnavailable)
    } else {
        Ok(())
    }
}

/// Checks that a stored session is current, unrevoked and not used up.
pub fn validate_session_lifetime(policy: &SessionPolicy, current: u32, epoch: u64) -> (r: Result<
    (),
    AccountError,
>)
    ensures
        r == lifetime_spec(policy@, current, epoch),
{
    if policy.version != SESSION_VERSION {
        return Err(AccountError::InvalidSessionPolicy);
    }
    if current < policy.valid_after_ledger {
        return Err(AccountError::SessionUnavailable);
    }
    if current > policy.expires_at_ledger {
        return Err(AccountError::SessionUnavailable);
    }
    if policy.epoch != epoch {
        return Err(AccountError::SessionRevoked);
    }
    if let Some(max_uses) = policy.max_uses {
        if policy.uses >= max_uses {
            return Err(AccountError::SessionUnavailable);
        }
    }
    Ok(())
}

/// First step of authorizing with a session: the stored policy must exist
/// and be usable. The caller then checks the delegate's signature over the
/// authorization payload before the contexts are authorized.
pub fn begin_session_authorization(policy: Option<SessionPolicy>, current: u32, epoch: u64) -> (r:
    Result<SessionPolicy, AccountError>)
    ensures
        policy is None ==> r == Err::<SessionPolicy, AccountError>(AccountError::SessionNotFound),
        policy matches Some(p) ==> match lifetime_spec(p@, current, epoch) {
            Ok(_) => (r matches Ok(q) && q@ == p@),
            Err(e) => r == Err::<SessionPolicy, AccountError>(e),
        },
{
    match policy {
        None => Err(AccountError::SessionNotFound),
        Some(p) => {
            validate_session_lifetime(&p, current, epoch)?;
            Ok(p)
        },
    }
}

// ---------------------------------------------------------------------
// Context authorization
// ---------------------------------------------------------------------

/// Whether `l` limits transfers of `asset` to `to`.
pub open spec fn limit_matches(l: LimitView, asset: AddressView, to: AddressView) -> bool {
    l.asset == asset && l.recipients.contains(to)
}

/// The first spend limit for transfers of `asset` to `to`.
pub open spec fn first_matching_limit(ls: Seq<LimitView>, asset: AddressView, to: AddressView) -> Option<
    int,
> {
    if exists|j: int|
        0 <= j < ls.len() && limit_matches(#[trigger] ls[j], asset, to) && forall|k: int|
            0 <= k < j ==> !limit_matches(#[trigger] ls[k], asset, to) {
        Some(
            choose|j: int|
                0 <= j < ls.len() && limit_matches(#[trigger] ls[j], asset, to) && forall|k: int|
                    0 <= k < j ==> !limit_matches(#[trigger] ls[k], asset, to),
        )
    } else {
        None
    }
}

/// Authorizing a limited transfer of `amount` from `from` to `to` on the
/// token `asset`.
pub open spec fn transfer_spec(
    account: AddressView,
    p: PolicyView,
    asset: AddressView,
    args: Seq<ArgView>,
) -> Result<PolicyView, AccountError> {
    if args.len() != 3 {
        Err(AccountError::InvalidSessionPolicy)
    } else {
        match (args[0], args[1], args[2]) {
            (ArgView::Address(from), ArgView::Address(to), ArgView::I128(amount)) => {
                if from != account || amount <= 0 {
                    Err(AccountError::InvalidSessionPolicy)
                } else {
                    match first_matching_limit(p.spend_limits, asset, to) {
                        None => Err(AccountError::SessionUnauthorized),
                        Some(j) => {
                            let l = p.spend_limits[j];
                            if amount > l.max_per_call {
                                Err(AccountError::SessionLimitExceeded)
                            } else if l.spent + amount > i128::MAX || l.spent + amount < i128::MIN {
                                Err(AccountError::ArithmeticOverflow)
                            } else if l.spent + amount > l.max_total {
                                Err(AccountError::SessionLimitExceeded)
                            } else {
                                Ok(
                                    PolicyView {
                                        spend_limits: p.spend_limits.update(
                                            j,
                                            LimitView { spent: (l.spent + amount) as i128, ..l },
                                        ),
                                        ..p
                                    },
                                )
                            }
                        },
                    }
                }
            },
            _ => Err(AccountError::InvalidSessionPolicy),
        }
    }
}

/// Whether some spend limit concerns `asset`.
pub open spec fn is_limited_asset(ls: Seq<LimitView>, asset: AddressView) -> bool {
    exists|j: int| 0 <= j < ls.len() && (#[trigger] ls[j]).asset == asset
}

/// Whether `contract.function` is explicitly permitted.
pub open spec fn permission_exists(ps: Seq<PermissionView>, contract: AddressView, function: Seq<
    u8,
>) -> bool {
    exists|j: int|
        0 <= j < ps.len() && (#[trigger] ps[j]).contract == contract && ps[j].function == function
}

/// Authorizing one invocation under a session policy.
pub open spec fn context_step_spec(account: AddressView, p: PolicyView, c: ContextView) -> Result<
    PolicyView,
    AccountError,
> {
    match c {
        ContextView::CreateContract => Err(AccountError::SessionUnauthorized),
        ContextView::Contract { contract, fn_name, args } => {
            if contract == account {
                Err(AccountError::SessionUnauthorized)
            } else if fn_name == approve_fn() || fn_name == burn_fn() {
                Err(AccountError::SessionUnauthorized)
            } else if fn_name == transfer_fn() && is_limited_asset(p.spend_limits, contract) {
                transfer_spec(account, p, contract, args)
            } else if !permission_exists(p.permissions, contract, fn_name) {
                Err(AccountError::SessionUnauthorized)
            } else {
                Ok(p)
            }
        },
    }
}

/// A session's transfer of a token that has a spend limit is charged to a
/// limit, whatever the session's permissions say: when it is authorized, the
/// arguments are `(account, to, amount)` with a positive amount, and some
/// limit for the token that lists `to` allows the amount per call and has
/// its spent amount grow by exactly `amount`, staying within its total cap.
pub proof fn lemma_limited_transfer_is_charged(
    account: AddressView,
    p: PolicyView,
    contract: AddressView,
    args: Seq<ArgView>,
)
    requires
        is_limited_asset(p.spend_limits, contract),
    ensures
        context_step_spec(
            account,
            p,
            ContextView::Contract { contract, fn_name: seq![116u8, 114, 97, 110, 115, 102, 101, 114], args },
        ) is Ok ==> {
            let q = context_step_spec(
                account,
                p,
                ContextView::Contract { contract, fn_name: seq![116u8, 114, 97, 110, 115, 102, 101, 114], args },
            )->Ok_0;
            &&& args.len() == 3
            &&& args[0] == ArgView::Address(account)
            &&& args[1] is Address
            &&& args[2] is I128
            &&& args[2]->I128_0 > 0
            &&& exists|j: int|
                0 <= j < p.spend_limits.len() && q.spend_limits.len() == p.spend_limits.len()
                    && (#[trigger] p.spend_limits[j]).asset == contract
                    && p.spend_limits[j].recipients.contains(args[1]->Address_0)
                    && args[2]->I128_0 <= p.spend_limits[j].max_per_call
                    && q.spend_limits[j].spent == p.spend_limits[j].spent + args[2]->I128_0
                    && q.spend_limits[j].spent <= p.spend_limits[j].max_total
        },
{
    let c = ContextView::Contract { contract, fn_name: seq![116u8, 114, 97, 110, 115, 102, 101, 114], args };
    assert(seq![116u8, 114, 97, 110, 115, 102, 101, 114] == transfer_fn());
    if context_step_spec(account, p, c) is Ok {
        assert(contract != account);
        assert(context_step_spec(account, p, c) == transfer_spec(account, p, contract, args));
        let to = args[1]->Address_0;
        let j = first_matching_limit(p.spend_limits, contract, to)->Some_0;
        let q = context_step_spec(account, p, c)->Ok_0;
        assert(q.spend_limits[j].spent == p.spend_limits[j].spent + args[2]->I128_0);
        assert(limit_matches(p.spend_limits[j], contract, to));
    }
}

/// Authorizing a sequence of invocations in order.
pub open spec fn contexts_run_spec(account: AddressView, p: PolicyView, cs: Seq<ContextView>) -> Result<
    PolicyView,
    AccountError,
>
    decreases cs.len(),
{
    if cs.len() == 0 {
        Ok(p)
    } else {
        match contexts_run_spec(account, p, cs.drop_last()) {
            Err(e) => Err(e),
            Ok(q) => context_step_spec(account, q, cs.last()),
        }
    }
}

/// Authorizing all the invocations of one authorization and counting one use.
pub open spec fn finish_spec(account: AddressView, p: PolicyView, cs: Seq<ContextView>) -> Result<
    PolicyView,
    AccountError,
> {
    match authorize_contexts_spec(account, p, cs) {
        Err(e) => Err(e),
        Ok(q) => if q.uses + 1 > u32::MAX {
            Err(AccountError::ArithmeticOverflow)
        } else {
            Ok(PolicyView { uses: (q.uses + 1) as u32, ..q })
        },
    }
}

/// Authorizing the invocations of one authorization: there must be at least
/// one and at most `MAX_CONTEXTS`; then each is authorized in order.
pub open spec fn authorize_contexts_spec(
    account: AddressView,
    p: PolicyView,
    cs: Seq<ContextView>,
) -> Result<PolicyView, AccountError> {
    if cs.len() == 0 || cs.len() > MAX_CONTEXTS {
        Err(AccountError::InvalidSessionPolicy)
    } else {
        contexts_run_spec(account, p, cs)
    }
}

fn contains_recipient(recipients: &Vec<Address>, recipient: &Address) -> (r: bool)
    ensures
        r == views_of(recipients@).contains(recipient@),
{
    let mut i: usize = 0;
    while i < recipients.len()
        invariant
            i <= recipients.len(),
            forall|k: int| 0 <= k < i ==> recipients@[k]@ != recipient@,
        decreases recipients.len() - i,
    {
        if recipients[i].same(recipient) {
            assert(views_of(recipients@)[i as int] == recipient@);
            return true;
        }
        i = i + 1;
    }
    assert forall|k: int| 0 <= k < views_of(recipients@).len() implies views_of(recipients@)[k]
        != recipient@ by {
        assert(views_of(recipients@)[k] == recipients@[k]@);
    }
    false
}

fn is_limited(limits: &Vec<AssetSpendLimit>, contract: &Address) -> (r: bool)
    ensures
        r == is_limited_asset(limit_views(limits@), contract@),
{
    let mut i: usize = 0;
    while i < limits.len()
        invariant
            i <= limits.len(),
            forall|k: int| 0 <= k < i ==> limits@[k].asset@ != contract@,
        decreases limits.len() - i,
    {
        if limits[i].asset.same(contract) {
            assert(limit_views(limits@)[i as int].asset == contract@);
            return true;
        }
        i = i + 1;
    }
    assert forall|k: int| 0 <= k < limit_views(limits@).len() implies (#[trigger] limit_views(
        limits@,
    )[k]).asset != contract@ by {
        assert(limit_views(limits@)[k] == limits@[k]@);
    }
    false
}

fn has_permission(perms: &Vec<ProtocolPermission>, contract: &Address, function: &Vec<u8>) -> (r:
    bool)
    ensures
        r == permission_exists(permission_views(perms@), contract@, function@),
{
    let mut i: usize = 0;
    while i < perms.len()
        invariant
            i <= perms.len(),
            forall|k: int|
                0 <= k < i ==> !(perms@[k].contract@ == contract@ && perms@[k].function@
                    == function@),
        decreases perms.len() - i,
    {
        if perms[i].contract.same(contract) && bytes_eq(&perms[i].function, function) {
            assert(permission_views(perms@)[i as int] == perms@[i as int]@);
            return true;
        }
        i = i + 1;
    }
    assert forall|k: int| 0 <= k < permission_views(perms@).len() implies !((#[trigger] permission_views(
        perms@,
    )[k]).contract == contract@ && permission_views(perms@)[k].function == function@) by {
        assert(permission_views(perms@)[k] == perms@[k]@);
    }
    false
}

/// A limit satisfying the first-match property is the first match.
proof fn lemma_first_match_is(ls: Seq<LimitView>, asset: AddressView, to: AddressView, j: int)
    requires
        0 <= j < ls.len(),
        limit_matches(ls[j], asset, to),
        forall|k: int| 0 <= k < j ==> !limit_matches(#[trigger] ls[k], asset, to),
    ensures
        first_matching_limit(ls, asset, to) == Some(j),
{
    let c = choose|c: int|
        0 <= c < ls.len() && limit_matches(#[trigger] ls[c], asset, to) && forall|k: int|
            0 <= k < c ==> !limit_matches(#[trigger] ls[k], asset, to);
    if c < j {
        assert(!limit_matches(ls[c], asset, to));
    }
    if j < c {
        assert(!limit_matches(ls[j], asset, to));
    }
}

/// With no matching limit there is no first match.
proof fn lemma_first_match_none(ls: Seq<LimitView>, asset: AddressView, to: AddressView)
    requires
        forall|k: int| 0 <= k < ls.len() ==> !limit_matches(#[trigger] ls[k], asset, to),
    ensures
        first_matching_limit(ls, asset, to) is None,
{
}

/// Authorizes a token transfer under the session's spend limits: the
/// arguments must be `(from, to, amount)` with `from` this account and a
/// positive amount, and the first limit for the token that lists `to` must
/// allow it per call and in total; that limit's spent amount then grows by
/// `amount`.
pub fn authorize_transfer(account: &Address, context: &ContractContext, policy: &mut SessionPolicy) -> (r:
    Result<(), AccountError>)
    ensures
        match transfer_spec(
            account@,
            old(policy)@,
            context.contract@,
            context.args@.map_values(|a: ContextArg| a@),
        ) {
            Ok(q) => r is Ok && final(policy)@ == q,
            Err(e) => r == Err::<(), AccountError>(e) && final(policy)@ == old(policy)@,
        },
{
    let ghost args = context.args@.map_values(|a: ContextArg| a@);
    if context.args.len() != 3 {
        return Err(AccountError::InvalidSessionPolicy);
    }
    assert(args[0] == context.args@[0]@ && args[1] == context.args@[1]@ && args[2]
        == context.args@[2]@);
    let from = match &context.args[0] {
        ContextArg::Address(a) => a,
        _ => {
            return Err(AccountError::InvalidSessionPolicy);
        },
    };
    let to = match &context.args[1] {
        ContextArg::Address(a) => a,
        _ => {
            return Err(AccountError::InvalidSessionPolicy);
        },
    };
    let amount: i128 = match &context.args[2] {
        ContextArg::I128(v) => *v,
        _ => {
            return Err(AccountError::InvalidSessionPolicy);
        },
    };
    if !from.same(account) || amount <= 0 {
        return Err(AccountError::InvalidSessionPolicy);
    }
    let ghost lv = limit_views(policy.spend_limits@);
    let mut j: usize = 0;
    while j < policy.spend_limits.len()
        invariant
            j <= policy.spend_limits.len(),
            policy@ == old(policy)@,
            lv == limit_views(policy.spend_limits@),
            args == context.args@.map_values(|a: ContextArg| a@),
            args.len() == 3,
            args[0] == ArgView::Address(from@),
            args[1] == ArgView::Address(to@),
            args[2] == ArgView::I128(amount),
            from@ == account@,
            amount > 0,
            forall|k: int| 0 <= k < j ==> !limit_matches(#[trigger] lv[k], context.contract@, to@),
        decreases policy.spend_limits.len() - j,
    {
        assert(lv[j as int] == policy.spend_limits@[j as int]@);
        let matches = policy.spend_limits[j].asset.same(&context.contract) && contains_recipient(
            &policy.spend_limits[j].recipients,
            to,
        );
        if matches {
            proof {
                lemma_first_match_is(lv, context.contract@, to@, j as int);
            }
            let limit = &policy.spend_limits[j];
            if amount > limit.max_per_call {
                return Err(AccountError::SessionLimitExceeded);
            }
            let next = match limit.spent.checked_add(amount) {
                Some(n) => n,
                None => {
                    return Err(AccountError::ArithmeticOverflow);
                },
            };
            if next > limit.max_total {
                return Err(AccountError::SessionLimitExceeded);
            }
            let updated = AssetSpendLimit {
                asset: limit.asset.duplicate(),
                recipients: copy_addresses(&limit.recipients),
                max_per_call: limit.max_per_call,
                max_total: limit.max_total,
                spent: next,
            };
            let ghost before = policy.spend_limits@;
            policy.spend_limits.set(j, updated);
            assert(limit_views(policy.spend_limits@) =~= lv.update(
                j as int,
                LimitView { spent: next, ..lv[j as int] },
            )) by {
                assert forall|k: int| 0 <= k < lv.len() implies #[trigger] limit_views(
                    policy.spend_limits@,
                )[k] == lv.update(j as int, LimitView { spent: next, ..lv[j as int] })[k] by {
                    if k != j {
                        assert(policy.spend_limits@[k] == before[k]);
                    }
                }
            }
            return Ok(());
        }
        j = j + 1;
    }
    proof {
        lemma_first_match_none(lv, context.contract@, to@);
    }
    Err(AccountError::SessionUnauthorized)
}

/// Authorizes one call under the session: no contract creation, no call
/// into this account, no `approve` or `burn`; a transfer of a limited token
/// goes by its spend limits, any other call needs a permission for its
/// contract and function.
pub fn authorize_context(account: &Address, context: &AuthContext, policy: &mut SessionPolicy) -> (r:
    Result<(), AccountError>)
    ensures
        match context_step_spec(account@, old(policy)@, context@) {
            Ok(q) => r is Ok && final(policy)@ == q,
            Err(e) => r == Err::<(), AccountError>(e),
        },
{
    let c = match context {
        AuthContext::Contract(c) => c,
        AuthContext::CreateContract => {
            return Err(AccountError::SessionUnauthorized);
        },
    };
    if c.contract.same(account) {
        return Err(AccountError::SessionUnauthorized);
    }
    if is_approve_or_burn(&c.fn_name) {
        return Err(AccountError::SessionUnauthorized);
    }
    let t = transfer_fn_bytes();
    if bytes_eq(&c.fn_name, &t) && is_limited(&policy.spend_limits, &c.contract) {
        return authorize_transfer(account, c, policy);
    }
    if !has_permission(&policy.permissions, &c.contract, &c.fn_name) {
        return Err(AccountError::SessionUnauthorized);
    }
    Ok(())
}

/// Authorizes the calls of one authorization: an empty list, or one of more
/// than `MAX_CONTEXTS` calls, is refused; otherwise the calls are authorized
/// in order, each under the policy as the earlier ones left it, and the
/// first refusal is returned.
pub fn authorize_contexts(account: &Address, policy: &mut SessionPolicy, contexts: &Vec<AuthContext>) -> (r:
    Result<(), AccountError>)
    ensures
        match authorize_contexts_spec(account@, old(policy)@, context_views(contexts@)) {
            Ok(q) => r is Ok && final(policy)@ == q,
            Err(e) => r == Err::<(), AccountError>(e),
        },
        (contexts@.len() == 0 || contexts@.len() > MAX_CONTEXTS) ==> r == Err::<(), AccountError>(
            AccountError::InvalidSessionPolicy,
        ),
{
    if contexts.len() == 0 || contexts.len() > 32 {
        return Err(AccountError::InvalidSessionPolicy);
    }
    let ghost cs = context_views(contexts@);
    let mut i: usize = 0;
    assert(cs.take(0) =~= Seq::<ContextView>::empty());
    while i < contexts.len()
        invariant
            i <= contexts.len(),
            0 < contexts.len() <= 32,
            cs == context_views(contexts@),
            contexts_run_spec(account@, old(policy)@, cs.take(i as int)) == Ok::<
                PolicyView,
                AccountError,
            >(policy@),
        decreases contexts.len() - i,
    {
        assert(cs.take(i + 1).drop_last() =~= cs.take(i as int));
        assert(cs.take(i + 1).last() == contexts@[i as int]@);
        let ghost before = policy@;
        let res = authorize_context(account, &contexts[i], policy);
        match res {
            Ok(()) => {},
            Err(e) => {
                proof {
                    assert(contexts_run_spec(account@, old(policy)@, cs.take(i + 1)) == Err::<
                        PolicyView,
                        AccountError,
                    >(e));
                    lemma_run_error_extends(account@, old(policy)@, cs, (i + 1) as int);
                }
                return Err(e);
            },
        }
        i = i + 1;
    }
    assert(cs.take(contexts.len() as int) =~= cs);
    Ok(())
}

/// Authorizes the invocations of one authorization under a usable session
/// (see `begin_session_authorization`) and counts one use. Limited token
/// transfers are charged to their spend limit; every other call must be
/// explicitly permitted. Returns the policy to store back.
pub fn finish_session_authorization(
    account: &Address,
    policy: SessionPolicy,
    contexts: &Vec<AuthContext>,
) -> (r: Result<SessionPolicy, AccountError>)
    ensures
        match finish_spec(account@, policy@, context_views(contexts@)) {
            Ok(q) => (r matches Ok(p) && p@ == q),
            Err(e) => r == Err::<SessionPolicy, AccountError>(e),
        },
{
    let mut current = policy;
    authorize_contexts(account, &mut current, contexts)?;
    match current.uses.checked_add(1) {
        Some(u) => {
            current.uses = u;
            Ok(current)
        },
        None => Err(AccountError::ArithmeticOverflow),
    }
}

/// Once authorizing a prefix of the invocations fails, authorizing all of
/// them fails with the same error.
proof fn lemma_run_error_extends(account: AddressView, p: PolicyView, cs: Seq<ContextView>, n: int)
    requires
        0 <= n <= cs.len(),
        contexts_run_spec(account, p, cs.take(n)) is Err,
    ensures
        contexts_run_spec(account, p, cs) == contexts_run_spec(account, p, cs.take(n)),
    decreases cs.len() - n,
{
    if n < cs.len() {
        assert(cs.take(n + 1).drop_last() =~= cs.take(n));
        lemma_run_error_extends(account, p, cs, n + 1);
    } else {
        assert(cs.take(n) =~= cs);
    }
}

/// Every spend limit has spent a non-negative amount, at most its total cap.
pub open spec fn limits_within_caps(p: PolicyView) -> bool {
    forall|j: int|
        0 <= j < p.spend_limits.len() ==> 0 <= (#[trigger] p.spend_limits[j]).spent
            <= p.spend_limits[j].max_total
}

/// What authorizing invocations never changes: the policy apart from the
/// amounts spent, and the limits apart from their amounts spent; amounts
/// spent never decrease.
pub open spec fn same_policy_more_spent(p: PolicyView, q: PolicyView) -> bool {
    &&& q.version == p.version
    &&& q.policy_id == p.policy_id
    &&& q.delegate == p.delegate
    &&& q.valid_after_ledger == p.valid_after_ledger
    &&& q.expires_at_ledger == p.expires_at_ledger
    &&& q.epoch == p.epoch
    &&& q.max_uses == p.max_uses
    &&& q.uses == p.uses
    &&& q.permissions == p.permissions
    &&& q.spend_limits.len() == p.spend_limits.len()
    &&& forall|j: int|
        0 <= j < p.spend_limits.len() ==> {
            let a = #[trigger] p.spend_limits[j];
            let b = q.spend_limits[j];
            &&& b.asset == a.asset
            &&& b.recipients == a.recipients
            &&& b.max_per_call == a.max_per_call
            &&& b.max_total == a.max_total
            &&& b.spent >= a.spent
        }
}

/// Authorizing one invocation keeps every amount spent within its cap, and
/// never calls the account itself, `approve` or `burn`.
pub proof fn lemma_context_step_safe(account: AddressView, p: PolicyView, c: ContextView)
    requires
        limits_within_caps(p),
        context_step_spec(account, p, c) is Ok,
    ensures
        limits_within_caps(context_step_spec(account, p, c)->Ok_0),
        same_policy_more_spent(p, context_step_spec(account, p, c)->Ok_0),
        c matches ContextView::Contract { contract, fn_name, .. } && contract != account
            && fn_name != approve_fn() && fn_name != burn_fn(),
{
    let q = context_step_spec(account, p, c)->Ok_0;
    if let ContextView::Contract { contract, fn_name, args } = c {
        if fn_name == transfer_fn() && is_limited_asset(p.spend_limits, contract) {
            if let (ArgView::Address(_from), ArgView::Address(to), ArgView::I128(_amount)) = (
                args[0],
                args[1],
                args[2],
            ) {
                let j = first_matching_limit(p.spend_limits, contract, to)->Some_0;
                assert forall|k: int| 0 <= k < q.spend_limits.len() implies 0 <= (
                #[trigger] q.spend_limits[k]).spent <= q.spend_limits[k].max_total by {
                    if k != j {
                        assert(q.spend_limits[k] == p.spend_limits[k]);
                    }
                }
            }
        }
    }
}

/// Authorizing a sequence of invocations keeps every amount spent within
/// its cap and changes nothing but the amounts spent.
pub proof fn lemma_contexts_run_safe(account: AddressView, p: PolicyView, cs: Seq<ContextView>)
    requires
        limits_within_caps(p),
        contexts_run_spec(account, p, cs) is Ok,
    ensures
        limits_within_caps(contexts_run_spec(account, p, cs)->Ok_0),
        same_policy_more_spent(p, contexts_run_spec(account, p, cs)->Ok_0),
    decreases cs.len(),
{
    if cs.len() > 0 {
        lemma_contexts_run_safe(account, p, cs.drop_last());
        let q = contexts_run_spec(account, p, cs.drop_last())->Ok_0;
        lemma_context_step_safe(account, q, cs.last());
    }
}

/// A session never spends beyond a limit's cap and is never used more
/// often than its maximum number of uses: a usable session that authorizes
/// successfully stays within both, counting exactly one more use.
pub proof fn lemma_session_stays_within_limits(
    account: AddressView,
    p: PolicyView,
    cs: Seq<ContextView>,
    current: u32,
    epoch: u64,
)
    requires
        limits_within_caps(p),
        lifetime_spec(p, current, epoch) is Ok,
        finish_spec(account, p, cs) is Ok,
    ensures
        ({
            let q = finish_spec(account, p, cs)->Ok_0;
            &&& limits_within_caps(q)
            &&& q.uses == p.uses + 1
            &&& (p.max_uses matches Some(m) ==> q.uses <= m)
            &&& q.epoch == p.epoch && q.delegate == p.delegate && q.permissions == p.permissions
        }),
{
    lemma_contexts_run_safe(account, p, cs);
}

/// A newly created session has spent nothing, so its amounts are within
/// their caps.
pub proof fn lemma_new_policy_within_caps(input: PolicyInputView, policy_id: Seq<u8>, epoch: u64)
    requires
        forall|i: int| 0 <= i < input.spend_limits.len() ==> 0 <= (
        #[trigger] input.spend_limits[i]).max_total,
    ensures
        limits_within_caps(new_policy_spec(input, policy_id, epoch)),
{
}

/// Revoking all sessions by advancing the epoch makes every session created
/// under an earlier epoch unusable.
pub proof fn lemma_epoch_advance_revokes(p: PolicyView, current: u32, epoch: u64)
    requires
        p.epoch <= epoch,
        epoch < u64::MAX,
    ensures
        lifetime_spec(p, current, (epoch + 1) as u64) is Err,
{
}

} // verus!
