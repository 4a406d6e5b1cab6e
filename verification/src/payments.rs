//! Social payments: a payment to a social identity goes straight to the
//! wallet bound to it, or waits as a pending payment that the identity's
//! wallet may claim before it expires and its sender may refund after.
use vstd::prelude::*;

use crate::address::{Address, AddressView};
use crate::address_set::AddressSet;
use crate::bytes::copy_bytes;
use crate::constants::DEFAULT_CLAIM_PERIOD_SECONDS;
use crate::crypto::{sha256, sha256_digest};
use crate::errors::{RegistryError, UpgradeError};
use crate::governance::{empty_governance, Governance};
use crate::identity::{opt_address, userid_check, userid_key_spec, userid_payment_key, validate_userid};
use crate::xdr::{
    be64, lemma_be64_injective, push_xdr_address, push_xdr_i128, push_xdr_string, push_xdr_u64, xdr_address, xdr_i128,
    xdr_string, xdr_u64,
};

use soroban_sdk::Env;

verus! {

/// The lifecycle state of a payment.
#[derive(PartialEq, Eq, Structural, Clone, Copy, Debug)]
pub enum PaymentStatus {
    Pending,
    Claimed,
    Refunded,
}

/// A payment waiting for the wallet of a social identity.
pub struct PendingPayment {
    pub payment_id: Vec<u8>,
    pub sender: Address,
    pub asset: Address,
    pub amount: i128,
    pub platform: Vec<u8>,
    pub user_id: Vec<u8>,
    pub created_at: u64,
    pub expires_at: u64,
    pub status: PaymentStatus,
    pub claimed_by: Option<Address>,
}

/// A payment, over views.
pub struct PendingPaymentView {
    pub payment_id: Seq<u8>,
    pub sender: AddressView,
    pub asset: AddressView,
    pub amount: i128,
    pub platform: Seq<u8>,
    pub user_id: Seq<u8>,
    pub created_at: u64,
    pub expires_at: u64,
    pub status: PaymentStatus,
    pub claimed_by: Option<AddressView>,
}

impl View for PendingPayment {
    type V = PendingPaymentView;

    open spec fn view(&self) -> PendingPaymentView {
        PendingPaymentView {
            payment_id: self.payment_id@,
            sender: self.sender@,
            asset: self.asset@,
            amount: self.amount,
            platform: self.platform@,
            user_id: self.user_id@,
            created_at: self.created_at,
            expires_at: self.expires_at,
            status: self.status,
            claimed_by: opt_address(self.claimed_by),
        }
    }
}

impl PendingPayment {
    /// A copy of this payment.
    pub fn duplicate(&self) -> (r: PendingPayment)
        ensures
            r@ == self@,
    {
        PendingPayment {
            payment_id: copy_bytes(&self.payment_id),
            sender: self.sender.duplicate(),
            asset: self.asset.duplicate(),
            amount: self.amount,
            platform: copy_bytes(&self.platform),
            user_id: copy_bytes(&self.user_id),
            created_at: self.created_at,
            expires_at: self.expires_at,
            status: self.status,
            claimed_by: match &self.claimed_by {
                Some(a) => Some(a.duplicate()),
                None => None,
            },
        }
    }
}

/// How a payment to a social identity is carried out.
pub enum PaymentResult {
    /// Sent straight to the wallet bound to the identity.
    Direct(Address),
    /// Held under this payment id until claimed or refunded.
    Pending(Vec<u8>),
}

/// What `pay_to_social` decided: send to a bound wallet, or store a pending
/// payment and index it under the identity's key (and the sender).
pub enum PaymentRoute {
    Direct(Address),
    Pending(PendingPayment, Vec<u8>),
}

/// A payment route, over views.
pub enum PaymentRouteView {
    Direct(AddressView),
    Pending(PendingPaymentView, Seq<u8>),
}

impl View for PaymentRoute {
    type V = PaymentRouteView;

    open spec fn view(&self) -> PaymentRouteView {
        match self {
            PaymentRoute::Direct(a) => PaymentRouteView::Direct(a@),
            PaymentRoute::Pending(p, k) => PaymentRouteView::Pending(p@, k@),
        }
    }
}

impl PaymentRoute {
    /// The result reported to the payer.
    pub fn result(&self) -> (r: PaymentResult)
        ensures
            match (self@, r) {
                (PaymentRouteView::Direct(a), PaymentResult::Direct(b)) => b@ == a,
                (PaymentRouteView::Pending(p, _), PaymentResult::Pending(id)) => id@ == p.payment_id,
                _ => false,
            },
    {
        match self {
            PaymentRoute::Direct(a) => PaymentResult::Direct(a.duplicate()),
            PaymentRoute::Pending(p, _) => PaymentResult::Pending(copy_bytes(&p.payment_id)),
        }
    }
}

/// "social_payment"
pub open spec fn payment_tag() -> Seq<u8> {
    seq![115u8, 111, 99, 105, 97, 108, 95, 112, 97, 121, 109, 101, 110, 116]
}

/// The bytes hashed into a payment id.
pub open spec fn payment_payload(
    sender: AddressView,
    asset: AddressView,
    amount: i128,
    platform: Seq<u8>,
    user_id: Seq<u8>,
    nonce: u64,
) -> Seq<u8> {
    xdr_string(payment_tag()) + xdr_address(sender) + xdr_address(asset) + xdr_i128(amount)
        + xdr_string(platform) + xdr_string(user_id) + xdr_u64(nonce)
}

/// The id of a payment: the SHA-256 digest of its sender, asset, amount,
/// identity and the router's nonce; the same inputs give the same id.
pub fn generate_payment_id(
    env: &Env,
    sender: &Address,
    asset: &Address,
    amount: i128,
    platform: &Vec<u8>,
    user_id: &Vec<u8>,
    nonce: u64,
) -> (r: Vec<u8>)
    requires
        sender@.key.len() <= 64,
        asset@.key.len() <= 64,
        platform@.len() <= 0x1000_0000,
        user_id@.len() <= 0x1000_0000,
    ensures
        r@ == sha256_digest(payment_payload(sender@, asset@, amount, platform@, user_id@, nonce)),
{
    let tag: Vec<u8> = vec![115u8, 111, 99, 105, 97, 108, 95, 112, 97, 121, 109, 101, 110, 116];
    assert(tag@ =~= payment_tag());
    let mut data: Vec<u8> = Vec::new();
    push_xdr_string(&mut data, &tag);
    push_xdr_address(&mut data, sender);
    push_xdr_address(&mut data, asset);
    push_xdr_i128(&mut data, amount);
    push_xdr_string(&mut data, platform);
    push_xdr_string(&mut data, user_id);
    push_xdr_u64(&mut data, nonce);
    assert(data@ =~= payment_payload(sender@, asset@, amount, platform@, user_id@, nonce));
    sha256(env, &data)
}

/// The view of the result of a payment.
pub open spec fn route_result(r: Result<PaymentRoute, RegistryError>) -> Result<
    PaymentRouteView,
    RegistryError,
> {
    match r {
        Ok(x) => Ok(x@),
        Err(e) => Err(e),
    }
}

/// The view of the result of a claim or a refund.
pub open spec fn payment_result(r: Result<PendingPayment, RegistryError>) -> Result<
    PendingPaymentView,
    RegistryError,
> {
    match r {
        Ok(p) => Ok(p@),
        Err(e) => Err(e),
    }
}

/// The claim window of a payment: the requested duration, or seven days.
pub open spec fn claim_period(duration: Option<u64>) -> u64 {
    match duration {
        Some(d) => d,
        None => DEFAULT_CLAIM_PERIOD_SECONDS,
    }
}

/// The state of the social payments router that is not keyed by payment or
/// identity: admin, registry, payment nonce, supported assets, governance.
pub struct SocialPayments {
    pub admin: Option<Address>,
    pub registry: Option<Address>,
    pub nonce: u64,
    pub supported_assets: AddressSet,
    pub governance: Governance,
}

/// Claiming `p` for `claimer` at time `now`, when the registry resolves
/// the payment's identity to `resolved`.
pub open spec fn claim_spec(
    p: PendingPaymentView,
    claimer: AddressView,
    now: u64,
    resolved: Option<AddressView>,
) -> Result<PendingPaymentView, RegistryError> {
    if p.status != PaymentStatus::Pending {
        Err(RegistryError::NotClaimable)
    } else if now >= p.expires_at {
        Err(RegistryError::Expired)
    } else if resolved != Some(claimer) {
        Err(RegistryError::Unauthorized)
    } else {
        Ok(PendingPaymentView { status: PaymentStatus::Claimed, claimed_by: Some(claimer), ..p })
    }
}

/// Refunding `p` to `sender` at time `now`.
pub open spec fn refund_spec(p: PendingPaymentView, sender: AddressView, now: u64) -> Result<
    PendingPaymentView,
    RegistryError,
> {
    if p.status != PaymentStatus::Pending {
        Err(RegistryError::NotRefundable)
    } else if p.sender != sender {
        Err(RegistryError::Unauthorized)
    } else if now < p.expires_at {
        Err(RegistryError::NotExpired)
    } else {
        Ok(PendingPaymentView { status: PaymentStatus::Refunded, ..p })
    }
}

/// The checks on a claim that come before the identity is resolved.
pub fn check_claim(payment: &PendingPayment, now: u64) -> (r: Result<(), RegistryError>)
    ensures
        payment.status != PaymentStatus::Pending ==> r == Err::<(), RegistryError>(
            RegistryError::NotClaimable,
        ),
        payment.status == PaymentStatus::Pending && now >= payment.expires_at ==> r == Err::<
            (),
            RegistryError,
        >(RegistryError::Expired),
        payment.status == PaymentStatus::Pending && now < payment.expires_at ==> r is Ok,
{
    if payment.status != PaymentStatus::Pending {
        return Err(RegistryError::NotClaimable);
    }
    if now >= payment.expires_at {
        return Err(RegistryError::Expired);
    }
    Ok(())
}

/// Claims a pending payment for `claimer` at time `now`, given the wallet
/// the registry resolves the payment's identity to: the payment as it is
/// stored afterwards, claimed by `claimer`, whose amount then goes to
/// `claimer`.
pub fn claim_one(
    payment: &PendingPayment,
    claimer: &Address,
    now: u64,
    resolved: &Option<Address>,
) -> (r: Result<PendingPayment, RegistryError>)
    ensures
        payment_result(r) == claim_spec(payment@, claimer@, now, opt_address(*resolved)),
{
    check_claim(payment, now)?;
    let authorized = match resolved {
        Some(w) => w.same(claimer),
        None => false,
    };
    if !authorized {
        return Err(RegistryError::Unauthorized);
    }
    let mut claimed = payment.duplicate();
    claimed.status = PaymentStatus::Claimed;
    claimed.claimed_by = Some(claimer.duplicate());
    Ok(claimed)
}

/// Refunds an expired pending payment to its sender at time `now`: the
/// payment as it is stored afterwards, whose amount then goes back to the
/// sender.
pub fn refund_one(payment: &PendingPayment, sender: &Address, now: u64) -> (r: Result<
    PendingPayment,
    RegistryError,
>)
    ensures
        payment_result(r) == refund_spec(payment@, sender@, now),
{
    if payment.status != PaymentStatus::Pending {
        return Err(RegistryError::NotRefundable);
    }
    if !payment.sender.same(sender) {
        return Err(RegistryError::Unauthorized);
    }
    if now < payment.expires_at {
        return Err(RegistryError::NotExpired);
    }
    let mut refunded = payment.duplicate();
    refunded.status = PaymentStatus::Refunded;
    Ok(refunded)
}

/// No payment can be both claimed and refunded at one time: a claim needs
/// the payment unexpired, a refund needs it expired.
pub proof fn lemma_claim_and_refund_exclusive(
    p: PendingPaymentView,
    claimer: AddressView,
    sender: AddressView,
    now: u64,
    resolved: Option<AddressView>,
)
    ensures
        !(claim_spec(p, claimer, now, resolved) is Ok && refund_spec(p, sender, now) is Ok),
{
}

/// A claimed or refunded payment is final: it can be neither claimed nor
/// refunded again, at any time and by anyone.
pub proof fn lemma_settled_payment_is_final(
    p: PendingPaymentView,
    claimer: AddressView,
    sender: AddressView,
    now: u64,
    resolved: Option<AddressView>,
    later: u64,
    who: AddressView,
    resolved_later: Option<AddressView>,
)
    requires
        claim_spec(p, claimer, now, resolved) is Ok || refund_spec(p, sender, now) is Ok,
    ensures
        ({
            let q = if claim_spec(p, claimer, now, resolved) is Ok {
                claim_spec(p, claimer, now, resolved)->Ok_0
            } else {
                refund_spec(p, sender, now)->Ok_0
            };
            &&& claim_spec(q, who, later, resolved_later) == Err::<
                PendingPaymentView,
                RegistryError,
            >(RegistryError::NotClaimable)
            &&& refund_spec(q, who, later) == Err::<PendingPaymentView, RegistryError>(
                RegistryError::NotRefundable,
            )
        }),
{
}

/// Payment ids are derived from distinct payloads for distinct nonces: two
/// payments with the same sender, asset, amount and identity but different
/// nonces hash different bytes.
pub proof fn lemma_payment_payload_distinct_nonces(
    sender: AddressView,
    asset: AddressView,
    amount: i128,
    platform: Seq<u8>,
    user_id: Seq<u8>,
    n1: u64,
    n2: u64,
)
    requires
        n1 != n2,
    ensures
        payment_payload(sender, asset, amount, platform, user_id, n1) != payment_payload(
            sender,
            asset,
            amount,
            platform,
            user_id,
            n2,
        ),
{
    let p1 = payment_payload(sender, asset, amount, platform, user_id, n1);
    let p2 = payment_payload(sender, asset, amount, platform, user_id, n2);
    let prefix = xdr_string(payment_tag()) + xdr_address(sender) + xdr_address(asset) + xdr_i128(
        amount,
    ) + xdr_string(platform) + xdr_string(user_id);
    assert(p1 == prefix + xdr_u64(n1));
    assert(p2 == prefix + xdr_u64(n2));
    if p1 == p2 {
        assert forall|k: int| 0 <= k < 8 implies #[trigger] be64(n1)[k] == be64(n2)[k] by {
            assert(p1[prefix.len() + 4 + k] == be64(n1)[k]);
            assert(p2[prefix.len() + 4 + k] == be64(n2)[k]);
        }
        assert(be64(n1) =~= be64(n2));
        lemma_be64_injective(n1, n2);
    }
}

/// The amount of `p` that its identity can claim in `asset` at time `now`.
pub open spec fn claimable_amount(p: PendingPaymentView, now: u64, asset: AddressView) -> int {
    if p.status == PaymentStatus::Pending && now < p.expires_at && p.asset == asset {
        p.amount as int
    } else {
        0
    }
}

/// The total claimable amount over a list of payments.
pub open spec fn claimable_sum(ps: Seq<PendingPaymentView>, now: u64, asset: AddressView) -> int
    decreases ps.len(),
{
    if ps.len() == 0 {
        0
    } else {
        claimable_sum(ps.drop_last(), now, asset) + claimable_amount(ps.last(), now, asset)
    }
}

/// The views of a list of payments.
pub open spec fn payment_views(ps: Seq<PendingPayment>) -> Seq<PendingPaymentView> {
    ps.map_values(|p: PendingPayment| p@)
}

/// The total that an identity can claim in `asset` at time `now`, over the
/// payments indexed under it: pending, unexpired payments in that asset.
pub fn get_claimable_total(payments: &Vec<PendingPayment>, now: u64, asset: &Address) -> (r: i128)
    requires
        forall|k: int|
            0 <= k <= payments@.len() ==> i128::MIN <= #[trigger] claimable_sum(
                payment_views(payments@).take(k),
                now,
                asset@,
            ) <= i128::MAX,
    ensures
        r == claimable_sum(payment_views(payments@), now, asset@),
{
    let ghost ps = payment_views(payments@);
    let mut total: i128 = 0;
    let mut i: usize = 0;
    assert(ps.take(0) =~= Seq::<PendingPaymentView>::empty());
    while i < payments.len()
        invariant
            i <= payments.len(),
            ps == payment_views(payments@),
            ps.len() == payments@.len(),
            total == claimable_sum(ps.take(i as int), now, asset@),
            forall|k: int|
                0 <= k <= payments@.len() ==> i128::MIN <= #[trigger] claimable_sum(
                    ps.take(k),
                    now,
                    asset@,
                ) <= i128::MAX,
        decreases payments.len() - i,
    {
        let p = &payments[i];
        assert(ps.take(i + 1).drop_last() =~= ps.take(i as int));
        assert(ps.take(i + 1).last() == p@);
        assert(claimable_sum(ps.take(i + 1), now, asset@) == total + claimable_amount(p@, now, asset@));
        let counted = p.status == PaymentStatus::Pending && now < p.expires_at && p.asset.same(asset);
        if counted {
            assert(i128::MIN <= claimable_sum(ps.take(i + 1), now, asset@) <= i128::MAX);
            total = total + p.amount;
        }
        i = i + 1;
    }
    assert(ps.take(i as int) =~= ps);
    total
}

/// Every running total of the claimable amount, over each prefix of the
/// payments, fits in an `i128`.
pub open spec fn claimable_sums_fit(ps: Seq<PendingPaymentView>, now: u64, asset: AddressView) -> bool {
    forall|k: int|
        0 <= k <= ps.len() ==> i128::MIN <= #[trigger] claimable_sum(ps.take(k), now, asset)
            <= i128::MAX
}

/// The claimable total, or `None` when a running total leaves the `i128`
/// range, where the total cannot be computed.
pub fn checked_claimable_total(payments: &Vec<PendingPayment>, now: u64, asset: &Address) -> (r:
    Option<i128>)
    ensures
        r is None <==> !claimable_sums_fit(payment_views(payments@), now, asset@),
        r matches Some(t) ==> t == claimable_sum(payment_views(payments@), now, asset@),
{
    let ghost ps = payment_views(payments@);
    let mut total: i128 = 0;
    let mut i: usize = 0;
    assert(ps.take(0) =~= Seq::<PendingPaymentView>::empty());
    while i < payments.len()
        invariant
            i <= payments.len(),
            ps == payment_views(payments@),
            ps.len() == payments@.len(),
            total == claimable_sum(ps.take(i as int), now, asset@),
            forall|k: int|
                0 <= k <= i ==> i128::MIN <= #[trigger] claimable_sum(ps.take(k), now, asset@)
                    <= i128::MAX,
        decreases payments.len() - i,
    {
        let p = &payments[i];
        assert(ps.take(i + 1).drop_last() =~= ps.take(i as int));
        assert(ps.take(i + 1).last() == p@);
        assert(claimable_sum(ps.take(i + 1), now, asset@) == total + claimable_amount(p@, now, asset@));
        let counted = p.status == PaymentStatus::Pending && now < p.expires_at && p.asset.same(asset);
        if counted {
            match total.checked_add(p.amount) {
                Some(t) => {
                    total = t;
                },
                None => {
                    assert(!(i128::MIN <= claimable_sum(ps.take(i + 1), now, asset@) <= i128::MAX));
                    return None;
                },
            }
        }
        i = i + 1;
    }
    assert(ps.take(i as int) =~= ps);
    Some(total)
}

impl SocialPayments {
    /// The verdict on a payment of `amount` of `asset` from `from` to the
    /// identity `(platform, user_id)` at time `now`, when the registry
    /// resolves the identity to `resolved`.
    pub open spec fn pay_spec(
        &self,
        from: AddressView,
        platform: Seq<u8>,
        user_id: Seq<u8>,
        asset: AddressView,
        amount: i128,
        duration: Option<u64>,
        resolved: Option<AddressView>,
        now: u64,
    ) -> Result<PaymentRouteView, RegistryError> {
        if !self.supported_assets@.contains(asset) {
            Err(RegistryError::UnsupportedAsset)
        } else if amount <= 0 {
            Err(RegistryError::InvalidAmount)
        } else if userid_check(user_id) is Err {
            Err(userid_check(user_id)->Err_0)
        } else {
            match resolved {
                Some(to) => Ok(PaymentRouteView::Direct(to)),
                None => match userid_key_spec(platform, user_id) {
                    Err(e) => Err(e),
                    Ok(k) => Ok(
                        PaymentRouteView::Pending(
                            PendingPaymentView {
                                payment_id: sha256_digest(
                                    payment_payload(from, asset, amount, platform, user_id, self.nonce),
                                ),
                                sender: from,
                                asset,
                                amount,
                                platform,
                                user_id,
                                created_at: now,
                                expires_at: (now + claim_period(duration)) as u64,
                                status: PaymentStatus::Pending,
                                claimed_by: None,
                            },
                            k,
                        ),
                    ),
                },
            }
        }
    }

    /// The inputs on which a payment that passes its checks cannot be
    /// carried out: its expiry or the next nonce overflows.
    pub open spec fn pay_overflows(
        &self,
        platform: Seq<u8>,
        user_id: Seq<u8>,
        asset: AddressView,
        amount: i128,
        duration: Option<u64>,
        resolved: Option<AddressView>,
        now: u64,
    ) -> bool {
        &&& self.supported_assets@.contains(asset)
        &&& amount > 0
        &&& userid_check(user_id) is Ok
        &&& resolved is None
        &&& (now + claim_period(duration) > u64::MAX || (userid_key_spec(platform, user_id) is Ok
            && self.nonce == u64::MAX))
    }

    /// A router with nothing configured.
    pub fn new() -> (r: SocialPayments)
        ensures
            r.admin is None,
            r.registry is None,
            r.nonce == 0,
            r.supported_assets@ == Set::<AddressView>::empty(),
            r.supported_assets.elems() == Seq::<AddressView>::empty(),
            r.governance@ == empty_governance(),
    {
        SocialPayments {
            admin: None,
            registry: None,
            nonce: 0,
            supported_assets: AddressSet::new(),
            governance: Governance::new(),
        }
    }

    /// Sets the admin and the registry and starts the payment nonce at zero;
    /// a router is initialized once.
    pub fn initialize(&mut self, admin: &Address, registry: &Address) -> (r: Result<
        (),
        UpgradeError,
    >)
        ensures
            old(self).admin is Some ==> r == Err::<(), UpgradeError>(
                UpgradeError::AlreadyInitialized,
            ),
            old(self).admin is Some ==> final(self).admin == old(self).admin && final(self).registry
                == old(self).registry && final(self).nonce == old(self).nonce,
            old(self).admin is None ==> r is Ok,
            old(self).admin is None ==> (final(self).admin matches Some(a) && a@ == admin@),
            old(self).admin is None ==> (final(self).registry matches Some(g) && g@ == registry@),
            old(self).admin is None ==> final(self).nonce == 0,
    {
        if self.admin.is_some() {
            return Err(UpgradeError::AlreadyInitialized);
        }
        self.admin = Some(admin.duplicate());
        self.registry = Some(registry.duplicate());
        self.nonce = 0;
        Ok(())
    }

    /// The checks on a payment that come before the identity is resolved:
    /// the asset must be supported, the amount positive and the user id
    /// canonical.
    pub fn check_payment(&self, user_id: &Vec<u8>, asset: &Address, amount: i128) -> (r: Result<
        (),
        RegistryError,
    >)
        ensures
            r == (if !self.supported_assets@.contains(asset@) {
                Err(RegistryError::UnsupportedAsset)
            } else if amount <= 0 {
                Err(RegistryError::InvalidAmount)
            } else {
                userid_check(user_id@)
            }),
    {
        if !self.supported_assets.contains(asset) {
            return Err(RegistryError::UnsupportedAsset);
        }
        if amount <= 0 {
            return Err(RegistryError::InvalidAmount);
        }
        validate_userid(user_id)
    }

    /// Pays `amount` of `asset` from `from` to the identity
    /// `(platform, user_id)` at time `now`, given the wallet `resolved` that
    /// the registry binds to the identity. A bound wallet is paid directly;
    /// otherwise the payment is held as pending for the claim period
    /// (`duration`, or seven days), under an id derived from the current
    /// nonce, which then advances by one.
    pub fn pay_to_social(
        &mut self,
        env: &Env,
        from: &Address,
        platform: &Vec<u8>,
        user_id: &Vec<u8>,
        asset: &Address,
        amount: i128,
        duration: Option<u64>,
        resolved: &Option<Address>,
        now: u64,
    ) -> (r: Result<PaymentRoute, RegistryError>)
        requires
            from@.key.len() <= 64,
            asset@.key.len() <= 64,
            !old(self).pay_overflows(
                platform@,
                user_id@,
                asset@,
                amount,
                duration,
                opt_address(*resolved),
                now,
            ),
        ensures
            route_result(r) == old(self).pay_spec(
                from@,
                platform@,
                user_id@,
                asset@,
                amount,
                duration,
                opt_address(*resolved),
                now,
            ),
            final(self).nonce == (if r matches Ok(PaymentRoute::Pending(_, _)) {
                old(self).nonce + 1
            } else {
                old(self).nonce as int
            }),
            final(self).admin == old(self).admin,
            final(self).registry == old(self).registry,
            final(self).supported_assets == old(self).supported_assets,
            final(self).governance == old(self).governance,
    {
        self.check_payment(user_id, asset, amount)?;
        let period: u64 = match duration {
            Some(d) => d,
            None => DEFAULT_CLAIM_PERIOD_SECONDS,
        };
        match resolved {
            Some(to) => Ok(PaymentRoute::Direct(to.duplicate())),
            None => {
                let expires_at = now + period;
                let key = userid_payment_key(env, platform, user_id)?;
                let nonce = self.nonce;
                let payment_id = generate_payment_id(
                    env,
                    from,
                    asset,
                    amount,
                    platform,
                    user_id,
                    nonce,
                );
                let payment = PendingPayment {
                    payment_id,
                    sender: from.duplicate(),
                    asset: asset.duplicate(),
                    amount,
                    platform: copy_bytes(platform),
                    user_id: copy_bytes(user_id),
                    created_at: now,
                    expires_at,
                    status: PaymentStatus::Pending,
                    claimed_by: None,
                };
                self.nonce = nonce + 1;
                Ok(PaymentRoute::Pending(payment, key))
            },
        }
    }

    /// Adds an asset that payments may use; adding it again changes nothing.
    pub fn add_supported_asset(&mut self, asset: &Address)
        ensures
            final(self).supported_assets@ == old(self).supported_assets@.insert(asset@),
            final(self).nonce == old(self).nonce,
    {
        self.supported_assets.insert(asset);
    }

    /// Removes an asset; new payments in it are refused.
    pub fn remove_supported_asset(&mut self, asset: &Address)
        ensures
            final(self).supported_assets@ == old(self).supported_assets@.remove(asset@),
            final(self).nonce == old(self).nonce,
    {
        self.supported_assets.remove(asset);
    }

    /// The supported assets, each once, in ascending address order.
    pub fn get_supported_assets(&self) -> (r: Vec<Address>)
        ensures
            crate::address_set::views_of(r@).to_set() == self.supported_assets@,
            crate::address_set::addresses_ascending(crate::address_set::views_of(r@)),
    {
        self.supported_assets.to_vec()
    }

    /// The current payment nonce.
    pub fn get_nonce(&self) -> (r: u64)
        ensures
            r == self.nonce,
    {
        self.nonce
    }
}

} // verus!
