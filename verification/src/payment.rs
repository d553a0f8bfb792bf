//! The payment service: records created pending, settled once by an
//! asynchronous background step, visible to their owner alone.
//!
//! Monetary quantities are fixed-point integers in micro-units (one
//! millionth of a whole unit), so conversion arithmetic is exact and
//! verified; callers at the edge convert to and from their preferred
//! representation.

use vstd::prelude::*;
use crate::auth::Caller;
use crate::provider::{new_record_id, now_millis};
use crate::store::{lookup, owned_records, Record, RecordStore};
use crate::text::{clone_opt_string, str_eq};

verus! {

/// One whole currency unit, expressed in micro-units.
pub const MICRO: u64 = 1_000_000;

/// A payment's lifecycle status: created pending, settled to completed by
/// the background settlement step, never anything else.
#[derive(Debug, Clone, Copy, PartialEq, Eq, Structural)]
pub enum PaymentStatus {
    Pending,
    Completed,
}

/// The direction of a conversion payment.
#[derive(Debug, Clone, Copy, PartialEq, Eq, Structural)]
pub enum PaymentKind {
    FiatToCrypto,
    CryptoToFiat,
}

/// Why a payment request was rejected.
#[derive(Debug, Clone, Copy, PartialEq, Eq, Structural)]
pub enum PaymentError {
    /// The request's kind is neither conversion direction.
    InvalidPaymentKind,
}

/// A conversion payment record. Visible to a caller exactly when the
/// caller owns it.
#[derive(Debug)]
pub struct Payment {
    pub id: String,
    pub owner: String,
    pub amount_micro: u64,
    pub currency: String,
    pub kind: PaymentKind,
    pub status: PaymentStatus,
    pub crypto_address: Option<String>,
    pub crypto_currency: Option<String>,
    pub crypto_amount_micro: Option<u64>,
    pub exchange_rate_micro: Option<u64>,
    pub timestamp_millis: i64,
    /// Opaque attachment, carried as raw text and never interpreted.
    pub extra: Option<String>,
}

/// What a client asks a payment to be created from. The kind arrives as
/// free text and is validated.
#[derive(Debug)]
pub struct CreatePaymentRequest {
    pub amount_micro: u64,
    pub currency: String,
    pub kind: String,
    pub crypto_address: Option<String>,
    pub crypto_currency: Option<String>,
    pub extra: Option<String>,
}

/// The two accepted spellings of a payment kind.
pub open spec fn valid_kind(kind: Seq<char>) -> bool {
    kind == "fiat_to_crypto"@ || kind == "crypto_to_fiat"@
}

/// The direction a valid kind spelling denotes.
pub open spec fn kind_of(kind: Seq<char>) -> PaymentKind {
    if kind == "fiat_to_crypto"@ {
        PaymentKind::FiatToCrypto
    } else {
        PaymentKind::CryptoToFiat
    }
}

/// The view of an optional string.
pub open spec fn opt_text(o: Option<String>) -> Option<Seq<char>> {
    match o {
        Some(s) => Some(s@),
        None => None,
    }
}

/// The static conversion table: micro-units of fiat per whole crypto
/// unit, with one as the default for an unknown or absent currency.
pub open spec fn spec_rate_micro(crypto_currency: Option<Seq<char>>) -> u64 {
    match crypto_currency {
        Some(c) => if c == "BTC"@ {
            50_000_000_000u64
        } else if c == "ETH"@ {
            3_000_000_000u64
        } else if c == "USDC"@ {
            1_000_000u64
        } else {
            1_000_000u64
        },
        None => 1_000_000u64,
    }
}

/// The converted amount in micro-units: the amount divided by the rate
/// for a fiat-to-crypto payment, multiplied by it the other way round.
/// Integer division truncates; a result beyond the representable range
/// saturates at the largest amount.
pub open spec fn spec_crypto_amount(kind: PaymentKind, amount_micro: u64, rate_micro: u64) -> u64
    recommends
        rate_micro > 0,
{
    let exact = if kind == PaymentKind::FiatToCrypto {
        (amount_micro as int * MICRO as int) / rate_micro as int
    } else {
        (amount_micro as int * rate_micro as int) / MICRO as int
    };
    if exact > u64::MAX as int {
        u64::MAX
    } else {
        exact as u64
    }
}

/// The conversion rate the table gives for a request's crypto currency.
pub fn rate_micro(crypto_currency: &Option<String>) -> (r: u64)
    ensures
        r == spec_rate_micro(opt_text(*crypto_currency)),
        r >= MICRO,
{
    match crypto_currency {
        Some(c) => {
            if str_eq(c.as_str(), "BTC") {
                50_000_000_000
            } else if str_eq(c.as_str(), "ETH") {
                3_000_000_000
            } else if str_eq(c.as_str(), "USDC") {
                1_000_000
            } else {
                1_000_000
            }
        },
        None => 1_000_000,
    }
}

/// The product of two word-sized factors fits in a double-width word.
proof fn lemma_wide_product_fits(x: u64, y: u64)
    ensures
        (x as int) * (y as int) <= u128::MAX as int,
{
    assert((x as int) * (y as int) <= u128::MAX as int) by (nonlinear_arith)
        requires
            0 <= x as int <= u64::MAX as int,
            0 <= y as int <= u64::MAX as int,
    ;
}

/// The converted amount, computed exactly in wide arithmetic.
pub fn crypto_amount(kind: PaymentKind, amount_micro: u64, rate_micro: u64) -> (r: u64)
    requires
        rate_micro > 0,
    ensures
        r == spec_crypto_amount(kind, amount_micro, rate_micro),
{
    proof {
        lemma_wide_product_fits(amount_micro, MICRO);
        lemma_wide_product_fits(amount_micro, rate_micro);
    }
    let wide_amount = amount_micro as u128;
    let quotient: u128 = match kind {
        PaymentKind::FiatToCrypto => wide_amount * (MICRO as u128) / (rate_micro as u128),
        PaymentKind::CryptoToFiat => wide_amount * (rate_micro as u128) / (MICRO as u128),
    };
    if quotient > u64::MAX as u128 {
        u64::MAX
    } else {
        quotient as u64
    }
}

impl Record for Payment {
    open spec fn rec_id(&self) -> Seq<char> {
        self.id@
    }

    open spec fn rec_owned_by(&self, caller: Seq<char>) -> bool {
        self.owner@ == caller
    }

    open spec fn rec_completed(&self) -> Self {
        Payment { status: PaymentStatus::Completed, ..*self }
    }

    proof fn lemma_completed_keeps_identity(&self) {
    }

    fn id_matches(&self, id: &str) -> (b: bool) {
        str_eq(self.id.as_str(), id)
    }

    fn is_owned_by(&self, caller: &str) -> (b: bool) {
        str_eq(self.owner.as_str(), caller)
    }

    fn duplicate(&self) -> (r: Self) {
        Payment {
            id: self.id.clone(),
            owner: self.owner.clone(),
            amount_micro: self.amount_micro,
            currency: self.currency.clone(),
            kind: self.kind,
            status: self.status,
            crypto_address: clone_opt_string(&self.crypto_address),
            crypto_currency: clone_opt_string(&self.crypto_currency),
            crypto_amount_micro: self.crypto_amount_micro,
            exchange_rate_micro: self.exchange_rate_micro,
            timestamp_millis: self.timestamp_millis,
            extra: clone_opt_string(&self.extra),
        }
    }

    fn complete(&mut self) {
        self.status = PaymentStatus::Completed;
    }
}

/// The payment service: a store of payments and the operations the
/// handlers and the settlement step expose over it.
pub struct PaymentService {
    store: RecordStore<Payment>,
}

impl View for PaymentService {
    type V = Seq<Payment>;

    closed spec fn view(&self) -> Seq<Payment> {
        self.store@
    }
}

impl PaymentService {
    /// A service over an empty store.
    pub fn new() -> (s: Self)
        ensures
            s@ == Seq::<Payment>::empty(),
    {
        PaymentService { store: RecordStore::new() }
    }

    /// How many payments the store holds, over all callers.
    pub fn count(&self) -> (n: usize)
        ensures
            n == self@.len(),
    {
        self.store.len()
    }

    /// Validates the request, prices it against the conversion table,
    /// appends the pending record and returns it. A request whose kind is
    /// neither direction is rejected and the store is left untouched; the
    /// settlement step for the returned record is scheduled by the caller
    /// afterwards.
    pub fn create_payment(&mut self, caller: &Caller, req: &CreatePaymentRequest) -> (r: Result<
        Payment,
        PaymentError,
    >)
        ensures
            !valid_kind(req.kind@) ==> r == Err::<Payment, PaymentError>(
                PaymentError::InvalidPaymentKind,
            ) && final(self)@ == old(self)@,
            valid_kind(req.kind@) ==> (r matches Ok(p) && {
                let rate = spec_rate_micro(opt_text(req.crypto_currency));
                &&& final(self)@ == old(self)@.push(p)
                &&& p.id@.len() == 36
                &&& p.owner == caller.id
                &&& p.amount_micro == req.amount_micro
                &&& p.currency == req.currency
                &&& p.kind == kind_of(req.kind@)
                &&& p.status == PaymentStatus::Pending
                &&& p.crypto_address == req.crypto_address
                &&& p.crypto_currency == req.crypto_currency
                &&& p.crypto_amount_micro == Some(
                    spec_crypto_amount(kind_of(req.kind@), req.amount_micro, rate),
                )
                &&& p.exchange_rate_micro == Some(rate)
                &&& p.extra == req.extra
            }),
    {
        let kind: PaymentKind = if str_eq(req.kind.as_str(), "fiat_to_crypto") {
            PaymentKind::FiatToCrypto
        } else if str_eq(req.kind.as_str(), "crypto_to_fiat") {
            PaymentKind::CryptoToFiat
        } else {
            return Err(PaymentError::InvalidPaymentKind);
        };
        let rate = rate_micro(&req.crypto_currency);
        let converted = crypto_amount(kind, req.amount_micro, rate);
        let p = Payment {
            id: new_record_id(),
            owner: caller.id.clone(),
            amount_micro: req.amount_micro,
            currency: req.currency.clone(),
            kind,
            status: PaymentStatus::Pending,
            crypto_address: clone_opt_string(&req.crypto_address),
            crypto_currency: clone_opt_string(&req.crypto_currency),
            crypto_amount_micro: Some(converted),
            exchange_rate_micro: Some(rate),
            timestamp_millis: now_millis(),
            extra: clone_opt_string(&req.extra),
        };
        let stored = p.duplicate();
        self.store.append(stored);
        Ok(p)
    }

    /// All payments the caller owns, in insertion order.
    pub fn list_payments(&self, caller: &Caller) -> (out: Vec<Payment>)
        ensures
            out@ == owned_records(self@, caller.id@),
    {
        self.store.list(caller.id.as_str())
    }

    /// The first payment with this identifier that the caller owns, or
    /// nothing — whether the identifier is absent or merely unowned.
    pub fn get_payment(&self, caller: &Caller, id: &str) -> (out: Option<Payment>)
        ensures
            out == lookup(self@, caller.id@, id@),
    {
        self.store.get(caller.id.as_str(), id)
    }

    /// The background settlement step: marks the payment with this
    /// identifier completed. A missing identifier is silently ignored, as
    /// settlement is best-effort and only internally triggered.
    pub fn settle_payment(&mut self, id: &str) -> (found: bool)
        ensures
            final(self)@.len() == old(self)@.len(),
            found == (exists|i: int|
                0 <= i < old(self)@.len() && #[trigger] old(self)@[i].rec_id() == id@),
            !found ==> final(self)@ == old(self)@,
            found ==> (exists|i: int|
                {
                    &&& 0 <= i < old(self)@.len()
                    &&& #[trigger] old(self)@[i].rec_id() == id@
                    &&& forall|j: int| 0 <= j < i ==> old(self)@[j].rec_id() != id@
                    &&& final(self)@ == old(self)@.update(i, old(self)@[i].rec_completed())
                }),
    {
        self.store.settle(id)
    }
}

/// The rates the public exchange-rate endpoint reports, as pairs of
/// currency code and micro-units per whole unit.
pub fn exchange_rates() -> (out: Vec<(String, u64)>)
    ensures
        out@.len() == 6,
        out@[0].0@ == "BTC"@ && out@[0].1 == 50_000_000_000u64,
        out@[1].0@ == "ETH"@ && out@[1].1 == 3_000_000_000u64,
        out@[2].0@ == "USDC"@ && out@[2].1 == 1_000_000u64,
        out@[3].0@ == "USD"@ && out@[3].1 == 1_000_000u64,
        out@[4].0@ == "EUR"@ && out@[4].1 == 850_000u64,
        out@[5].0@ == "GBP"@ && out@[5].1 == 750_000u64,
{
    let mut out: Vec<(String, u64)> = Vec::new();
    out.push((String::from_str("BTC"), 50_000_000_000));
    out.push((String::from_str("ETH"), 3_000_000_000));
    out.push((String::from_str("USDC"), 1_000_000));
    out.push((String::from_str("USD"), 1_000_000));
    out.push((String::from_str("EUR"), 850_000));
    out.push((String::from_str("GBP"), 750_000));
    out
}

} // verus!
