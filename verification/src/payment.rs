//! Payment-gated admission: the pre-flight fee deduction that must
//! succeed before any platform resource is consumed.
//!
//! The service supports a small closed set of payment methods. The guard
//! decides, before any remote call, whether an offered method is among
//! the vendor's supported configurations, and which deduction the caller
//! has asked for; performing the deduction itself is a remote call and is
//! the caller's step.

use vstd::prelude::*;

use crate::config::Config;
use crate::ledger::Account;
use crate::principal::PrincipalId;

verus! {

/// How a client states that they will pay.
#[derive(Debug)]
pub enum PaymentType {
    /// The client pays with platform resource attached to the call.
    AttachedCycles,
    /// The client pays from their main cycles-ledger account.
    CallerPaysIcrc2Cycles,
    /// A patron pays cycles on behalf of the client.
    PatronPaysIcrc2Cycles(Account),
    /// The client pays tokens from their account on the named ledger.
    CallerPaysIcrc2Tokens { ledger: PrincipalId },
    /// A patron pays tokens on behalf of the client from the named ledger.
    PatronPaysIcrc2Tokens { ledger: PrincipalId, patron: Account },
}

/// One payment configuration the vendor is willing to accept.
#[derive(Debug)]
pub enum VendorPaymentConfig {
    AttachedCycles,
    CallerPaysIcrc2Cycles,
    PatronPaysIcrc2Cycles,
    CallerPaysIcrc2Tokens { ledger: PrincipalId },
    PatronPaysIcrc2Tokens { ledger: PrincipalId },
}

/// A client's accepted payment request: what the deduction step must do.
#[derive(Debug)]
pub enum PaymentWithConfig {
    AttachedCycles,
    CallerPaysIcrc2Cycles,
    PatronPaysIcrc2Cycles(Account),
    CallerPaysIcrc2Tokens { ledger: PrincipalId },
    PatronPaysIcrc2Tokens { ledger: PrincipalId, patron: Account },
}

/// Why a payment admission was denied.
#[derive(Debug)]
pub enum PaymentError {
    /// The offered payment method is not among the vendor's configurations.
    UnsupportedPaymentType,
    /// The payment ledger could not be reached.
    LedgerUnreachable { ledger: PrincipalId },
    /// The payment ledger refused the transfer; the detail carries its report.
    LedgerTransferFromError { ledger: PrincipalId, error: String },
    /// The payer's balance does not cover the fee.
    InsufficientFunds { needed: u64, available: u64 },
    /// The named patron refused or cannot pay for this client.
    InvalidPatron,
}

/// Whether one vendor configuration accepts one offered payment method:
/// the variants must agree, and for token methods the ledger named by the
/// client must be the very ledger the vendor trusts.
pub open spec fn vendor_accepts(v: VendorPaymentConfig, p: PaymentType) -> bool {
    match (v, p) {
        (VendorPaymentConfig::AttachedCycles, PaymentType::AttachedCycles) => true,
        (VendorPaymentConfig::CallerPaysIcrc2Cycles, PaymentType::CallerPaysIcrc2Cycles) => true,
        (VendorPaymentConfig::PatronPaysIcrc2Cycles, PaymentType::PatronPaysIcrc2Cycles(_)) => true,
        (
            VendorPaymentConfig::CallerPaysIcrc2Tokens { ledger: vl },
            PaymentType::CallerPaysIcrc2Tokens { ledger: pl },
        ) => vl@ == pl@,
        (
            VendorPaymentConfig::PatronPaysIcrc2Tokens { ledger: vl },
            PaymentType::PatronPaysIcrc2Tokens { ledger: pl, patron: _ },
        ) => vl@ == pl@,
        _ => false,
    }
}

/// Whether some configuration in the vendor's list accepts the payment.
pub open spec fn guard_supports(s: Seq<VendorPaymentConfig>, p: PaymentType) -> bool {
    exists|i: int| 0 <= i < s.len() && vendor_accepts(s[i], p)
}

/// The deduction that admission of an accepted payment method performs.
pub open spec fn payment_plan(p: PaymentType, c: PaymentWithConfig) -> bool {
    match (p, c) {
        (PaymentType::AttachedCycles, PaymentWithConfig::AttachedCycles) => true,
        (PaymentType::CallerPaysIcrc2Cycles, PaymentWithConfig::CallerPaysIcrc2Cycles) => true,
        (
            PaymentType::PatronPaysIcrc2Cycles(a),
            PaymentWithConfig::PatronPaysIcrc2Cycles(b),
        ) => a == b,
        (
            PaymentType::CallerPaysIcrc2Tokens { ledger: pl },
            PaymentWithConfig::CallerPaysIcrc2Tokens { ledger: cl },
        ) => pl == cl,
        (
            PaymentType::PatronPaysIcrc2Tokens { ledger: pl, patron: pp },
            PaymentWithConfig::PatronPaysIcrc2Tokens { ledger: cl, patron: cp },
        ) => pl == cl && pp == cp,
        _ => false,
    }
}

/// A guard that admits exactly the payment methods in its vendor list.
#[derive(Debug)]
pub struct PaymentGuard {
    pub supported: Vec<VendorPaymentConfig>,
}

impl PaymentGuard {
    /// Finds the vendor configuration for the offered payment method, or
    /// refuses it when no configuration accepts it.
    pub fn config(&self, payment: PaymentType) -> (r: Option<PaymentWithConfig>)
        ensures
            r is Some <==> guard_supports(self.supported@, payment),
            match r {
                Some(c) => payment_plan(payment, c),
                None => true,
            },
    {
        let n = self.supported.len();
        let mut i: usize = 0;
        let mut found: bool = false;
        while i < n
            invariant
                n == self.supported.len(),
                i <= n,
                found ==> guard_supports(self.supported@, payment),
                !found ==> forall|k: int| 0 <= k < i ==> !vendor_accepts(self.supported@[k], payment),
            decreases n - i,
        {
            let accepts = match (&self.supported[i], &payment) {
                (VendorPaymentConfig::AttachedCycles, PaymentType::AttachedCycles) => true,
                (VendorPaymentConfig::CallerPaysIcrc2Cycles, PaymentType::CallerPaysIcrc2Cycles) => true,
                (VendorPaymentConfig::PatronPaysIcrc2Cycles, PaymentType::PatronPaysIcrc2Cycles(_)) => true,
                (
                    VendorPaymentConfig::CallerPaysIcrc2Tokens { ledger: vl },
                    PaymentType::CallerPaysIcrc2Tokens { ledger: pl },
                ) => vl == pl,
                (
                    VendorPaymentConfig::PatronPaysIcrc2Tokens { ledger: vl },
                    PaymentType::PatronPaysIcrc2Tokens { ledger: pl, patron: _ },
                ) => vl == pl,
                _ => false,
            };
            if accepts {
                found = true;
            }
            i += 1;
        }
        if found {
            Some(match payment {
                PaymentType::AttachedCycles => PaymentWithConfig::AttachedCycles,
                PaymentType::CallerPaysIcrc2Cycles => PaymentWithConfig::CallerPaysIcrc2Cycles,
                PaymentType::PatronPaysIcrc2Cycles(patron) => {
                    PaymentWithConfig::PatronPaysIcrc2Cycles(patron)
                },
                PaymentType::CallerPaysIcrc2Tokens { ledger } => {
                    PaymentWithConfig::CallerPaysIcrc2Tokens { ledger }
                },
                PaymentType::PatronPaysIcrc2Tokens { ledger, patron } => {
                    PaymentWithConfig::PatronPaysIcrc2Tokens { ledger, patron }
                },
            })
        } else {
            None
        }
    }

    /// Decides an admission request before any remote call: an omitted
    /// payment method defaults to attached balance; an accepted method
    /// yields the deduction to perform together with the fee to deduct;
    /// an unsupported method is denied outright.
    pub fn deduct_plan(&self, payment: Option<PaymentType>, fee: u64) -> (r: Result<
        (PaymentWithConfig, u64),
        PaymentError,
    >)
        ensures
            match r {
                Ok((c, f)) => {
                    &&& guard_supports(self.supported@, effective_payment(payment))
                    &&& payment_plan(effective_payment(payment), c)
                    &&& f == fee
                },
                Err(e) => {
                    &&& e is UnsupportedPaymentType
                    &&& !guard_supports(self.supported@, effective_payment(payment))
                },
            },
    {
        let effective = match payment {
            Some(p) => p,
            None => PaymentType::AttachedCycles,
        };
        match self.config(effective) {
            Some(c) => Ok((c, fee)),
            None => Err(PaymentError::UnsupportedPaymentType),
        }
    }
}

/// The payment method an admission request names, with the attached
/// balance method as the default for callers who name none.
pub open spec fn effective_payment(p: Option<PaymentType>) -> PaymentType {
    match p {
        Some(x) => x,
        None => PaymentType::AttachedCycles,
    }
}

/// Whether a vendor list is the service's own: every built-in method, with
/// both token methods trusting exactly the configured payment ledger.
pub open spec fn service_vendor_list(s: Seq<VendorPaymentConfig>, ledger: Seq<u8>) -> bool {
    &&& s.len() == 5
    &&& s[0] is AttachedCycles
    &&& s[1] is CallerPaysIcrc2Cycles
    &&& s[2] is PatronPaysIcrc2Cycles
    &&& s[3] matches VendorPaymentConfig::CallerPaysIcrc2Tokens { ledger: l } && l@ == ledger
    &&& s[4] matches VendorPaymentConfig::PatronPaysIcrc2Tokens { ledger: l } && l@ == ledger
}

/// Law: the service's own guard admits every built-in payment method,
/// and the token methods exactly when the ledger the client names is the
/// configured payment ledger.
pub proof fn lemma_service_guard_admission(
    s: Seq<VendorPaymentConfig>,
    ledger: Seq<u8>,
    p: PaymentType,
)
    requires
        service_vendor_list(s, ledger),
    ensures
        guard_supports(s, p) <==> match p {
            PaymentType::AttachedCycles => true,
            PaymentType::CallerPaysIcrc2Cycles => true,
            PaymentType::PatronPaysIcrc2Cycles(_) => true,
            PaymentType::CallerPaysIcrc2Tokens { ledger: l } => l@ == ledger,
            PaymentType::PatronPaysIcrc2Tokens { ledger: l, patron: _ } => l@ == ledger,
        },
{
    match p {
        PaymentType::AttachedCycles => {
            assert(vendor_accepts(s[0], p));
        },
        PaymentType::CallerPaysIcrc2Cycles => {
            assert(vendor_accepts(s[1], p));
        },
        PaymentType::PatronPaysIcrc2Cycles(_) => {
            assert(vendor_accepts(s[2], p));
        },
        PaymentType::CallerPaysIcrc2Tokens { ledger: l } => {
            if l@ == ledger {
                assert(vendor_accepts(s[3], p));
            } else {
                assert(forall|i: int| 0 <= i < s.len() ==> !vendor_accepts(#[trigger] s[i], p));
            }
        },
        PaymentType::PatronPaysIcrc2Tokens { ledger: l, patron: _ } => {
            if l@ == ledger {
                assert(vendor_accepts(s[4], p));
            } else {
                assert(forall|i: int| 0 <= i < s.len() ==> !vendor_accepts(#[trigger] s[i], p));
            }
        },
    }
}

/// Builds the service's payment guard from its configuration: the token
/// methods trust the configured payment ledger.
pub fn payment_guard(config: &Config) -> (r: PaymentGuard)
    ensures
        service_vendor_list(r.supported@, config.cycles_ledger@),
{
    let supported = vec![
        VendorPaymentConfig::AttachedCycles,
        VendorPaymentConfig::CallerPaysIcrc2Cycles,
        VendorPaymentConfig::PatronPaysIcrc2Cycles,
        VendorPaymentConfig::CallerPaysIcrc2Tokens { ledger: config.cycles_ledger.clone() },
        VendorPaymentConfig::PatronPaysIcrc2Tokens { ledger: config.cycles_ledger.clone() },
    ];
    PaymentGuard { supported }
}

} // verus!
