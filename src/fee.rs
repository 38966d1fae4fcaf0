use vstd::prelude::*;

verus! {

/// The platform fee set at initialization: 2.5%.
pub const DEFAULT_FEE_BASIS_POINTS: u64 = 250;

/// The platform fee taken from `amount` at a rate of `fee_bp` basis points
/// (hundredths of a percent), rounded down.
pub open spec fn fee_of(amount: nat, fee_bp: nat) -> nat {
    amount * fee_bp / 10000
}

/// Computes `floor(amount * fee_bp / 10000)` without forming the full product.
pub fn compute_fee(amount: u128, fee_bp: u64) -> (r: u128)
    requires
        fee_bp <= 10000,
    ensures
        r == fee_of(amount as nat, fee_bp as nat),
        r <= amount,
{
    let q: u128 = amount / 10000;
    let rem: u128 = amount % 10000;
    let bp: u128 = fee_bp as u128;
    proof {
        let a = amount as int;
        let b = bp as int;
        let qi = q as int;
        let ri = rem as int;
        assert(a == 10000 * qi + ri && 0 <= ri < 10000);
        assert(qi * b <= qi * 10000) by (nonlinear_arith)
            requires 0 <= qi, b <= 10000;
        assert(ri * b <= 9999 * 10000) by (nonlinear_arith)
            requires 0 <= ri < 10000, 0 <= b <= 10000;
        assert(a * b == (qi * b) * 10000 + ri * b) by (nonlinear_arith)
            requires a == 10000 * qi + ri;
        let t = ri * b;
        vstd::arithmetic::div_mod::lemma_fundamental_div_mod(t, 10000);
        assert(a * b == (qi * b + t / 10000) * 10000 + t % 10000) by (nonlinear_arith)
            requires
                a * b == (qi * b) * 10000 + t,
                t == (t / 10000) * 10000 + t % 10000,
        ;
        vstd::arithmetic::div_mod::lemma_fundamental_div_mod_converse(
            a * b,
            10000,
            qi * b + t / 10000,
            t % 10000,
        );
        assert(a * b <= a * 10000) by (nonlinear_arith)
            requires 0 <= a, b <= 10000;
        assert((a * b) / 10000 <= a) by (nonlinear_arith)
            requires 0 <= a * b <= a * 10000;
    }
    q * bp + (rem * bp) / 10000
}

/// Splits `amount` into the platform fee and the payment that remains.
pub fn split_payout(amount: u128, fee_bp: u64) -> (r: (u128, u128))
    requires
        fee_bp <= 10000,
    ensures
        r.0 == fee_of(amount as nat, fee_bp as nat),
        r.0 + r.1 == amount,
{
    let fee = compute_fee(amount, fee_bp);
    (fee, amount - fee)
}

} // verus!
