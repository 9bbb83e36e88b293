//! The fee engine: which rate applies to an escrow, and what it takes from
//! an amount.
//!
//! A rate is a number of basis points, at most [`BPS_DENOMINATOR`]. The rate
//! of an escrow is its own override if it has one, else the override of its
//! token if that has one, else the global default if one was set, else zero.

use vstd::prelude::*;
use vstd::arithmetic::div_mod::{lemma_fundamental_div_mod, lemma_hoist_over_denominator};
use std::collections::HashMap;
use crate::errors::Error;
use crate::types::Address;

verus! {

broadcast use vstd::std_specs::hash::group_hash_axioms;

/// One hundred percent, in basis points.
pub const BPS_DENOMINATOR: u32 = 10_000;

/// The fee on `gross` at `bps` basis points: the product over the
/// denominator, rounded down.
pub open spec fn fee_of(gross: int, bps: int) -> int {
    gross * bps / (BPS_DENOMINATOR as int)
}

/// What is left of `gross` once the fee at `bps` basis points is taken.
pub open spec fn net_of(gross: int, bps: int) -> int {
    gross - fee_of(gross, bps)
}

/// The rate that applies where the three levels hold the given entries: the
/// first that is present, in the order escrow, token, global; zero if none.
pub open spec fn applicable_bps(
    escrow_override: Option<u32>,
    token_override: Option<u32>,
    global_default: Option<u32>,
) -> u32 {
    match escrow_override {
        Some(bps) => bps,
        None => match token_override {
            Some(bps) => bps,
            None => match global_default {
                Some(bps) => bps,
                None => 0,
            },
        },
    }
}

/// A fee never exceeds the amount it is taken from, a rate of zero takes
/// nothing and the full rate takes everything.
pub proof fn lemma_fee_bounds(gross: int, bps: int)
    requires
        0 <= gross,
        0 <= bps <= BPS_DENOMINATOR,
    ensures
        0 <= fee_of(gross, bps) <= gross,
        0 <= net_of(gross, bps) <= gross,
        fee_of(gross, 0) == 0,
        fee_of(gross, BPS_DENOMINATOR as int) == gross,
        fee_of(0, bps) == 0,
{
    assert(0 <= gross * bps <= gross * 10_000) by (nonlinear_arith)
        requires
            0 <= gross,
            0 <= bps <= 10_000,
    ;
    assert(gross * 0 == 0);
    assert(0 * bps == 0);
    assert(gross * 10_000 / 10_000 == gross);
    assert((gross * bps) / 10_000 <= (gross * 10_000) / 10_000) by (nonlinear_arith)
        requires
            gross * bps <= gross * 10_000,
    ;
    assert(0 <= (gross * bps) / 10_000) by (nonlinear_arith)
        requires
            0 <= gross * bps,
    ;
}

/// The fee on `gross` at `bps` basis points, rounded down.
///
/// The product of the two may not fit the amount type, so the fee is taken
/// from the quotient and the remainder of `gross` by the denominator.
pub fn fee_amount(gross: i128, bps: u32) -> (fee: i128)
    requires
        0 <= gross,
        bps <= BPS_DENOMINATOR,
    ensures
        fee == fee_of(gross as int, bps as int),
        0 <= fee <= gross,
{
    let rate: i128 = bps as i128;
    let whole: i128 = gross / 10_000;
    let rest: i128 = gross % 10_000;
    proof {
        let g = gross as int;
        let b = bps as int;
        let q = g / 10_000;
        let r = g % 10_000;
        lemma_fundamental_div_mod(g, 10_000);
        assert(g == 10_000 * q + r);
        assert(0 <= r < 10_000);
        assert(0 <= q <= g);
        assert(0 <= q * b <= q * 10_000) by (nonlinear_arith)
            requires
                0 <= q,
                0 <= b <= 10_000,
        ;
        assert(0 <= r * b <= 10_000 * 10_000) by (nonlinear_arith)
            requires
                0 <= r < 10_000,
                0 <= b <= 10_000,
        ;
        lemma_hoist_over_denominator(r * b, q * b, 10_000);
        assert(g * b == r * b + (q * b) * 10_000) by (nonlinear_arith)
            requires
                g == 10_000 * q + r,
        ;
        lemma_fee_bounds(g, b);
    }
    whole * rate + (rest * rate) / 10_000
}

/// The rate among three optional entries: the escrow's, else the token's,
/// else the global default, else zero.
pub fn resolve_bps(
    escrow_override: Option<u32>,
    token_override: Option<u32>,
    global_default: Option<u32>,
) -> (bps: u32)
    ensures
        bps == applicable_bps(escrow_override, token_override, global_default),
{
    match escrow_override {
        Some(bps) => bps,
        None => match token_override {
            Some(bps) => bps,
            None => match global_default {
                Some(bps) => bps,
                None => 0,
            },
        },
    }
}

/// The mathematical value of a [`FeeConfig`].
pub struct FeeView {
    /// The rate where no override applies, if one was set.
    pub global_default_bps: Option<u32>,
    /// Rates by the id of the token's address.
    pub token_overrides: Map<u64, u32>,
    /// Rates by escrow id.
    pub escrow_overrides: Map<u64, u32>,
}

impl FeeView {
    /// No stored rate exceeds the denominator.
    pub open spec fn wf(self) -> bool {
        &&& self.global_default_bps matches Some(bps) ==> bps <= BPS_DENOMINATOR
        &&& forall|token: u64| #[trigger]
            self.token_overrides.contains_key(token) ==> self.token_overrides[token]
                <= BPS_DENOMINATOR
        &&& forall|id: u64| #[trigger]
            self.escrow_overrides.contains_key(id) ==> self.escrow_overrides[id] <= BPS_DENOMINATOR
    }

    /// The override stored for the escrow, if any.
    pub open spec fn escrow_override(self, escrow_id: u64) -> Option<u32> {
        if self.escrow_overrides.contains_key(escrow_id) {
            Some(self.escrow_overrides[escrow_id])
        } else {
            None
        }
    }

    /// The override stored for the token, if any.
    pub open spec fn token_override(self, token: Address) -> Option<u32> {
        if self.token_overrides.contains_key(token.id) {
            Some(self.token_overrides[token.id])
        } else {
            None
        }
    }

    /// The rate that applies to the escrow `escrow_id` held in `token`.
    pub open spec fn rate(self, escrow_id: u64, token: Address) -> u32 {
        applicable_bps(
            self.escrow_override(escrow_id),
            self.token_override(token),
            self.global_default_bps,
        )
    }

    /// The configuration that holds no rate at all.
    pub open spec fn empty() -> FeeView {
        FeeView {
            global_default_bps: None,
            token_overrides: Map::empty(),
            escrow_overrides: Map::empty(),
        }
    }
}

/// The fee rates of one contract instance.
pub struct FeeConfig {
    global_default_bps: Option<u32>,
    token_overrides: HashMap<u64, u32>,
    escrow_overrides: HashMap<u64, u32>,
}

impl View for FeeConfig {
    type V = FeeView;

    closed spec fn view(&self) -> FeeView {
        FeeView {
            global_default_bps: self.global_default_bps,
            token_overrides: self.token_overrides@,
            escrow_overrides: self.escrow_overrides@,
        }
    }
}

impl FeeConfig {
    #[verifier::type_invariant]
    pub closed spec fn inv(&self) -> bool {
        self@.wf()
    }

    /// A configuration without any rate: every escrow is free of fees.
    pub fn new() -> (fees: FeeConfig)
        ensures
            fees@ == FeeView::empty(),
            fees@.wf(),
    {
        FeeConfig {
            global_default_bps: None,
            token_overrides: HashMap::new(),
            escrow_overrides: HashMap::new(),
        }
    }

    /// Sets or clears the global default rate. A rate above the denominator
    /// is refused and nothing changes.
    pub fn set_global_default(&mut self, bps: Option<u32>) -> (r: Result<(), Error>)
        ensures
            final(self)@.wf(),
            match r {
                Ok(()) => {
                    &&& bps matches Some(b) ==> b <= BPS_DENOMINATOR
                    &&& final(self)@ == (FeeView { global_default_bps: bps, ..old(self)@ })
                },
                Err(e) => {
                    &&& e == Error::InvalidFeeConfiguration
                    &&& bps matches Some(b) && b > BPS_DENOMINATOR
                    &&& final(self)@ == old(self)@
                },
            },
    {
        proof {
            use_type_invariant(&*self);
        }
        if let Some(b) = bps {
            if b > BPS_DENOMINATOR {
                return Err(Error::InvalidFeeConfiguration);
            }
        }
        self.global_default_bps = bps;
        Ok(())
    }

    /// Stores `bps` as the rate of every escrow held in `token`, in place of
    /// an earlier override. A rate above the denominator is refused and
    /// nothing changes.
    pub fn set_token_fee(&mut self, token: Address, bps: u32) -> (r: Result<(), Error>)
        ensures
            final(self)@.wf(),
            match r {
                Ok(()) => {
                    &&& bps <= BPS_DENOMINATOR
                    &&& final(self)@ == (FeeView {
                        token_overrides: old(self)@.token_overrides.insert(token.id, bps),
                        ..old(self)@
                    })
                },
                Err(e) => {
                    &&& e == Error::InvalidFeeConfiguration
                    &&& bps > BPS_DENOMINATOR
                    &&& final(self)@ == old(self)@
                },
            },
    {
        proof {
            use_type_invariant(&*self);
        }
        if bps > BPS_DENOMINATOR {
            return Err(Error::InvalidFeeConfiguration);
        }
        let mut overrides: HashMap<u64, u32> = HashMap::new();
        core::mem::swap(&mut self.token_overrides, &mut overrides);
        overrides.insert(token.id, bps);
        core::mem::swap(&mut self.token_overrides, &mut overrides);
        Ok(())
    }

    /// Stores `bps` as the rate of the escrow `escrow_id`, in place of an
    /// earlier override; the escrow need not exist. A rate above the
    /// denominator is refused and nothing changes.
    pub fn set_escrow_fee(&mut self, escrow_id: u64, bps: u32) -> (r: Result<(), Error>)
        ensures
            final(self)@.wf(),
            match r {
                Ok(()) => {
                    &&& bps <= BPS_DENOMINATOR
                    &&& final(self)@ == (FeeView {
                        escrow_overrides: old(self)@.escrow_overrides.insert(escrow_id, bps),
                        ..old(self)@
                    })
                },
                Err(e) => {
                    &&& e == Error::InvalidFeeConfiguration
                    &&& bps > BPS_DENOMINATOR
                    &&& final(self)@ == old(self)@
                },
            },
    {
        proof {
            use_type_invariant(&*self);
        }
        if bps > BPS_DENOMINATOR {
            return Err(Error::InvalidFeeConfiguration);
        }
        let mut overrides: HashMap<u64, u32> = HashMap::new();
        core::mem::swap(&mut self.escrow_overrides, &mut overrides);
        overrides.insert(escrow_id, bps);
        core::mem::swap(&mut self.escrow_overrides, &mut overrides);
        Ok(())
    }

    /// The global default rate, if one was set.
    pub fn global_default(&self) -> (bps: Option<u32>)
        ensures
            bps == self@.global_default_bps,
    {
        self.global_default_bps
    }

    /// The override stored for `token`, if any.
    pub fn token_fee(&self, token: Address) -> (bps: Option<u32>)
        ensures
            bps == self@.token_override(token),
    {
        match self.token_overrides.get(&token.id) {
            Some(bps) => Some(*bps),
            None => None,
        }
    }

    /// The override stored for the escrow `escrow_id`, if any.
    pub fn escrow_fee(&self, escrow_id: u64) -> (bps: Option<u32>)
        ensures
            bps == self@.escrow_override(escrow_id),
    {
        match self.escrow_overrides.get(&escrow_id) {
            Some(bps) => Some(*bps),
            None => None,
        }
    }

    /// The rate that applies to the escrow `escrow_id` held in `token`: its
    /// own override, else the token's, else the global default, else zero.
    pub fn rate(&self, escrow_id: u64, token: Address) -> (bps: u32)
        ensures
            bps == self@.rate(escrow_id, token),
            bps <= BPS_DENOMINATOR,
    {
        proof {
            use_type_invariant(self);
        }
        resolve_bps(self.escrow_fee(escrow_id), self.token_fee(token), self.global_default_bps)
    }
}

} // verus!
