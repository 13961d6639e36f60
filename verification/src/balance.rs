//! Totalling the lamports held by EVM accounts while the EVM state is
//! walked (the `balance-lamports` command of the ledger tool).

use vstd::prelude::*;
use vstd::arithmetic::div_mod::lemma_add_mod_noop;
use vstd::arithmetic::div_mod::lemma_small_mod;
use crate::gwei::{gweis_in_range, gweis_to_lamports, spec_gweis_to_lamports};
use crate::uint::U256;

verus! {

/// 2^64: the running total wraps around at this value, as an atomic
/// `fetch_add` does.
pub open spec fn total_modulus() -> nat {
    0x1_0000_0000_0000_0000
}

/// The running total after adding the whole lamports of one more account
/// balance (in gwei) to `total`.
pub open spec fn add_balance(total: nat, gweis: nat) -> nat {
    (total + spec_gweis_to_lamports(gweis).0) % total_modulus()
}

/// The running total after the balances `gweis`, one after another, starting
/// from `total`.
pub open spec fn add_balances(total: nat, gweis: Seq<nat>) -> nat
    decreases gweis.len(),
{
    if gweis.len() == 0 {
        total
    } else {
        add_balance(add_balances(total, gweis.drop_last()), gweis.last())
    }
}

/// The whole lamports of all the balances `gweis`.
pub open spec fn sum_lamports(gweis: Seq<nat>) -> nat
    decreases gweis.len(),
{
    if gweis.len() == 0 {
        0
    } else {
        sum_lamports(gweis.drop_last()) + spec_gweis_to_lamports(gweis.last()).0
    }
}

/// Counts the lamports of the EVM accounts it is shown.
pub struct BalanceCounter {
    balance: u64,
}

impl View for BalanceCounter {
    /// The total so far.
    type V = nat;

    closed spec fn view(&self) -> nat {
        self.balance as nat
    }
}

impl BalanceCounter {
    /// A counter at zero.
    pub fn new() -> (r: BalanceCounter)
        ensures
            r@ == 0,
    {
        BalanceCounter { balance: 0 }
    }

    /// Add the whole lamports of an account balance given in gwei.
    pub fn inspect_data(&mut self, balance: U256)
        requires
            gweis_in_range(balance@),
        ensures
            final(self)@ == add_balance(old(self)@, balance@),
    {
        let (lamports, _) = gweis_to_lamports(balance);
        self.balance = self.balance.wrapping_add(lamports);
    }

    /// The total so far.
    pub fn balance(&self) -> (r: u64)
        ensures
            r == self@,
    {
        self.balance
    }
}

/// Counting balances one by one from zero gives their total lamports,
/// modulo 2^64.
pub proof fn lemma_counter_totals_balances(gweis: Seq<nat>)
    ensures
        add_balances(0, gweis) == sum_lamports(gweis) % total_modulus(),
    decreases gweis.len(),
{
    if gweis.len() == 0 {
        lemma_small_mod(0, total_modulus());
    } else {
        lemma_counter_totals_balances(gweis.drop_last());
        lemma_add_mod_noop(
            sum_lamports(gweis.drop_last()) as int,
            spec_gweis_to_lamports(gweis.last()).0 as int,
            total_modulus() as int,
        );
        lemma_small_mod(spec_gweis_to_lamports(gweis.last()).0 % total_modulus(), total_modulus());
    }
}

} // verus!
