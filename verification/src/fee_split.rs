//! Fee-split transfer: a validated two-way split of an inbound amount
//! between a fee recipient and a bridging vault.
//!
//! The underlying fungible-token movement is a host-platform primitive that
//! cannot run outside the chain; [`transfer`] is its ledger model, operating
//! on plain balances. The program shell performs the real movements in the
//! same order after the same validation.

use vstd::prelude::*;

use crate::error::ErrorCode;

verus! {

/// The three token balances that `bridge` touches.
#[derive(Clone, Copy, Debug, PartialEq, Eq, Structural)]
pub struct Balances {
    /// The caller's token balance, debited by the whole amount.
    pub user: u64,
    /// The designated fee recipient's balance, credited with the fee.
    pub fee_recipient: u64,
    /// The bridging vault's balance, credited with the remainder.
    pub vault: u64,
}

/// Whether a movement of `amount` units from a balance of `from` to a
/// balance of `to` can settle: the source covers it and the destination
/// does not overflow.
pub open spec fn transfer_ok(from: u64, to: u64, amount: u64) -> bool {
    from >= amount && to + amount <= u64::MAX
}

/// Ledger model of the external fungible-token transfer primitive: move
/// `amount` units from `from` to `to`, all or nothing.
///
/// Key-pair signing and account ownership are out of scope here; the host
/// platform enforces them around the real movement.
pub fn transfer(from: &mut u64, to: &mut u64, amount: u64) -> (r: Result<(), ErrorCode>)
    ensures
        transfer_ok(*old(from), *old(to), amount) ==> {
            &&& r is Ok
            &&& *final(from) == *old(from) - amount
            &&& *final(to) == *old(to) + amount
        },
        !transfer_ok(*old(from), *old(to), amount) ==> {
            &&& r == Err::<(), ErrorCode>(ErrorCode::CctpTransferFailed)
            &&& *final(from) == *old(from)
            &&& *final(to) == *old(to)
        },
{
    if *from >= amount {
        match (*to).checked_add(amount) {
            Some(credited) => {
                *from = *from - amount;
                *to = credited;
                Ok(())
            },
            None => Err(ErrorCode::CctpTransferFailed),
        }
    } else {
        Err(ErrorCode::CctpTransferFailed)
    }
}

/// Whether the whole fee split can settle: the fee is strictly below the
/// amount, the fee movement settles, and the vault movement settles on the
/// balances left by the fee movement.
pub open spec fn bridge_ok(b: Balances, amount: u64, fee: u64) -> bool {
    &&& fee < amount
    &&& transfer_ok(b.user, b.fee_recipient, fee)
    &&& transfer_ok((b.user - fee) as u64, b.vault, (amount - fee) as u64)
}

/// The balances after a successful fee split: the user is debited the whole
/// amount, the fee recipient is credited the fee, the vault the remainder.
pub open spec fn spec_bridge(b: Balances, amount: u64, fee: u64) -> Balances
    recommends
        bridge_ok(b, amount, fee),
{
    Balances {
        user: (b.user - amount) as u64,
        fee_recipient: (b.fee_recipient + fee) as u64,
        vault: (b.vault + (amount - fee)) as u64,
    }
}

/// Validate the fee and compute the two movement amounts, without touching
/// any balance: `fee` for the fee recipient and `amount - fee` for the
/// vault. The program shell uses this before performing the real movements.
pub fn split_amount(amount: u64, fee: u64) -> (r: Result<(u64, u64), ErrorCode>)
    ensures
        fee < amount ==> r == Ok::<(u64, u64), ErrorCode>((fee, (amount - fee) as u64)),
        fee >= amount ==> r == Err::<(u64, u64), ErrorCode>(ErrorCode::InvalidFee),
{
    if amount > fee {
        Ok((fee, amount - fee))
    } else {
        Err(ErrorCode::InvalidFee)
    }
}

/// Transfer tokens with fee deduction to the vault and the fee recipient.
///
/// Validation fails fast: with `fee >= amount` no balance moves. Then the
/// fee moves first and the remainder second; if the second movement fails,
/// the first remains applied here and the host platform's atomic rollback of
/// the enclosing call is what undoes it.
pub fn bridge(b: &mut Balances, amount: u64, fee: u64) -> (r: Result<(), ErrorCode>)
    ensures
        fee >= amount ==> {
            &&& r == Err::<(), ErrorCode>(ErrorCode::InvalidFee)
            &&& *final(b) == *old(b)
        },
        bridge_ok(*old(b), amount, fee) ==> {
            &&& r is Ok
            &&& *final(b) == spec_bridge(*old(b), amount, fee)
        },
        fee < amount && !transfer_ok(old(b).user, old(b).fee_recipient, fee) ==> {
            &&& r == Err::<(), ErrorCode>(ErrorCode::CctpTransferFailed)
            &&& *final(b) == *old(b)
        },
        fee < amount && transfer_ok(old(b).user, old(b).fee_recipient, fee)
            && !transfer_ok((old(b).user - fee) as u64, old(b).vault, (amount - fee) as u64) ==> {
            &&& r == Err::<(), ErrorCode>(ErrorCode::CctpTransferFailed)
            &&& *final(b) == (Balances {
                user: (old(b).user - fee) as u64,
                fee_recipient: (old(b).fee_recipient + fee) as u64,
                vault: old(b).vault,
            })
        },
{
    if !(amount > fee) {
        return Err(ErrorCode::InvalidFee);
    }

    transfer(&mut b.user, &mut b.fee_recipient, fee)?;

    let bridge_amount = amount - fee;
    transfer(&mut b.user, &mut b.vault, bridge_amount)?;

    Ok(())
}

/// Law: a successful fee split moves exactly `fee` to the fee recipient and
/// exactly `amount - fee` to the vault, the two movements add back up to the
/// whole amount, and no token is created or destroyed across the three
/// balances.
pub proof fn lemma_bridge_moves_exact_amounts(b: Balances, amount: u64, fee: u64)
    requires
        fee < amount,
        bridge_ok(b, amount, fee),
    ensures
        spec_bridge(b, amount, fee).fee_recipient == b.fee_recipient + fee,
        spec_bridge(b, amount, fee).vault == b.vault + (amount - fee),
        spec_bridge(b, amount, fee).user == b.user - amount,
        fee + (amount - fee) == amount,
        spec_bridge(b, amount, fee).user + spec_bridge(b, amount, fee).fee_recipient
            + spec_bridge(b, amount, fee).vault == b.user + b.fee_recipient + b.vault,
{
}

} // verus!
