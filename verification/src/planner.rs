//! The rules of the transaction planner that do not depend on keys or
//! notes.

use vstd::prelude::*;

verus! {

/// Why a plan cannot be made.
#[derive(Clone, Copy, Debug, PartialEq, Eq, Structural)]
pub enum PlanError {
    /// A swap was asked for with no input value.
    NoSwapInput,
    /// A memo was set on a plan without outputs.
    MemoWithoutOutputs,
    /// The plan does not balance.
    Unbalanced,
}

/// What is to be done about the memo when a plan is finished.
#[derive(Clone, Copy, Debug, PartialEq, Eq, Structural)]
pub enum MemoStep {
    /// The plan has outputs and no memo: an empty memo is added.
    AddEmptyMemo,
    /// The memo stays as it is.
    Keep,
}

/// The two input amounts of a swap. The trading pair holds its two assets
/// in a canonical order; the input amount goes to the side of the input
/// asset, and the other side gets nothing. A swap with no input is refused.
pub fn swap_deltas(input_is_first_asset: bool, amount: u128) -> (result: Result<
    (u128, u128),
    PlanError,
>)
    ensures
        result == if amount == 0 {
            Err::<(u128, u128), PlanError>(PlanError::NoSwapInput)
        } else if input_is_first_asset {
            Ok((amount, 0u128))
        } else {
            Ok((0u128, amount))
        },
{
    let (delta_1, delta_2): (u128, u128) = if input_is_first_asset {
        (amount, 0)
    } else {
        (0, amount)
    };
    if delta_1 == 0 && delta_2 == 0 {
        return Err(PlanError::NoSwapInput);
    }
    Ok((delta_1, delta_2))
}

/// Decides about the memo of a plan that is being finished: a plan with
/// outputs gets an empty memo where it has none, and a plan without outputs
/// must not have one.
pub fn memo_step(outputs: usize, has_memo: bool) -> (result: Result<MemoStep, PlanError>)
    ensures
        result == if outputs > 0 && !has_memo {
            Ok::<MemoStep, PlanError>(MemoStep::AddEmptyMemo)
        } else if outputs == 0 && has_memo {
            Err(PlanError::MemoWithoutOutputs)
        } else {
            Ok(MemoStep::Keep)
        },
{
    if outputs > 0 && !has_memo {
        Ok(MemoStep::AddEmptyMemo)
    } else if outputs == 0 && has_memo {
        Err(PlanError::MemoWithoutOutputs)
    } else {
        Ok(MemoStep::Keep)
    }
}

/// A finished plan must balance.
pub fn check_balanced(balance_is_zero: bool) -> (result: Result<(), PlanError>)
    ensures
        result == if balance_is_zero {
            Ok::<(), PlanError>(())
        } else {
            Err(PlanError::Unbalanced)
        },
{
    if balance_is_zero {
        Ok(())
    } else {
        Err(PlanError::Unbalanced)
    }
}

} // verus!
