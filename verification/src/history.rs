use vstd::prelude::*;
use crate::state::LPInfo;

verus! {

/// One change to a provider's position.
#[derive(Clone, Copy, Debug, PartialEq, Eq)]
pub enum Movement {
    Deposit { sol_amount: u64, token_amount: u64 },
    Withdrawal { sol_amount: u64, token_amount: u64 },
}

impl Movement {
    /// The lamports the movement adds to a position; negative for a
    /// withdrawal.
    pub open spec fn sol_delta(self) -> int {
        match self {
            Movement::Deposit { sol_amount, .. } => sol_amount as int,
            Movement::Withdrawal { sol_amount, .. } => -(sol_amount as int),
        }
    }

    /// The tokens the movement adds to a position; negative for a
    /// withdrawal.
    pub open spec fn token_delta(self) -> int {
        match self {
            Movement::Deposit { token_amount, .. } => token_amount as int,
            Movement::Withdrawal { token_amount, .. } => -(token_amount as int),
        }
    }

    /// The position after the movement, where the position accepts it.
    pub open spec fn applied_to(self, position: LPInfo) -> Option<LPInfo> {
        match self {
            Movement::Deposit { sol_amount, token_amount } => position.after_deposit(
                sol_amount,
                token_amount,
            ),
            Movement::Withdrawal { sol_amount, token_amount } => position.after_withdrawal(
                sol_amount,
                token_amount,
            ),
        }
    }
}

/// Lamports deposited less lamports withdrawn, over the whole history.
pub open spec fn net_sol(history: Seq<Movement>) -> int
    decreases history.len(),
{
    if history.len() == 0 {
        0
    } else {
        net_sol(history.drop_last()) + history.last().sol_delta()
    }
}

/// Tokens deposited less tokens withdrawn, over the whole history.
pub open spec fn net_token(history: Seq<Movement>) -> int
    decreases history.len(),
{
    if history.len() == 0 {
        0
    } else {
        net_token(history.drop_last()) + history.last().token_delta()
    }
}

/// The position after every movement of the history in turn, where each was
/// accepted.
pub open spec fn replayed(start: LPInfo, history: Seq<Movement>) -> Option<LPInfo>
    decreases history.len(),
{
    if history.len() == 0 {
        Some(start)
    } else {
        match replayed(start, history.drop_last()) {
            Some(position) => history.last().applied_to(position),
            None => None,
        }
    }
}

/// After any history of accepted deposits and withdrawals a position holds
/// what it started with plus what was deposited less what was withdrawn, per
/// asset; neither amount is ever negative or above the largest 64-bit
/// amount, and the owner stays.
pub proof fn contributions_are_conserved(start: LPInfo, history: Seq<Movement>)
    requires
        replayed(start, history) is Some,
    ensures
        ({
            let position = replayed(start, history)->Some_0;
            &&& position.sol_amount == start.sol_amount + net_sol(history)
            &&& position.token_amount == start.token_amount + net_token(history)
            &&& 0 <= start.sol_amount + net_sol(history) <= u64::MAX
            &&& 0 <= start.token_amount + net_token(history) <= u64::MAX
            &&& position.owner == start.owner
        }),
    decreases history.len(),
{
    if history.len() > 0 {
        contributions_are_conserved(start, history.drop_last());
    }
}

/// A provider who starts with a fresh position holds exactly the net of
/// their deposits and withdrawals.
pub proof fn fresh_position_holds_the_net(owner: crate::state::Address, history: Seq<Movement>)
    requires
        replayed(LPInfo::zeroed(owner), history) is Some,
    ensures
        replayed(LPInfo::zeroed(owner), history)->Some_0.sol_amount == net_sol(history),
        replayed(LPInfo::zeroed(owner), history)->Some_0.token_amount == net_token(history),
        net_sol(history) >= 0,
        net_token(history) >= 0,
{
    contributions_are_conserved(LPInfo::zeroed(owner), history);
}

/// Applies one movement to the position, or leaves it as it is where the
/// position does not accept the movement.
pub fn apply(position: &mut LPInfo, movement: Movement) -> (accepted: bool)
    ensures
        match movement.applied_to(*old(position)) {
            Some(after) => accepted && *final(position) == after,
            None => !accepted && *final(position) == *old(position),
        },
{
    match movement {
        Movement::Deposit { sol_amount, token_amount } => position.record_deposit(
            sol_amount,
            token_amount,
        ).is_ok(),
        Movement::Withdrawal { sol_amount, token_amount } => position.record_withdrawal(
            sol_amount,
            token_amount,
        ).is_ok(),
    }
}

} // verus!
