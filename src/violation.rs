use vstd::prelude::*;

verus! {

/// The largest loss, in absolute value, whose percentage can be computed in `i128`.
pub const LOSS_BOUND: i128 = 1701411834604692317316873037158841057;

/// Integer division rounding toward zero, for a positive divisor.
pub open spec fn trunc_div(a: int, b: int) -> int {
    if a >= 0 {
        a / b
    } else {
        -((-a) / b)
    }
}

/// The percentage by which `current_value` has fallen below `amount`, rounded
/// toward zero; zero when `amount` is not positive. A gain gives a negative value.
pub open spec fn loss_percent_of(amount: int, current_value: int) -> int {
    if amount > 0 {
        trunc_div((amount - current_value) * 100, amount)
    } else {
        0
    }
}

/// Whether the loss of a commitment is small enough for its percentage to be
/// computed without leaving `i128`.
pub open spec fn loss_in_range(amount: int, current_value: int) -> bool {
    -LOSS_BOUND <= amount - current_value <= LOSS_BOUND
}

/// Whether the loss exceeds the tolerated maximum.
pub open spec fn loss_violated_of(amount: int, current_value: int, max_loss_percent: int) -> bool {
    loss_percent_of(amount, current_value) > max_loss_percent
}

/// Whether a commitment that expires at `expires_at` has reached maturity at `now`.
pub open spec fn duration_violated_of(expires_at: u64, now: u64) -> bool {
    now >= expires_at
}

/// The time left until `expires_at`, or zero once it is reached.
pub open spec fn time_remaining_of(expires_at: u64, now: u64) -> u64 {
    if expires_at > now {
        (expires_at - now) as u64
    } else {
        0
    }
}

/// Whether an active commitment breaks one of its rules at `now`.
pub open spec fn violated_of(
    amount: int,
    current_value: int,
    max_loss_percent: int,
    expires_at: u64,
    now: u64,
) -> bool {
    loss_violated_of(amount, current_value, max_loss_percent) || duration_violated_of(
        expires_at,
        now,
    )
}

/// Loss percentage of a position, computed without overflow and without
/// dividing by zero.
pub fn loss_percent(amount: i128, current_value: i128) -> (r: i128)
    requires
        amount <= 0 || loss_in_range(amount as int, current_value as int),
    ensures
        r == loss_percent_of(amount as int, current_value as int),
{
    if amount <= 0 {
        return 0;
    }
    let loss: i128 = amount - current_value;
    let scaled: i128 = loss * 100;
    if scaled >= 0 {
        scaled / amount
    } else {
        let magnitude: i128 = -scaled;
        -(magnitude / amount)
    }
}

/// The outcome of a violation check on one commitment.
#[derive(Clone, Copy, Debug, PartialEq, Eq, Structural)]
pub struct ViolationDetails {
    pub has_violation: bool,
    pub loss_violated: bool,
    pub duration_violated: bool,
    pub loss_percent: i128,
    pub time_remaining: u64,
}

/// Evaluates the loss and duration rules of a position at `now`.
pub fn evaluate_violations(
    amount: i128,
    current_value: i128,
    max_loss_percent: u32,
    expires_at: u64,
    now: u64,
) -> (r: ViolationDetails)
    requires
        amount <= 0 || loss_in_range(amount as int, current_value as int),
    ensures
        r.loss_percent == loss_percent_of(amount as int, current_value as int),
        r.loss_violated == loss_violated_of(
            amount as int,
            current_value as int,
            max_loss_percent as int,
        ),
        r.duration_violated == duration_violated_of(expires_at, now),
        r.has_violation == violated_of(
            amount as int,
            current_value as int,
            max_loss_percent as int,
            expires_at,
            now,
        ),
        r.time_remaining == time_remaining_of(expires_at, now),
{
    let percent = loss_percent(amount, current_value);
    let loss_violated = percent > max_loss_percent as i128;
    let duration_violated = now >= expires_at;
    let time_remaining = expires_at.saturating_sub(now);
    ViolationDetails {
        has_violation: loss_violated || duration_violated,
        loss_violated,
        duration_violated,
        loss_percent: percent,
        time_remaining,
    }
}

} // verus!
