//! The retry policy: which failures are tried again, and after what delays.

use crate::dlm_error::DlmError;
use tokio_retry::strategy::ExponentialBackoff;
use vstd::arithmetic::power::{lemma0_pow, lemma_pow_increases, pow};
use vstd::prelude::*;

verus! {

/// The exponential back-off strategy of `tokio_retry`, taken as it is: what
/// is known of a strategy is what the functions below say of it.
#[verifier::external_type_specification]
#[verifier::external_body]
pub struct ExExponentialBackoff(tokio_retry::strategy::ExponentialBackoff);

/// The delay in milliseconds, before the factor is applied, that a back-off
/// strategy holds for its next step.
pub uninterp spec fn backoff_current(b: ExponentialBackoff) -> u64;

/// The base that a back-off strategy multiplies its current delay by.
pub uninterp spec fn backoff_base(b: ExponentialBackoff) -> u64;

/// The factor that a back-off strategy applies to each delay.
pub uninterp spec fn backoff_factor(b: ExponentialBackoff) -> u64;

/// The longest delay that a back-off strategy gives, in nanoseconds, if it
/// has one.
pub uninterp spec fn backoff_max_delay(b: ExponentialBackoff) -> Option<int>;

/// The product of two numbers, or the largest number where the product is
/// larger.
pub open spec fn saturating_product(a: u64, b: u64) -> u64 {
    if a * b > u64::MAX {
        u64::MAX
    } else {
        (a * b) as u64
    }
}

/// The number of nanoseconds in a millisecond.
pub open spec fn nanos_per_milli() -> int {
    1_000_000
}

/// Binds `ExponentialBackoff::from_millis`: a strategy that starts at `base`
/// milliseconds, multiplies by `base`, has factor one and no longest delay.
#[verifier::external_body]
fn backoff_from_millis(base: u64) -> (b: ExponentialBackoff)
    ensures
        backoff_current(b) == base,
        backoff_base(b) == base,
        backoff_factor(b) == 1,
        backoff_max_delay(b) is None,
{
    ExponentialBackoff::from_millis(base)
}

/// Binds `ExponentialBackoff::factor`: the same strategy with another factor.
#[verifier::external_body]
fn backoff_with_factor(b: ExponentialBackoff, factor: u64) -> (r: ExponentialBackoff)
    ensures
        backoff_current(r) == backoff_current(b),
        backoff_base(r) == backoff_base(b),
        backoff_factor(r) == factor,
        backoff_max_delay(r) == backoff_max_delay(b),
{
    b.factor(factor)
}

/// Binds `ExponentialBackoff::max_delay`, with the longest delay given in
/// milliseconds: the same strategy with that longest delay.
#[verifier::external_body]
fn backoff_with_max_delay(b: ExponentialBackoff, millis: u64) -> (r: ExponentialBackoff)
    ensures
        backoff_current(r) == backoff_current(b),
        backoff_base(r) == backoff_base(b),
        backoff_factor(r) == backoff_factor(b),
        backoff_max_delay(r) == Some(millis * nanos_per_milli()),
{
    b.max_delay(std::time::Duration::from_millis(millis))
}

/// Binds the strategy's `Iterator::next`, with the delay it yields given in
/// whole milliseconds.
///
/// The delay is the current delay times the factor, saturating. Where the
/// strategy has a longest delay and that product is longer, the longest delay
/// is yielded and the strategy stays as it is; else the product is yielded
/// and the current delay is multiplied by the base, saturating.
#[verifier::external_body]
fn backoff_next(b: &mut ExponentialBackoff) -> (r: Option<u128>)
    ensures
        backoff_base(*final(b)) == backoff_base(*old(b)),
        backoff_factor(*final(b)) == backoff_factor(*old(b)),
        backoff_max_delay(*final(b)) == backoff_max_delay(*old(b)),
        ({
            let product = saturating_product(backoff_current(*old(b)), backoff_factor(*old(b)));
            match backoff_max_delay(*old(b)) {
                Some(longest) if product * nanos_per_milli() > longest => {
                    &&& r == Some((longest / nanos_per_milli()) as u128)
                    &&& backoff_current(*final(b)) == backoff_current(*old(b))
                },
                _ => {
                    &&& r == Some(product as u128)
                    &&& backoff_current(*final(b)) == saturating_product(
                        backoff_current(*old(b)),
                        backoff_base(*old(b)),
                    )
                },
            }
        }),
{
    match b.next() {
        Some(delay) => Some(delay.as_millis()),
        None => None,
    }
}

/// The delay in milliseconds before the retry with the given attempt index,
/// which starts at one, of an exponential back-off: the base interval to the
/// power of the index, times the factor, and no more than the ceiling.
pub open spec fn backoff_delay(base: u64, factor: u64, ceiling: u64, attempt: nat) -> nat {
    let delay = pow(base as int, attempt) * factor;
    if delay > ceiling {
        ceiling as nat
    } else {
        delay as nat
    }
}

/// The delays of `max_attempts` retries of an exponential back-off, in order.
pub open spec fn backoff_schedule(base: u64, factor: u64, ceiling: u64, max_attempts: nat) -> Seq<nat> {
    Seq::new(max_attempts, |i: int| backoff_delay(base, factor, ceiling, (i + 1) as nat))
}

/// The base interval of the retry delays, in milliseconds.
pub const RETRY_BASE_MILLIS: u64 = 10;

/// The factor applied to each retry delay.
pub const RETRY_FACTOR: u64 = 1;

/// The ceiling of the retry delays, in milliseconds: ten minutes.
pub const RETRY_MAX_DELAY_MILLIS: u64 = 600_000;

/// The delay in milliseconds before the retry of a download with the given
/// attempt index, which starts at one.
pub open spec fn retry_delay(attempt: nat) -> nat {
    backoff_delay(RETRY_BASE_MILLIS, RETRY_FACTOR, RETRY_MAX_DELAY_MILLIS, attempt)
}

/// The delays of `max_attempts` retries of a download, in order.
pub open spec fn retry_schedule(max_attempts: nat) -> Seq<nat> {
    backoff_schedule(RETRY_BASE_MILLIS, RETRY_FACTOR, RETRY_MAX_DELAY_MILLIS, max_attempts)
}

proof fn lemma_power_is_not_negative(base: u64, exponent: nat)
    ensures
        pow(base as int, exponent) >= 0,
        base >= 1 ==> pow(base as int, exponent) >= 1,
        base <= 1 ==> pow(base as int, exponent) <= 1,
    decreases exponent,
{
    reveal_with_fuel(pow, 2);
    if exponent > 0 {
        lemma_power_is_not_negative(base, (exponent - 1) as nat);
        let rest = pow(base as int, (exponent - 1) as nat);
        assert(pow(base as int, exponent) == base * rest);
        assert(base >= 1 && rest >= 1 ==> base * rest >= 1) by (nonlinear_arith);
        assert(base >= 0 && rest >= 0 ==> base * rest >= 0) by (nonlinear_arith);
        assert(base <= 1 && 0 <= rest <= 1 ==> base * rest <= 1) by (nonlinear_arith)
            requires
                base >= 0,
        ;
    }
}

/// The delays of an exponential back-off never shrink, and none is above the
/// ceiling.
pub proof fn lemma_backoff_delay_bounded_and_monotonic(base: u64, factor: u64, ceiling: u64, i: nat, j: nat)
    requires
        1 <= i <= j,
    ensures
        backoff_delay(base, factor, ceiling, i) <= backoff_delay(base, factor, ceiling, j),
        backoff_delay(base, factor, ceiling, j) <= ceiling,
{
    lemma_power_is_not_negative(base, i);
    lemma_power_is_not_negative(base, j);
    let low = pow(base as int, i);
    let high = pow(base as int, j);
    if base == 0 {
        lemma0_pow(i);
        lemma0_pow(j);
    } else {
        lemma_pow_increases(base as nat, i, j);
    }
    assert(low * factor <= high * factor) by (nonlinear_arith)
        requires
            0 <= low <= high,
            factor >= 0,
    ;
    assert(0 <= low * factor) by (nonlinear_arith)
        requires
            0 <= low,
            factor >= 0,
    ;
}

/// The schedule of `max_attempts` retries of an exponential back-off has
/// exactly `max_attempts` delays, they never shrink, and none is above the
/// ceiling.
pub proof fn lemma_backoff_schedule(base: u64, factor: u64, ceiling: u64, max_attempts: nat)
    ensures
        backoff_schedule(base, factor, ceiling, max_attempts).len() == max_attempts,
        forall|i: int, j: int|
            0 <= i <= j < max_attempts ==> backoff_schedule(base, factor, ceiling, max_attempts)[i]
                <= backoff_schedule(base, factor, ceiling, max_attempts)[j],
        forall|i: int|
            0 <= i < max_attempts ==> backoff_schedule(base, factor, ceiling, max_attempts)[i] <= ceiling,
{
    let schedule = backoff_schedule(base, factor, ceiling, max_attempts);
    assert forall|i: int, j: int| 0 <= i <= j < max_attempts implies schedule[i] <= schedule[j] by {
        lemma_backoff_delay_bounded_and_monotonic(base, factor, ceiling, (i + 1) as nat, (j + 1) as nat);
    }
    assert forall|i: int| 0 <= i < max_attempts implies schedule[i] <= ceiling by {
        lemma_backoff_delay_bounded_and_monotonic(base, factor, ceiling, (i + 1) as nat, (i + 1) as nat);
    }
}

/// The delays of a download's retries grow tenfold from ten milliseconds for
/// the first five attempts, and are the ceiling from the sixth attempt on.
pub proof fn lemma_retry_delay_values(attempt: nat)
    requires
        attempt >= 1,
    ensures
        attempt <= 5 ==> retry_delay(attempt) == pow(10, attempt),
        attempt <= 4 ==> retry_delay(attempt + 1) == 10 * retry_delay(attempt),
        attempt >= 6 ==> retry_delay(attempt) == RETRY_MAX_DELAY_MILLIS,
        retry_delay(1) == 10,
{
    reveal_with_fuel(pow, 8);
    if attempt >= 6 {
        lemma_pow_increases(10, 6, attempt);
    }
}

/// A power that stays within the numbers a strategy can hold.
spec fn capped_power(base: u64, exponent: nat) -> u64 {
    if pow(base as int, exponent) > u64::MAX {
        u64::MAX
    } else {
        pow(base as int, exponent) as u64
    }
}

proof fn lemma_capped_power_advances(base: u64, exponent: nat)
    ensures
        capped_power(base, 1) == base,
        saturating_product(capped_power(base, exponent), base) == capped_power(base, exponent + 1),
{
    reveal_with_fuel(pow, 2);
    lemma_power_is_not_negative(base, exponent);
    let power = pow(base as int, exponent);
    assert(pow(base as int, exponent + 1) == base * power);
    if power > u64::MAX {
        assert(base * power >= power) by (nonlinear_arith)
            requires
                base >= 1,
                power >= 0,
        ;
        assert(u64::MAX * base >= u64::MAX) by (nonlinear_arith)
            requires
                base >= 1,
        ;
    } else {
        assert(power * base == base * power) by (nonlinear_arith);
    }
}

/// Where the product that a strategy computes is within the ceiling, it is
/// the delay of the attempt.
proof fn lemma_delay_within_ceiling(base: u64, factor: u64, ceiling: u64, attempt: nat)
    requires
        saturating_product(capped_power(base, attempt), factor) <= ceiling,
    ensures
        backoff_delay(base, factor, ceiling, attempt) == saturating_product(
            capped_power(base, attempt),
            factor,
        ),
{
    lemma_power_is_not_negative(base, attempt);
    let power = pow(base as int, attempt);
    let held = capped_power(base, attempt);
    if factor == 0 {
        assert(power * 0 == 0 && held * 0 == 0) by (nonlinear_arith);
    } else {
        assert(power * factor >= held * factor) by (nonlinear_arith)
            requires
                power >= held,
                factor >= 1,
        ;
        assert(power * factor >= power) by (nonlinear_arith)
            requires
                power >= 0,
                factor >= 1,
        ;
    }
}

/// Where the product that a strategy computes is above the ceiling, the
/// ceiling is the delay of that attempt and of every later one.
proof fn lemma_delay_above_ceiling(base: u64, factor: u64, ceiling: u64, reached: nat, attempt: nat)
    requires
        1 <= reached <= attempt,
        saturating_product(capped_power(base, reached), factor) > ceiling,
    ensures
        backoff_delay(base, factor, ceiling, attempt) == ceiling,
{
    lemma_power_is_not_negative(base, reached);
    lemma_power_is_not_negative(base, attempt);
    let held = capped_power(base, reached);
    let early = pow(base as int, reached);
    let late = pow(base as int, attempt);
    if base == 0 {
        lemma0_pow(reached);
        assert(held * factor == 0) by (nonlinear_arith)
            requires
                held == 0,
        ;
    } else {
        lemma_pow_increases(base as nat, reached, attempt);
        assert(late * factor >= held * factor) by (nonlinear_arith)
            requires
                late >= early >= held >= 0,
                factor >= 0,
        ;
    }
}

/// The retries of one download: a schedule of delays that is used up one
/// delay at a time.
pub struct RetryState {
    backoff: ExponentialBackoff,
    base: u64,
    factor: u64,
    ceiling: u64,
    made: usize,
    max_attempts: usize,
    /// How many times the strategy has moved on to a longer delay.
    advanced: Ghost<nat>,
}

impl RetryState {
    /// The base interval, in milliseconds.
    pub closed spec fn base(&self) -> u64 {
        self.base
    }

    /// The factor applied to each delay.
    pub closed spec fn factor(&self) -> u64 {
        self.factor
    }

    /// The longest delay, in milliseconds.
    pub closed spec fn ceiling(&self) -> u64 {
        self.ceiling
    }

    /// The number of delays that were handed out.
    pub closed spec fn made(&self) -> nat {
        self.made as nat
    }

    /// The number of delays of the whole schedule.
    pub closed spec fn max_attempts(&self) -> nat {
        self.max_attempts as nat
    }

    /// The back-off strategy stands where the schedule stands.
    pub closed spec fn wf(&self) -> bool {
        &&& self.made <= self.max_attempts
        &&& backoff_base(self.backoff) == self.base
        &&& backoff_factor(self.backoff) == self.factor
        &&& backoff_max_delay(self.backoff) == Some(self.ceiling * nanos_per_milli())
        &&& self.advanced@ <= self.made
        &&& backoff_current(self.backoff) == capped_power(self.base, self.advanced@ + 1)
        &&& self.advanced@ < self.made ==> saturating_product(backoff_current(self.backoff), self.factor)
            > self.ceiling
    }

    /// The whole schedule.
    pub open spec fn schedule(&self) -> Seq<nat> {
        backoff_schedule(self.base(), self.factor(), self.ceiling(), self.max_attempts())
    }

    /// The delays that are left, in order.
    pub open spec fn remaining(&self) -> Seq<nat> {
        self.schedule().skip(self.made() as int)
    }

    /// The schedule of `max_attempts` retries of an exponential back-off
    /// with the given base interval and ceiling, both in milliseconds, and
    /// the given factor.
    pub fn new(base_millis: u64, factor: u64, max_delay_millis: u64, max_attempts: usize) -> (r: RetryState)
        ensures
            r.wf(),
            r.base() == base_millis,
            r.factor() == factor,
            r.ceiling() == max_delay_millis,
            r.made() == 0,
            r.max_attempts() == max_attempts,
            r.remaining() == backoff_schedule(base_millis, factor, max_delay_millis, max_attempts as nat),
    {
        let backoff = backoff_with_factor(
            backoff_with_max_delay(backoff_from_millis(base_millis), max_delay_millis),
            factor,
        );
        proof {
            lemma_capped_power_advances(base_millis, 1);
            let schedule = backoff_schedule(base_millis, factor, max_delay_millis, max_attempts as nat);
            assert(schedule.skip(0) =~= schedule);
        }
        RetryState {
            backoff,
            base: base_millis,
            factor,
            ceiling: max_delay_millis,
            made: 0,
            max_attempts,
            advanced: Ghost(0),
        }
    }

    /// The delay, in milliseconds, to wait before the next retry; `None`
    /// when the schedule is used up.
    pub fn next(&mut self) -> (r: Option<u64>)
        requires
            old(self).wf(),
        ensures
            final(self).wf(),
            final(self).base() == old(self).base(),
            final(self).factor() == old(self).factor(),
            final(self).ceiling() == old(self).ceiling(),
            final(self).max_attempts() == old(self).max_attempts(),
            match r {
                Some(delay) => {
                    &&& old(self).made() < old(self).max_attempts()
                    &&& delay == backoff_delay(
                        old(self).base(),
                        old(self).factor(),
                        old(self).ceiling(),
                        old(self).made() + 1,
                    )
                    &&& delay == old(self).remaining()[0]
                    &&& final(self).made() == old(self).made() + 1
                    &&& final(self).remaining() == old(self).remaining().drop_first()
                },
                None => {
                    &&& old(self).made() == old(self).max_attempts()
                    &&& old(self).remaining().len() == 0
                    &&& final(self).made() == old(self).made()
                },
            },
    {
        if self.made >= self.max_attempts {
            return None;
        }
        let ghost held = backoff_current(self.backoff);
        let ghost product = saturating_product(held, self.factor);
        let next = backoff_next(&mut self.backoff);
        proof {
            let attempt = (self.made + 1) as nat;
            if product > self.ceiling {
                lemma_delay_above_ceiling(
                    self.base,
                    self.factor,
                    self.ceiling,
                    self.advanced@ + 1,
                    attempt,
                );
                assert(product * nanos_per_milli() > self.ceiling * nanos_per_milli());
                assert((self.ceiling * nanos_per_milli()) / nanos_per_milli() == self.ceiling);
            } else {
                assert(self.advanced@ == self.made);
                lemma_delay_within_ceiling(self.base, self.factor, self.ceiling, attempt);
                lemma_capped_power_advances(self.base, attempt);
                assert(product * nanos_per_milli() <= self.ceiling * nanos_per_milli());
                self.advanced = Ghost(attempt);
            }
            assert(old(self).remaining().drop_first() =~= old(self).schedule().skip(attempt as int));
        }
        let delay: u64 = match next {
            Some(millis) => if millis <= u64::MAX as u128 {
                millis as u64
            } else {
                u64::MAX
            },
            None => self.ceiling,
        };
        self.made = self.made + 1;
        Some(delay)
    }
}

/// The schedule of the retries of one download: `max_attempts` delays, each
/// as [`retry_delay`] gives it for its attempt.
pub fn retry_strategy(max_attempts: usize) -> (r: RetryState)
    ensures
        r.wf(),
        r.base() == RETRY_BASE_MILLIS,
        r.factor() == RETRY_FACTOR,
        r.ceiling() == RETRY_MAX_DELAY_MILLIS,
        r.made() == 0,
        r.max_attempts() == max_attempts,
        r.remaining() == retry_schedule(max_attempts as nat),
{
    RetryState::new(RETRY_BASE_MILLIS, RETRY_FACTOR, RETRY_MAX_DELAY_MILLIS, max_attempts)
}

/// The line logged when a download is scheduled for another attempt.
pub open spec fn retry_notice(link: Seq<char>, error_text: Seq<char>) -> Seq<char> {
    "Scheduling retry for "@ + link + " after error "@ + error_text
}

/// Decides whether the download of `link`, which failed with `e`, is tried
/// again. Only transient network failures are; for them the result is the
/// line to log before waiting. An interruption of the program is never tried
/// again.
pub fn retry_handler(e: &DlmError, link: &str) -> (r: Option<String>)
    ensures
        match r {
            Some(notice) => e@.is_network_error() && notice@ == retry_notice(link@, e@.text()),
            None => !e@.is_network_error(),
        },
        e@ is ProgramInterrupted ==> r is None,
{
    if e.is_network_error() {
        let mut notice = "Scheduling retry for ".to_owned();
        notice.append(link);
        notice.append(" after error ");
        notice.append(e.to_text().as_str());
        Some(notice)
    } else {
        None
    }
}

} // verus!
