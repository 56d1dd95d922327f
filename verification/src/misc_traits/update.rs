//! Updates that run at a fixed pace, whatever the pace of the frames.
use vstd::prelude::*;

verus! {

/// How many internal steps are due once `total` time units have
/// accumulated: one for each full `delay`, none where there is no delay.
pub open spec fn steps_due(total: int, delay: u32) -> int {
    if delay > 0 {
        total / (delay as int)
    } else {
        0
    }
}

/// What is left of `total` accumulated time units after the steps that are
/// due have been taken.
pub open spec fn time_left(total: int, delay: u32) -> int {
    if delay > 0 {
        total % (delay as int)
    } else {
        total
    }
}

/// Something that is updated now and then, depending on the time that has
/// passed. It accumulates the time of the frames and makes an internal
/// update whenever at least its delay has accumulated.
pub trait Updatable: Sized {
    /// What the updates act on.
    type Host;

    /// The time accumulated since the last internal update.
    spec fn time_elapsed(&self) -> u32;

    /// `self` with its accumulated time replaced and nothing else changed.
    spec fn put_time_elapsed(self, time: u32) -> Self;

    /// The time that has to accumulate before an internal update is made.
    spec fn delay(&self) -> u32;

    /// Whether an internal update over `steps` steps may be asked of `self`
    /// for `host`.
    spec fn admits(self, steps: u32, host: Self::Host) -> bool;

    /// Whether an internal update of `before` over `steps` steps may turn it
    /// into `after` and its host into `host_after`.
    spec fn internal(
        before: Self,
        steps: u32,
        host_before: Self::Host,
        after: Self,
        host_after: Self::Host,
    ) -> bool;

    /// The time accumulated since the last internal update.
    fn get_time_elapsed(&self) -> (time: u32)
        ensures
            time == self.time_elapsed(),
    ;

    /// The accumulated time, to be changed in place.
    fn get_time_elapsed_mut(&mut self) -> (time: &mut u32)
        ensures
            *time == old(self).time_elapsed(),
            final(self).time_elapsed() == *final(time),
            *final(self) == old(self).put_time_elapsed(*final(time)),
    ;

    /// The time that has to accumulate before an internal update is made.
    fn get_delay(&self) -> (delay: u32)
        ensures
            delay == self.delay(),
    ;

    /// Makes one internal update that covers `mult` steps.
    fn updated_internal(self, mult: u32, host: &mut Self::Host) -> (updated: Self)
        requires
            self.admits(mult, *old(host)),
        ensures
            Self::internal(self, mult, *old(host), updated, *final(host)),
    ;

    /// Accounts for `dt` more time units. Below the delay the time is only
    /// accumulated. From the delay on, one internal update is made for all
    /// the steps that are due, and only the remainder stays accumulated.
    fn updated(self, dt: u32, host: &mut Self::Host) -> (updated: Self)
        requires
            self.time_elapsed() + dt <= u32::MAX,
            self.time_elapsed() + dt >= self.delay() ==> self.put_time_elapsed(
                time_left(self.time_elapsed() + dt, self.delay()) as u32,
            ).admits(steps_due(self.time_elapsed() + dt, self.delay()) as u32, *old(host)),
        ensures
            self.time_elapsed() + dt >= self.delay() ==> Self::internal(
                self.put_time_elapsed(time_left(self.time_elapsed() + dt, self.delay()) as u32),
                steps_due(self.time_elapsed() + dt, self.delay()) as u32,
                *old(host),
                updated,
                *final(host),
            ),
            self.time_elapsed() + dt < self.delay() ==> updated == self.put_time_elapsed(
                (self.time_elapsed() + dt) as u32,
            ) && *final(host) == *old(host),
    {
        let mut updated = self;
        let time_elapsed: u32 = updated.get_time_elapsed() + dt;
        let delay: u32 = updated.get_delay();
        if time_elapsed >= delay {
            // several steps may be due at once
            let mult: u32 = if delay > 0 {
                time_elapsed / delay
            } else {
                0
            };
            let left: u32 = if delay > 0 {
                time_elapsed % delay
            } else {
                time_elapsed
            };
            *updated.get_time_elapsed_mut() = left;
            return updated.updated_internal(mult, host);
        }
        *updated.get_time_elapsed_mut() = time_elapsed;
        updated
    }
}

/// The accumulated time is conserved: the steps taken, each worth one delay,
/// and the time left add up to the time that had accumulated; and less than
/// one delay is left.
pub proof fn lemma_time_is_conserved(total: int, delay: u32)
    requires
        0 <= total,
        0 < delay,
    ensures
        steps_due(total, delay) * delay + time_left(total, delay) == total,
        0 <= time_left(total, delay) < delay,
        0 <= steps_due(total, delay) <= total,
{
    vstd::arithmetic::div_mod::lemma_fundamental_div_mod(total, delay as int);
    vstd::arithmetic::div_mod::lemma_mod_bound(total, delay as int);
    vstd::arithmetic::div_mod::lemma_div_pos_is_pos(total, delay as int);
    assert(steps_due(total, delay) * delay == delay * steps_due(total, delay)) by (nonlinear_arith);
    assert(steps_due(total, delay) <= total) by (nonlinear_arith)
        requires
            steps_due(total, delay) * delay <= total,
            0 <= steps_due(total, delay),
            1 <= delay,
    ;
}

} // verus!
