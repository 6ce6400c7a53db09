use std::collections::HashMap;
use vstd::prelude::*;
use crate::clock::{is_clock_reading, now_epoch_nanos};
use crate::text::{decimal, u64_to_decimal};

verus! {

broadcast use vstd::std_specs::hash::group_hash_axioms;

/// A cooldown of `secs` seconds, in nanoseconds.
pub open spec fn cooldown_nanos(secs: u64) -> int {
    secs * 1_000_000_000
}

/// How long ago `last` was at time `now`; zero when the clock reads earlier
/// than `last`.
pub open spec fn elapsed_nanos(last: i128, now: i128) -> int {
    if now >= last {
        now - last
    } else {
        0
    }
}

/// Whether a request of `user` at `now` falls within the cooldown that
/// followed their last admitted request.
pub open spec fn is_limited(last: Map<u64, i128>, cooldown_secs: u64, user: u64, now: i128) -> bool {
    last.contains_key(user) && elapsed_nanos(last[user], now) < cooldown_nanos(cooldown_secs)
}

/// What deciding on a request of `user` at `now` does: within the cooldown
/// it is refused with the cooldown as the wait and the record is unchanged;
/// otherwise it is admitted and `now` is recorded as the user's last request.
pub open spec fn check_outcome(
    last: Map<u64, i128>,
    cooldown_secs: u64,
    user: u64,
    now: i128,
    res: Result<(), RateLimitError>,
    new_last: Map<u64, i128>,
) -> bool {
    if is_limited(last, cooldown_secs, user, now) {
        &&& res == Err::<(), RateLimitError>(RateLimitError { wait_secs: cooldown_secs })
        &&& new_last == last
    } else {
        &&& res is Ok
        &&& new_last == last.insert(user, now)
    }
}

/// A request was refused: the user must wait out the cooldown.
#[derive(Debug, Clone, Copy, PartialEq, Eq, Structural)]
pub struct RateLimitError {
    pub wait_secs: u64,
}

impl RateLimitError {
    /// `Rate limit exceeded. Please wait N seconds.`
    pub fn message(&self) -> (res: String)
        ensures
            res@ == "Rate limit exceeded. Please wait "@ + decimal(self.wait_secs as nat)
                + " seconds."@,
    {
        let mut s = "Rate limit exceeded. Please wait ".to_owned();
        let n = u64_to_decimal(self.wait_secs);
        s.append(n.as_str());
        s.append(" seconds.");
        s
    }
}

/// Admits at most one request per user within each cooldown period.
pub struct RateLimiter {
    limits: HashMap<u64, i128>,
    cooldown_secs: u64,
}

impl RateLimiter {
    /// The time (nanoseconds since the epoch) of each user's last admitted
    /// request.
    pub closed spec fn last_requests(&self) -> Map<u64, i128> {
        self.limits@
    }

    /// The cooldown in seconds.
    pub closed spec fn cooldown(&self) -> u64 {
        self.cooldown_secs
    }

    /// A limiter with the given cooldown that has admitted no request yet.
    pub fn new(cooldown_secs: u64) -> (res: Self)
        ensures
            res.last_requests() == Map::<u64, i128>::empty(),
            res.cooldown() == cooldown_secs,
    {
        RateLimiter { limits: HashMap::new(), cooldown_secs }
    }

    /// Decides on a request of `user_id` made at `now` (nanoseconds since the
    /// epoch). Within the cooldown after the user's last admitted request it
    /// is refused and nothing changes; otherwise it is admitted and `now`
    /// becomes the user's last request.
    pub fn check_at(&mut self, user_id: u64, now: i128) -> (res: Result<(), RateLimitError>)
        ensures
            final(self).cooldown() == old(self).cooldown(),
            check_outcome(
                old(self).last_requests(),
                old(self).cooldown(),
                user_id,
                now,
                res,
                final(self).last_requests(),
            ),
    {
        let cooldown: i128 = (self.cooldown_secs as i128) * 1_000_000_000i128;
        match self.limits.get(&user_id) {
            Some(last) => {
                let last: i128 = *last;
                let limited = if now >= last {
                    match now.checked_sub(last) {
                        Some(elapsed) => elapsed < cooldown,
                        None => false,
                    }
                } else {
                    0 < cooldown
                };
                if limited {
                    return Err(RateLimitError { wait_secs: self.cooldown_secs });
                }
            },
            None => {},
        }
        self.limits.insert(user_id, now);
        Ok(())
    }

    /// Decides on a request of `user_id` made now (see [`Self::check_at`]).
    pub fn check(&mut self, user_id: u64) -> (res: Result<(), RateLimitError>)
        ensures
            final(self).cooldown() == old(self).cooldown(),
            exists|now: i128|
                is_clock_reading(now as int) && check_outcome(
                    old(self).last_requests(),
                    old(self).cooldown(),
                    user_id,
                    now,
                    res,
                    final(self).last_requests(),
                ),
    {
        let now = now_epoch_nanos();
        let res = self.check_at(user_id, now);
        assert(check_outcome(old(self).last_requests(), old(self).cooldown(), user_id, now, res, self.last_requests()));
        res
    }
}

/// A request admitted at `t` makes every later request of the same user
/// within the cooldown (and any request on a clock that reads earlier than
/// `t`) be refused.
pub proof fn lemma_admitted_request_blocks_cooldown(
    last: Map<u64, i128>,
    cooldown_secs: u64,
    user: u64,
    t: i128,
    t2: i128,
)
    requires
        elapsed_nanos(t, t2) < cooldown_nanos(cooldown_secs),
    ensures
        is_limited(last.insert(user, t), cooldown_secs, user, t2),
{
}

/// Once the cooldown has passed since a user's last admitted request, their
/// next request is admitted.
pub proof fn lemma_request_after_cooldown_admitted(
    last: Map<u64, i128>,
    cooldown_secs: u64,
    user: u64,
    now: i128,
)
    requires
        last.contains_key(user) ==> elapsed_nanos(last[user], now) >= cooldown_nanos(cooldown_secs),
    ensures
        !is_limited(last, cooldown_secs, user, now),
{
}

/// Users are limited independently: admitting one user's request does not
/// change whether another user's request is limited.
pub proof fn lemma_users_independent(
    last: Map<u64, i128>,
    cooldown_secs: u64,
    user: u64,
    other: u64,
    t: i128,
    now: i128,
)
    requires
        user != other,
    ensures
        is_limited(last.insert(user, t), cooldown_secs, other, now) == is_limited(
            last,
            cooldown_secs,
            other,
            now,
        ),
{
}

/// With no cooldown every request is admitted.
pub proof fn lemma_zero_cooldown_admits_all(last: Map<u64, i128>, user: u64, now: i128)
    ensures
        !is_limited(last, 0, user, now),
{
}

/// The record after deciding on a request of `user` at `now`: unchanged when
/// the request is refused, with `now` as the user's last request otherwise.
pub open spec fn record_after(last: Map<u64, i128>, cooldown_secs: u64, user: u64, now: i128) -> Map<u64, i128> {
    if is_limited(last, cooldown_secs, user, now) {
        last
    } else {
        last.insert(user, now)
    }
}

/// The record after deciding, in order, on each request of `history`, a
/// sequence of (user, time) pairs.
pub open spec fn record_after_history(
    last: Map<u64, i128>,
    cooldown_secs: u64,
    history: Seq<(u64, i128)>,
) -> Map<u64, i128>
    decreases history.len(),
{
    if history.len() == 0 {
        last
    } else {
        let before = record_after_history(last, cooldown_secs, history.drop_last());
        record_after(before, cooldown_secs, history.last().0, history.last().1)
    }
}

/// Whether the `i`-th request of `history` is admitted when the requests are
/// decided in order, starting from `last`.
pub open spec fn admitted_at(
    last: Map<u64, i128>,
    cooldown_secs: u64,
    history: Seq<(u64, i128)>,
    i: int,
) -> bool {
    !is_limited(
        record_after_history(last, cooldown_secs, history.take(i)),
        cooldown_secs,
        history[i].0,
        history[i].1,
    )
}

/// Whether no request of `user` in `history` is admitted.
pub open spec fn none_admitted(
    last: Map<u64, i128>,
    cooldown_secs: u64,
    history: Seq<(u64, i128)>,
    user: u64,
) -> bool {
    forall|i: int|
        0 <= i < history.len() && #[trigger] history[i].0 == user ==> !admitted_at(
            last,
            cooldown_secs,
            history,
            i,
        )
}

/// The record that [`RateLimiter::check_at`] leaves is [`record_after`], and
/// it admits exactly the requests that are not limited.
pub proof fn lemma_check_outcome_record(
    last: Map<u64, i128>,
    cooldown_secs: u64,
    user: u64,
    now: i128,
    res: Result<(), RateLimitError>,
    new_last: Map<u64, i128>,
)
    requires
        check_outcome(last, cooldown_secs, user, now, res, new_last),
    ensures
        new_last == record_after(last, cooldown_secs, user, now),
        res is Ok <==> !is_limited(last, cooldown_secs, user, now),
{
}

proof fn lemma_none_admitted_prefix(
    last: Map<u64, i128>,
    cooldown_secs: u64,
    history: Seq<(u64, i128)>,
    user: u64,
)
    requires
        history.len() > 0,
        none_admitted(last, cooldown_secs, history, user),
    ensures
        none_admitted(last, cooldown_secs, history.drop_last(), user),
{
    let h = history.drop_last();
    assert forall|i: int| 0 <= i < h.len() && #[trigger] h[i].0 == user implies !admitted_at(
        last,
        cooldown_secs,
        h,
        i,
    ) by {
        assert(h.take(i) =~= history.take(i));
        assert(h[i] == history[i]);
        assert(history[i].0 == user);
    }
}

/// A request of `user` that is not admitted leaves their entry in the record
/// alone, and other users' requests never touch it: while none of `user`'s
/// requests is admitted, their entry stays what it was.
pub proof fn lemma_entry_kept(
    last: Map<u64, i128>,
    cooldown_secs: u64,
    history: Seq<(u64, i128)>,
    user: u64,
)
    requires
        none_admitted(last, cooldown_secs, history, user),
    ensures
        record_after_history(last, cooldown_secs, history).contains_key(user) == last.contains_key(user),
        last.contains_key(user) ==> record_after_history(last, cooldown_secs, history)[user] == last[user],
    decreases history.len(),
{
    if history.len() > 0 {
        lemma_none_admitted_prefix(last, cooldown_secs, history, user);
        lemma_entry_kept(last, cooldown_secs, history.drop_last(), user);
        let i = history.len() - 1;
        assert(history.take(i) =~= history.drop_last());
        if history[i].0 == user {
            assert(!admitted_at(last, cooldown_secs, history, i));
        }
    }
}

/// The rate limiter's law over a whole history: once `user` has a request
/// admitted at `t0`, a later request of theirs at `t1` is refused exactly when
/// it falls within the cooldown after `t0`, however many refused requests of
/// theirs and requests of other users came in between; refusals never extend
/// the wait.
pub proof fn lemma_cooldown_over_history(
    last: Map<u64, i128>,
    cooldown_secs: u64,
    user: u64,
    t0: i128,
    history: Seq<(u64, i128)>,
    t1: i128,
)
    requires
        !is_limited(last, cooldown_secs, user, t0),
        none_admitted(record_after(last, cooldown_secs, user, t0), cooldown_secs, history, user),
    ensures
        is_limited(
            record_after_history(record_after(last, cooldown_secs, user, t0), cooldown_secs, history),
            cooldown_secs,
            user,
            t1,
        ) <==> elapsed_nanos(t0, t1) < cooldown_nanos(cooldown_secs),
{
    lemma_entry_kept(record_after(last, cooldown_secs, user, t0), cooldown_secs, history, user);
}

/// A user without an admitted request is never limited: a fresh limiter
/// admits every user's first request, whatever requests of other users and
/// refused requests came before.
pub proof fn lemma_first_request_admitted(
    cooldown_secs: u64,
    history: Seq<(u64, i128)>,
    user: u64,
    t: i128,
)
    requires
        none_admitted(Map::<u64, i128>::empty(), cooldown_secs, history, user),
    ensures
        !is_limited(
            record_after_history(Map::<u64, i128>::empty(), cooldown_secs, history),
            cooldown_secs,
            user,
            t,
        ),
{
    lemma_entry_kept(Map::<u64, i128>::empty(), cooldown_secs, history, user);
}

/// The cooldown lasts exactly `cooldown_secs` seconds, however long that
/// is: a user's request made less than that many seconds after their last
/// admitted request (or on a clock reading earlier than it, when there is a
/// cooldown at all) is refused, and one made that many seconds or more after
/// it is admitted.
pub proof fn lemma_cooldown_is_exact(last: Map<u64, i128>, cooldown_secs: u64, user: u64, now: i128)
    requires
        last.contains_key(user),
    ensures
        last[user] <= now && now - last[user] < cooldown_secs * 1_000_000_000 ==> is_limited(
            last,
            cooldown_secs,
            user,
            now,
        ),
        last[user] <= now && now - last[user] >= cooldown_secs * 1_000_000_000 ==> !is_limited(
            last,
            cooldown_secs,
            user,
            now,
        ),
        now < last[user] ==> (is_limited(last, cooldown_secs, user, now) <==> cooldown_secs > 0),
{
}

/// A refused request is told to wait the whole configured cooldown.
pub proof fn lemma_refusal_reports_cooldown(
    last: Map<u64, i128>,
    cooldown_secs: u64,
    user: u64,
    now: i128,
    res: Result<(), RateLimitError>,
    new_last: Map<u64, i128>,
)
    requires
        check_outcome(last, cooldown_secs, user, now, res, new_last),
        res is Err,
    ensures
        res->Err_0.wait_secs == cooldown_secs,
        new_last == last,
{
}

} // verus!
