//! The rate limiter: failed attempts per address, and the bans they lead to.
//!
//! Time is a number of seconds that the caller supplies with every call; the
//! limiter never reads a clock.

use vstd::prelude::*;
use crate::client::IpAddress;

verus! {

/// How many failures are tolerated, in which window, and how long a ban lasts.
#[derive(Clone, Copy, Debug, PartialEq, Eq, Structural)]
pub struct RateLimitConfig {
    /// An address is banned when its failures within one window exceed this.
    pub max_failures: u32,
    /// The length of the counting window, in seconds.
    pub window: u64,
    /// The length of a ban, in seconds.
    pub ban_duration: u64,
}

/// What the limiter remembers of one address.
#[derive(Clone, Copy, Debug, PartialEq, Eq, Structural)]
pub struct FailureRecord {
    /// The failures counted since `window_start`.
    pub failures: u32,
    /// When the current counting window began.
    pub window_start: u64,
    /// The address is banned at every time before this one.
    pub banned_until: u64,
}

/// The sum of two times, held at the largest time when it does not fit.
pub open spec fn time_after(now: u64, duration: u64) -> u64 {
    if now + duration > u64::MAX {
        u64::MAX
    } else {
        (now + duration) as u64
    }
}

/// `n + 1`, held at the largest count when it does not fit.
pub open spec fn one_more(n: u32) -> u32 {
    if n == u32::MAX {
        n
    } else {
        (n + 1) as u32
    }
}

impl FailureRecord {
    /// Whether the counting window of the record is still open at `now`.
    pub open spec fn window_open(self, config: RateLimitConfig, now: u64) -> bool {
        self.window_start <= now && now - self.window_start < config.window
    }

    /// The failures of the record that still count at `now`.
    pub open spec fn counted(self, config: RateLimitConfig, now: u64) -> u32 {
        if self.window_open(config, now) {
            self.failures
        } else {
            0
        }
    }

    /// Whether the record bans its address at `now`.
    pub open spec fn bans(self, now: u64) -> bool {
        now < self.banned_until
    }
}

/// The failures of an address that count at `now`: none for an address
/// without a record.
pub open spec fn counted_failures(
    record: Option<FailureRecord>,
    config: RateLimitConfig,
    now: u64,
) -> u32 {
    match record {
        Some(r) => r.counted(config, now),
        None => 0,
    }
}

/// The record of an address after one more failure at `now`. A window that
/// has run out starts again at `now` with a count of zero. The failure is
/// then added, and a count above the limit bans the address for the
/// configured duration, starting at `now`.
pub open spec fn after_failure(
    record: Option<FailureRecord>,
    config: RateLimitConfig,
    now: u64,
) -> FailureRecord {
    let failures = one_more(counted_failures(record, config, now));
    let window_start = match record {
        Some(r) => if r.window_open(config, now) {
            r.window_start
        } else {
            now
        },
        None => now,
    };
    let banned_until = if failures > config.max_failures {
        time_after(now, config.ban_duration)
    } else {
        match record {
            Some(r) => r.banned_until,
            None => 0,
        }
    };
    FailureRecord { failures, window_start, banned_until }
}

/// One address with its record.
#[derive(Clone, Copy, Debug)]
struct Slot {
    address: IpAddress,
    record: FailureRecord,
}

/// Whether `slots` holds `address`.
spec fn holds(slots: Seq<Slot>, address: IpAddress) -> bool {
    exists|i: int| 0 <= i < slots.len() && #[trigger] slots[i].address == address
}

/// A position of `address` in `slots`.
spec fn place(slots: Seq<Slot>, address: IpAddress) -> int {
    choose|i: int| 0 <= i < slots.len() && #[trigger] slots[i].address == address
}

/// No address occurs twice in `slots`.
spec fn distinct(slots: Seq<Slot>) -> bool {
    forall|i: int, j: int|
        0 <= i < slots.len() && 0 <= j < slots.len() && #[trigger] slots[i].address
            == #[trigger] slots[j].address ==> i == j
}

/// The records of `slots`, by address.
spec fn records_of(slots: Seq<Slot>) -> Map<IpAddress, FailureRecord> {
    Map::new(|a: IpAddress| holds(slots, a), |a: IpAddress| slots[place(slots, a)].record)
}

/// The failure records of all addresses, behind one owner.
pub struct RateLimiter {
    config: RateLimitConfig,
    slots: Vec<Slot>,
}

impl View for RateLimiter {
    type V = Map<IpAddress, FailureRecord>;

    /// The record of every address that has one.
    closed spec fn view(&self) -> Map<IpAddress, FailureRecord> {
        records_of(self.slots@)
    }
}

impl RateLimiter {
    /// No address has two records.
    pub closed spec fn wf(&self) -> bool {
        distinct(self.slots@)
    }

    /// The configuration that the limiter was made with.
    pub closed spec fn config(&self) -> RateLimitConfig {
        self.config
    }

    /// Whether `address` is banned at `now`.
    pub open spec fn banned(&self, address: IpAddress, now: u64) -> bool {
        self@.contains_key(address) && self@[address].bans(now)
    }

    /// The failures of `address` that count at `now`.
    pub open spec fn failures(&self, address: IpAddress, now: u64) -> u32 {
        counted_failures(self.record(address), self.config(), now)
    }

    /// The record of `address`, if it has one.
    pub open spec fn record(&self, address: IpAddress) -> Option<FailureRecord> {
        if self@.contains_key(address) {
            Some(self@[address])
        } else {
            None
        }
    }

    /// A limiter that has seen no failure.
    pub fn new(config: RateLimitConfig) -> (limiter: RateLimiter)
        ensures
            limiter.wf(),
            limiter.config() == config,
            limiter@ == Map::<IpAddress, FailureRecord>::empty(),
    {
        let limiter = RateLimiter { config, slots: Vec::new() };
        assert(limiter@ =~= Map::<IpAddress, FailureRecord>::empty());
        limiter
    }

    /// The position of `address` among the slots.
    fn position(&self, address: IpAddress) -> (r: Option<usize>)
        requires
            self.wf(),
        ensures
            match r {
                Some(i) => i < self.slots@.len() && self.slots@[i as int].address == address
                    && self@.contains_key(address) && self@[address] == self.slots@[i as int].record,
                None => !self@.contains_key(address),
            },
    {
        let mut i: usize = 0;
        while i < self.slots.len()
            invariant
                self.wf(),
                i <= self.slots@.len(),
                forall|k: int| 0 <= k < i ==> self.slots@[k].address != address,
            decreases self.slots@.len() - i,
        {
            if self.slots[i].address == address {
                assert(holds(self.slots@, address));
                assert(place(self.slots@, address) == i);
                return Some(i);
            }
            i += 1;
        }
        None
    }

    /// Whether `address` is banned at `now`.
    pub fn is_banned(&self, address: IpAddress, now: u64) -> (r: bool)
        requires
            self.wf(),
        ensures
            r == self.banned(address, now),
    {
        match self.position(address) {
            Some(i) => now < self.slots[i].record.banned_until,
            None => false,
        }
    }

    /// The failures of `address` that count at `now`.
    pub fn failure_count(&self, address: IpAddress, now: u64) -> (n: u32)
        requires
            self.wf(),
        ensures
            n == self.failures(address, now),
    {
        match self.position(address) {
            Some(i) => {
                let r = self.slots[i].record;
                if r.window_start <= now && now - r.window_start < self.config.window {
                    r.failures
                } else {
                    0
                }
            },
            None => 0,
        }
    }

    /// Counts one failed attempt of `address` at `now`. The records of all
    /// other addresses stay as they are.
    pub fn record_failure(&mut self, address: IpAddress, now: u64)
        requires
            old(self).wf(),
        ensures
            final(self).wf(),
            final(self).config() == old(self).config(),
            final(self)@ == old(self)@.insert(
                address,
                after_failure(old(self).record(address), old(self).config(), now),
            ),
    {
        let found = self.position(address);
        let previous = match found {
            Some(i) => Some(self.slots[i].record),
            None => None,
        };
        let next = next_record(previous, self.config, now);
        let ghost before = self.slots@;
        match found {
            Some(i) => {
                self.slots.set(i, Slot { address, record: next });
                proof {
                    let after = self.slots@;
                    assert forall|a: IpAddress| holds(after, a) == holds(before, a) by {
                        if holds(before, a) {
                            let k = place(before, a);
                            assert(after[k].address == a);
                        }
                        if holds(after, a) {
                            let k = place(after, a);
                            assert(before[k].address == a);
                        }
                    }
                    assert forall|a: IpAddress| holds(after, a) implies records_of(after)[a] == (
                    if a == address {
                        next
                    } else {
                        records_of(before)[a]
                    }) by {
                        let k = place(after, a);
                        let kb = place(before, a);
                        assert(before[k].address == a);
                        assert(k == kb);
                    }
                    assert(records_of(after) =~= records_of(before).insert(address, next));
                }
            },
            None => {
                self.slots.push(Slot { address, record: next });
                proof {
                    let after = self.slots@;
                    let last = before.len() as int;
                    assert(after[last].address == address);
                    assert forall|a: IpAddress| holds(after, a) == (a == address || holds(
                        before,
                        a,
                    )) by {
                        if holds(before, a) {
                            let k = place(before, a);
                            assert(after[k].address == a);
                        }
                        if holds(after, a) {
                            let k = place(after, a);
                            if k < last {
                                assert(before[k].address == a);
                            }
                        }
                    }
                    assert forall|a: IpAddress| holds(after, a) implies records_of(after)[a] == (
                    if a == address {
                        next
                    } else {
                        records_of(before)[a]
                    }) by {
                        let k = place(after, a);
                        if a != address {
                            let kb = place(before, a);
                            assert(after[kb].address == a);
                            assert(k == kb);
                        } else {
                            assert(k == last);
                        }
                    }
                    assert(records_of(after) =~= records_of(before).insert(address, next));
                }
            },
        }
    }
}

/// Computes the record of an address after one more failure.
fn next_record(record: Option<FailureRecord>, config: RateLimitConfig, now: u64) -> (r:
    FailureRecord)
    ensures
        r == after_failure(record, config, now),
{
    let (counted, window_start, banned_until) = match record {
        Some(r) => if r.window_start <= now && now - r.window_start < config.window {
            (r.failures, r.window_start, r.banned_until)
        } else {
            (0u32, now, r.banned_until)
        },
        None => (0u32, now, 0u64),
    };
    let failures = if counted == u32::MAX {
        counted
    } else {
        counted + 1
    };
    let banned_until = if failures > config.max_failures {
        if now > u64::MAX - config.ban_duration {
            u64::MAX
        } else {
            now + config.ban_duration
        }
    } else {
        banned_until
    };
    FailureRecord { failures, window_start, banned_until }
}

} // verus!
