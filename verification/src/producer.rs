//! The input producer's bookkeeping: when to stop waiting for a key,
//! which events one round of polling emits, and when the tick clock
//! resets.
//!
//! The producer loop itself blocks on the terminal and so lives with
//! the I/O code; each of its rounds is one call of [`TickClock::produce`]
//! on the key the poll yielded (or none) and the clock reading after
//! the poll. Times are milliseconds on a monotone clock.

use vstd::prelude::*;

use crate::channel::EventQueue;
use crate::events::{Event, Key};

verus! {

/// The fixed tick interval and the time the last tick was emitted.
pub struct TickClock {
    tick_rate_ms: u64,
    last_tick_ms: u64,
}

impl TickClock {
    pub closed spec fn tick_rate(self) -> int {
        self.tick_rate_ms as int
    }

    pub closed spec fn last_tick(self) -> int {
        self.last_tick_ms as int
    }

    /// How long one round may block on the input device: the rest of
    /// the current tick interval, and nothing once it has elapsed, so
    /// a due tick is never delayed by a quiet keyboard.
    pub open spec fn timeout_spec(self, now: int) -> int {
        if now - self.last_tick() >= self.tick_rate() {
            0
        } else {
            self.tick_rate() - (now - self.last_tick())
        }
    }

    /// Whether the current interval has elapsed, so that the round
    /// must emit a tick.
    pub open spec fn tick_due(self, now: int) -> bool {
        now - self.last_tick() >= self.tick_rate()
    }

    /// The events one round emits, in order: the key that arrived, if
    /// one did, then the tick, if one is due. Every key press and every
    /// elapsed interval yields its event; nothing else is emitted.
    pub open spec fn emitted_spec(self, key: Option<Key>, now: int) -> Seq<Event> {
        let from_key: Seq<Event> = match key {
            Some(k) => seq![Event::Input(k)],
            None => Seq::empty(),
        };
        if self.tick_due(now) {
            from_key.push(Event::Tick)
        } else {
            from_key
        }
    }

    pub fn new(tick_rate_ms: u64, now_ms: u64) -> (c: TickClock)
        ensures
            c.tick_rate() == tick_rate_ms,
            c.last_tick() == now_ms,
    {
        TickClock { tick_rate_ms, last_tick_ms: now_ms }
    }

    pub fn tick_rate_ms(&self) -> (r: u64)
        ensures
            r == self.tick_rate(),
    {
        self.tick_rate_ms
    }

    /// When the current interval started, for callers whose clock
    /// readings must not run backwards past it.
    pub fn last_tick_ms(&self) -> (r: u64)
        ensures
            r == self.last_tick(),
    {
        self.last_tick_ms
    }

    /// The timeout to hand the input device for the round starting at
    /// `now_ms`.
    pub fn poll_timeout(&self, now_ms: u64) -> (t: u64)
        requires
            self.last_tick() <= now_ms,
        ensures
            t == self.timeout_spec(now_ms as int),
    {
        let elapsed = now_ms - self.last_tick_ms;
        if elapsed >= self.tick_rate_ms {
            0
        } else {
            self.tick_rate_ms - elapsed
        }
    }

    /// Finish one round of polling: emit the events [`emitted_spec`]
    /// prescribes and restart the interval exactly when a tick was
    /// emitted, so each interval yields one tick however many key
    /// presses interleave.
    pub fn produce(&mut self, key: Option<Key>, now_ms: u64) -> (evs: Vec<Event>)
        requires
            old(self).last_tick() <= now_ms,
        ensures
            evs@ == old(self).emitted_spec(key, now_ms as int),
            final(self).tick_rate() == old(self).tick_rate(),
            final(self).last_tick() == if old(self).tick_due(now_ms as int) {
                now_ms as int
            } else {
                old(self).last_tick()
            },
    {
        let mut evs: Vec<Event> = Vec::new();
        if let Some(k) = key {
            evs.push(Event::Input(k));
        }
        if now_ms - self.last_tick_ms >= self.tick_rate_ms {
            evs.push(Event::Tick);
            self.last_tick_ms = now_ms;
        }
        proof {
            assert(evs@ =~= old(self).emitted_spec(key, now_ms as int));
        }
        evs
    }

    /// One full producer round against the channel: produce the round's
    /// events and send them. The queue afterwards holds what it held
    /// before followed by exactly those events, in order — the producer
    /// never drops, reorders or coalesces an event.
    pub fn pump(&mut self, q: &mut EventQueue, key: Option<Key>, now_ms: u64)
        requires
            old(self).last_tick() <= now_ms,
        ensures
            final(q)@ == old(q)@ + old(self).emitted_spec(key, now_ms as int),
            final(self).tick_rate() == old(self).tick_rate(),
            final(self).last_tick() == if old(self).tick_due(now_ms as int) {
                now_ms as int
            } else {
                old(self).last_tick()
            },
    {
        let evs = self.produce(key, now_ms);
        let n = evs.len();
        let mut i: usize = 0;
        proof {
            assert(q@ =~= old(q)@ + evs@.subrange(0, 0));
        }
        while i < n
            invariant
                i <= n,
                n == evs@.len(),
                q@ == old(q)@ + evs@.subrange(0, i as int),
            decreases n - i,
        {
            q.send(evs[i]);
            proof {
                assert(q@ =~= old(q)@ + evs@.subrange(0, i + 1));
            }
            i = i + 1;
        }
        proof {
            assert(evs@.subrange(0, n as int) =~= evs@);
        }
    }
}

} // verus!
