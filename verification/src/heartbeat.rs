//! The heartbeat driver: runs for the lifetime of a connection and
//! emits a liveness frame every fixed interval, independent of inbound
//! cadence. It never reads the inbound stream; acknowledgement frames
//! are consumed by the reconciler as a no-op.
//!
//! The driver is a state machine over simulated or real clock readings:
//! the caller reports the current time and sends one heartbeat frame per
//! emission the driver returns. Across a lifetime of duration `d` with
//! interval `i`, starting at time 0 and first firing at `i`, it emits
//! exactly `d / i` (floor) frames, and none once stopped.

use vstd::prelude::*;
use vstd::arithmetic::div_mod::lemma_fundamental_div_mod_converse;

verus! {

/// The heartbeat cadence of this client, in milliseconds.
pub const HEARTBEAT_INTERVAL_MS: u64 = 60000;

/// Lifecycle of the driver: `Running` is entered as soon as a transport
/// session is established, `Stopped` when the session closes or a send
/// fails; a stopped driver never emits again.
#[derive(Debug, Clone, Copy, PartialEq, Eq, Structural)]
pub enum HeartbeatPhase {
    Idle,
    Running,
    Stopped,
}

/// The heartbeat driver's state. The next emission is always due at
/// `(emitted + 1) * interval`: the first fire is at `interval`, not at
/// time zero.
#[derive(Debug)]
pub struct HeartbeatDriver {
    phase: HeartbeatPhase,
    interval: u64,
    next_due: u64,
    emitted: u64,
}

impl HeartbeatDriver {
    #[verifier::type_invariant]
    closed spec fn inv(&self) -> bool {
        &&& self.interval > 0
        &&& self.next_due == (self.emitted + 1) * self.interval
    }

    pub closed spec fn spec_phase(&self) -> HeartbeatPhase {
        self.phase
    }

    pub closed spec fn spec_interval(&self) -> u64 {
        self.interval
    }

    /// How many heartbeat frames have been emitted so far.
    pub closed spec fn spec_emitted(&self) -> u64 {
        self.emitted
    }

    /// A fresh driver, not yet running, that will first fire at
    /// `interval` once started.
    pub fn new(interval: u64) -> (d: Self)
        requires
            0 < interval <= u64::MAX / 2,
        ensures
            d.spec_phase() == HeartbeatPhase::Idle,
            d.spec_interval() == interval,
            d.spec_emitted() == 0,
    {
        proof {
            assert((0 + 1) * interval == interval) by (nonlinear_arith);
        }
        HeartbeatDriver { phase: HeartbeatPhase::Idle, interval, next_due: interval, emitted: 0 }
    }

    /// Enters `Running`; called right after the transport session is
    /// established.
    pub fn start(&mut self)
        ensures
            final(self).spec_phase() == HeartbeatPhase::Running,
            final(self).spec_interval() == old(self).spec_interval(),
            final(self).spec_emitted() == old(self).spec_emitted(),
    {
        proof {
            use_type_invariant(&*self);
        }
        self.phase = HeartbeatPhase::Running;
    }

    /// Enters `Stopped`: the session closed or a send failed. The
    /// driver does not retry or reconnect.
    pub fn stop(&mut self)
        ensures
            final(self).spec_phase() == HeartbeatPhase::Stopped,
            final(self).spec_interval() == old(self).spec_interval(),
            final(self).spec_emitted() == old(self).spec_emitted(),
    {
        proof {
            use_type_invariant(&*self);
        }
        self.phase = HeartbeatPhase::Stopped;
    }

    pub fn is_running(&self) -> (b: bool)
        ensures
            b == (self.spec_phase() == HeartbeatPhase::Running),
    {
        matches!(self.phase, HeartbeatPhase::Running)
    }

    /// Emits every heartbeat due by time `now`, returning how many
    /// frames the caller must send. While running and driven with a
    /// monotone clock started at 0, the total emitted after this call
    /// is exactly `now / interval`, the first fire being at `interval`;
    /// a driver that is not running emits nothing and is unchanged.
    #[verifier::loop_isolation(false)]
    pub fn catch_up(&mut self, now: u64) -> (n: u64)
        requires
            now <= u64::MAX - old(self).spec_interval(),
            old(self).spec_phase() == HeartbeatPhase::Running
                ==> old(self).spec_emitted() * old(self).spec_interval() <= now,
        ensures
            final(self).spec_interval() == old(self).spec_interval(),
            final(self).spec_phase() == old(self).spec_phase(),
            old(self).spec_phase() == HeartbeatPhase::Running ==> {
                &&& final(self).spec_emitted() == now as int / old(self).spec_interval() as int
                &&& n == final(self).spec_emitted() - old(self).spec_emitted()
            },
            old(self).spec_phase() != HeartbeatPhase::Running ==> n == 0 && *final(self) == *old(self),
    {
        proof {
            use_type_invariant(&*self);
        }
        if !matches!(self.phase, HeartbeatPhase::Running) {
            return 0;
        }
        let ghost e0 = self.emitted;
        let mut n: u64 = 0;
        while self.next_due <= now
            invariant
                self.phase == HeartbeatPhase::Running,
                self.interval == old(self).spec_interval(),
                self.next_due == (self.emitted + 1) * self.interval,
                self.emitted * self.interval <= now,
                n == self.emitted - e0,
                e0 <= self.emitted,
            decreases now + self.interval - self.next_due,
        {
            proof {
                assert((self.emitted + 1) <= (self.emitted + 1) * self.interval) by (nonlinear_arith)
                    requires self.interval >= 1,
                ;
                assert(((self.emitted + 1) + 1) * self.interval == (self.emitted + 1) * self.interval
                    + self.interval) by (nonlinear_arith);
            }
            *self = HeartbeatDriver {
                phase: HeartbeatPhase::Running,
                interval: self.interval,
                next_due: self.next_due + self.interval,
                emitted: self.emitted + 1,
            };
            n = n + 1;
        }
        proof {
            let i = self.interval as int;
            let e = self.emitted as int;
            assert((e + 1) * i == e * i + i) by (nonlinear_arith);
            lemma_fundamental_div_mod_converse(now as int, i, e, now as int - e * i);
        }
        n
    }
}

} // verus!
