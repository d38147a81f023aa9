//! The periodic blog task's decisions: persist a successful run, skip a
//! failed one without stopping, keep the tally, and never let two ticks
//! overlap. The timer itself runs outside.

use vstd::prelude::*;
use crate::pipeline::PipelineError;
use crate::post::BlogPost;
use crate::store::BlogStore;
use crate::store::save_blog_post;
use crate::store::stored_post;

verus! {

/// The periodic task's bookkeeping.
pub struct Scheduler {
    /// Whether a tick is running now.
    pub running: bool,
    /// Ticks that produced and persisted a post.
    pub saved: u64,
    /// Ticks that failed and were skipped.
    pub failed: u64,
}

impl Scheduler {
    /// Nothing has run yet.
    pub fn new() -> (r: Scheduler)
        ensures
            !r.running,
            r.saved == 0,
            r.failed == 0,
    {
        Scheduler { running: false, saved: 0, failed: 0 }
    }

    /// Claims the tick. True means no tick was running and this one may go;
    /// false means the previous tick still runs and this one is skipped.
    pub fn begin_tick(&mut self) -> (r: bool)
        ensures
            r == !old(self).running,
            final(self).running,
            final(self).saved == old(self).saved,
            final(self).failed == old(self).failed,
    {
        let free = !self.running;
        self.running = true;
        free
    }

    /// Ends the running tick, counting whether it persisted a post. A failed
    /// tick only adds to the tally: the task goes on to the next tick.
    pub fn end_tick(&mut self, persisted: bool)
        requires
            old(self).saved < u64::MAX,
            old(self).failed < u64::MAX,
        ensures
            !final(self).running,
            final(self).saved == old(self).saved + if persisted {
                1int
            } else {
                0int
            },
            final(self).failed == old(self).failed + if persisted {
                0int
            } else {
                1int
            },
    {
        self.running = false;
        if persisted {
            self.saved = self.saved + 1;
        } else {
            self.failed = self.failed + 1;
        }
    }
}

/// One tick's persistence decision: a produced post is saved under the next
/// id; a failed run persists nothing at all.
pub fn persist_outcome(store: &mut BlogStore, outcome: Result<BlogPost, PipelineError>) -> (r:
    Option<i64>)
    requires
        old(store).wf(),
        old(store)@.len() + 1 < 0x7fffffffffffffff,
    ensures
        final(store).wf(),
        match outcome {
            Ok(p) => {
                &&& r == Some((old(store)@.len() + 1) as i64)
                &&& final(store)@ == old(store)@.push(
                    stored_post(p, (old(store)@.len() + 1) as i64),
                )
            },
            Err(_) => r is None && final(store)@ == old(store)@,
        },
{
    match outcome {
        Ok(p) => Some(save_blog_post(store, &p)),
        Err(_) => None,
    }
}

/// The tick interval in seconds for a configured number of minutes.
pub fn interval_secs(minutes: u64) -> (r: u64)
    requires
        minutes <= 0xffffffffffffffffu64 / 60,
    ensures
        r == minutes * 60,
{
    minutes * 60
}

} // verus!
