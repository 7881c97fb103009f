use vstd::prelude::*;

verus! {

/// A gap between webhook deliveries below this, in milliseconds, requests
/// pull delivery.
pub const SWITCH_GAP_MS: u64 = 5000;

/// Shared state of the webhook ingress: when the previous delivery came, in
/// milliseconds since the Unix epoch.
pub struct AppState {
    pub prev_query_time: u64,
}

impl AppState {
    /// Records a delivery at `now_ms`. Returns whether a switch to pull delivery
    /// is to be requested: when the gap since the previous delivery is below
    /// `SWITCH_GAP_MS`. A time earlier than the recorded one is ignored.
    pub fn record_delivery(&mut self, now_ms: u64) -> (switch_to_pull: bool)
        ensures
            now_ms >= old(self).prev_query_time ==> final(self).prev_query_time == now_ms
                && switch_to_pull == (now_ms - old(self).prev_query_time < SWITCH_GAP_MS),
            now_ms < old(self).prev_query_time ==> final(self).prev_query_time
                == old(self).prev_query_time && !switch_to_pull,
    {
        if now_ms < self.prev_query_time {
            return false;
        }
        let gap = now_ms - self.prev_query_time;
        self.prev_query_time = now_ms;
        gap < SWITCH_GAP_MS
    }
}

} // verus!
