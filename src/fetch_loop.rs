use vstd::prelude::*;
use crate::feeds::{FeedData, FeedMessage};

verus! {

/// Where a panel's fetch loop stands: waiting on a fetch, or sleeping
/// until the next one.
#[derive(Debug, Clone, Copy, PartialEq, Eq, Structural)]
pub enum LoopPhase {
    Fetching,
    Sleeping,
}

/// What the loop's driver does next.
#[derive(Debug)]
pub enum LoopAction {
    /// Start one fetch.
    Fetch,
    /// Send the message to the dashboard, then sleep for `sleep_secs`.
    Deliver { message: FeedMessage, sleep_secs: u64 },
}

/// The decisions of one panel's fetch loop: fetch, deliver the outcome,
/// sleep one refresh interval, fetch again, for as long as the process runs.
#[derive(Debug)]
pub struct FetchLoop {
    pub panel_id: String,
    pub interval_secs: u64,
    pub phase: LoopPhase,
}

/// The text an error snapshot carries: the failure's own text, or
/// "fetch failed" when that is empty.
pub open spec fn error_text(e: Seq<char>) -> Seq<char> {
    if e.len() == 0 { "fetch failed"@ } else { e }
}

/// `data` is the snapshot that a fetch outcome becomes: the fetched data,
/// or an error carrying `error_text` of the failure.
pub open spec fn snapshot_of(outcome: Result<FeedData, String>, data: FeedData) -> bool {
    match outcome {
        Ok(d) => data == d,
        Err(e) => data matches FeedData::Error(t) && t@ == error_text(e@),
    }
}

impl FetchLoop {
    /// A loop for the panel `panel_id`, about to make its first fetch.
    pub fn new(panel_id: String, interval_secs: u64) -> (r: Self)
        ensures
            r.panel_id == panel_id,
            r.interval_secs == interval_secs,
            r.phase == LoopPhase::Fetching,
    {
        FetchLoop { panel_id, interval_secs, phase: LoopPhase::Fetching }
    }

    /// A fetch came back. Success or failure, its outcome goes to the
    /// dashboard as a snapshot for this panel (a failure as an error with a
    /// non-empty text), and the loop sleeps exactly one refresh interval.
    pub fn on_fetched(&mut self, outcome: Result<FeedData, String>) -> (r: LoopAction)
        requires
            old(self).phase == LoopPhase::Fetching,
        ensures
            final(self).phase == LoopPhase::Sleeping,
            final(self).panel_id == old(self).panel_id,
            final(self).interval_secs == old(self).interval_secs,
            r matches LoopAction::Deliver { message, sleep_secs } && {
                &&& message.widget_id == old(self).panel_id
                &&& snapshot_of(outcome, message.data)
                &&& sleep_secs == old(self).interval_secs
            },
            outcome is Err ==> (r matches LoopAction::Deliver { message, .. } && (message.data matches FeedData::Error(e) && e@.len() > 0)),
    {
        let data = match outcome {
            Ok(d) => d,
            Err(e) => {
                if e.as_str().unicode_len() == 0 {
                    proof {
                        reveal_strlit("fetch failed");
                    }
                    FeedData::Error(String::from_str("fetch failed"))
                } else {
                    FeedData::Error(e)
                }
            },
        };
        self.phase = LoopPhase::Sleeping;
        LoopAction::Deliver {
            message: FeedMessage { widget_id: self.panel_id.clone(), data },
            sleep_secs: self.interval_secs,
        }
    }

    /// The sleep is over: the loop fetches again.
    pub fn on_woke(&mut self) -> (r: LoopAction)
        requires
            old(self).phase == LoopPhase::Sleeping,
        ensures
            final(self).phase == LoopPhase::Fetching,
            final(self).panel_id == old(self).panel_id,
            final(self).interval_secs == old(self).interval_secs,
            r is Fetch,
    {
        self.phase = LoopPhase::Fetching;
        LoopAction::Fetch
    }
}

} // verus!
