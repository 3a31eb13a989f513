//! When requests for Detail View Tabs start.

use vstd::prelude::*;

use crate::application::provider::{ProviderRequest, RequestModel};
use crate::text::{opt_view, views};

verus! {

/// How long the selection rests before its Detail View Tab is loaded, in
/// milliseconds.
pub const DETAIL_DISPATCH_QUIET_PERIOD_MILLIS: u64 = 75;

/// Host-owned dispatch timing for Detail View Tab loads, in milliseconds of a
/// clock that only moves forward.
///
/// Application request identity still decides which completion is valid; this
/// queue prevents superseded Provider work from starting in the first place.
#[derive(Debug)]
pub struct DetailDispatchQueue {
    pub quiet_period: u64,
    pub pending: Option<(u64, ProviderRequest)>,
}

/// What a [`DetailDispatchQueue`] holds.
#[verifier::ext_equal]
pub struct QueueModel {
    pub quiet_period: u64,
    pub pending: Option<(u64, RequestModel)>,
}

impl View for DetailDispatchQueue {
    type V = QueueModel;

    open spec fn view(&self) -> QueueModel {
        QueueModel {
            quiet_period: self.quiet_period,
            pending: match self.pending {
                Some((deadline, request)) => Some((deadline, request@)),
                None => None,
            },
        }
    }
}

impl QueueModel {
    /// A request is dispatched at once, unless it loads a Detail View Tab: that
    /// waits, and replaces the one that waited before it.
    pub open spec fn accepted(self, now: u64, request: RequestModel) -> (
        QueueModel,
        Option<RequestModel>,
    ) {
        if request is LoadResourceDetails {
            (
                QueueModel {
                    pending: Some(((now + self.quiet_period) as u64, request)),
                    ..self
                },
                None,
            )
        } else {
            (self, Some(request))
        }
    }

    /// Requests in their order: what waits afterwards, and what is dispatched
    /// at once.
    pub open spec fn all_accepted(self, now: u64, requests: Seq<RequestModel>) -> (
        QueueModel,
        Seq<RequestModel>,
    )
        decreases requests.len(),
    {
        if requests.len() == 0 {
            (self, Seq::empty())
        } else {
            let (queue, immediate) = self.all_accepted(now, requests.drop_last());
            let (queue, request) = queue.accepted(now, requests.last());
            match request {
                Some(request) => (queue, immediate.push(request)),
                None => (queue, immediate),
            }
        }
    }

    /// The request that has waited long enough leaves the queue.
    pub open spec fn ready_taken(self, now: u64) -> (QueueModel, Option<RequestModel>) {
        match self.pending {
            Some((deadline, request)) => if now < deadline {
                (self, None)
            } else {
                (QueueModel { pending: None, ..self }, Some(request))
            },
            None => (self, None),
        }
    }
}

impl DetailDispatchQueue {
    pub fn new(quiet_period: u64) -> (queue: Self)
        ensures
            queue@ == (QueueModel { quiet_period, pending: None }),
    {
        DetailDispatchQueue { quiet_period, pending: None }
    }

    /// Takes a request in, and hands it back if it is to be dispatched at once.
    pub fn accept(&mut self, now: u64, request: ProviderRequest) -> (immediate: Option<
        ProviderRequest,
    >)
        requires
            now + old(self)@.quiet_period <= u64::MAX,
        ensures
            (final(self)@, opt_view(immediate)) == old(self)@.accepted(now, request@),
    {
        let deferred = match &request {
            ProviderRequest::LoadResourceDetails { .. } => true,
            _ => false,
        };
        if deferred {
            self.pending = Some((now + self.quiet_period, request));
            None
        } else {
            Some(request)
        }
    }

    /// Takes requests in, and hands back those that are to be dispatched at
    /// once.
    pub fn accept_all(&mut self, now: u64, requests: Vec<ProviderRequest>) -> (immediate: Vec<
        ProviderRequest,
    >)
        requires
            now + old(self)@.quiet_period <= u64::MAX,
        ensures
            (final(self)@, views(immediate@)) == old(self)@.all_accepted(now, views(requests@)),
    {
        let ghost all = views(requests@);
        let ghost start = self@;
        let mut immediate: Vec<ProviderRequest> = Vec::new();
        assert(views(immediate@) =~= Seq::<RequestModel>::empty());
        assert(all.take(0).len() == 0);
        for request in iter: requests
            invariant
                views(iter.seq()) == all,
                now + self@.quiet_period <= u64::MAX,
                self@.quiet_period == start.quiet_period,
                (self@, views(immediate@)) == start.all_accepted(now, all.take(iter.index())),
        {
            proof {
                let i = iter.index();
                assert(all[i] == request@);
                assert(all.take(i + 1).drop_last() =~= all.take(i));
                assert(all.take(i + 1).last() == request@);
            }
            match self.accept(now, request) {
                Some(request) => {
                    let ghost before = immediate@;
                    immediate.push(request);
                    assert(views(immediate@) =~= views(before).push(request@));
                },
                None => {},
            }
        }
        assert(all.take(all.len() as int) =~= all);
        immediate
    }

    /// When the request that waits has waited long enough.
    pub fn deadline(&self) -> (deadline: Option<u64>)
        ensures
            deadline == (match self@.pending {
                Some((deadline, _)) => Some(deadline),
                None => None,
            }),
    {
        match &self.pending {
            Some((deadline, _)) => Some(*deadline),
            None => None,
        }
    }

    /// Takes out the request that has waited long enough.
    pub fn take_ready(&mut self, now: u64) -> (ready: Option<ProviderRequest>)
        ensures
            (final(self)@, opt_view(ready)) == old(self)@.ready_taken(now),
    {
        match &self.pending {
            Some((deadline, _)) => {
                if now < *deadline {
                    return None;
                }
            },
            None => return None,
        }
        match self.pending.take() {
            Some((_, request)) => Some(request),
            None => None,
        }
    }
}

/// Only the last Detail View Tab of a burst is loaded, once the quiet period
/// has passed since it was asked for.
pub proof fn law_only_the_last_detail_view_of_a_burst_loads(
    queue: QueueModel,
    earlier: u64,
    first: RequestModel,
    later: u64,
    last: RequestModel,
    now: u64,
)
    requires
        first is LoadResourceDetails,
        last is LoadResourceDetails,
        earlier <= later,
        later + queue.quiet_period <= u64::MAX,
    ensures
        ({
            let waiting = queue.accepted(earlier, first).0.accepted(later, last).0;
            if now < later + queue.quiet_period {
                waiting.ready_taken(now) == (waiting, None::<RequestModel>)
            } else {
                waiting.ready_taken(now) == (
                    QueueModel { pending: None, ..queue },
                    Some(last),
                )
            }
        }),
{
}

/// Requests that load no Detail View Tab are never held back and disturb
/// nothing that waits.
pub proof fn law_other_requests_are_immediate(queue: QueueModel, now: u64, request: RequestModel)
    requires
        !(request is LoadResourceDetails),
    ensures
        queue.accepted(now, request) == (queue, Some(request)),
{
}

} // verus!
