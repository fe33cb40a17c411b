//! A fail-fast latch for the four concurrent fetches of the home view: the
//! outcomes are recorded in the order they complete; the first failure ends
//! the join, and the view is built only once all four have succeeded.
use vstd::prelude::*;
use crate::error::{ClientError, as_aggregate_error, reason_view};
use crate::query::{MoviesHome, Paginated, Resource};
use crate::status::{Status, status_line_of};

verus! {

/// What the join does after an outcome was recorded.
pub enum GatherStep<T> {
    /// Some fetch is still outstanding.
    Waiting,
    /// All four succeeded: the home view.
    Complete(MoviesHome<T>),
    /// A fetch failed: the one error reported for the whole join.
    Failed(ClientError),
}

/// The outcomes recorded so far of the four fetches of the home view.
pub struct HomeGather<T> {
    now_playing: Option<Vec<T>>,
    popular: Option<Vec<T>>,
    top_rated: Option<Vec<T>>,
    upcoming: Option<Vec<T>>,
    done: bool,
}

/// The items of a recorded page, if any.
pub open spec fn slot_view<T>(s: Option<Vec<T>>) -> Option<Seq<T>> {
    match s {
        Some(v) => Some(v@),
        None => None,
    }
}

impl<T> HomeGather<T> {
    /// The items recorded for `resource`, if its fetch has succeeded.
    pub closed spec fn slot(&self, resource: Resource) -> Option<Seq<T>> {
        match resource {
            Resource::NowPlaying => slot_view(self.now_playing),
            Resource::Popular => slot_view(self.popular),
            Resource::TopRated => slot_view(self.top_rated),
            Resource::Upcoming => slot_view(self.upcoming),
        }
    }

    /// Whether the join has ended, by a failure or with the full view.
    pub closed spec fn finished(&self) -> bool {
        self.done
    }

    /// The slots once `items` are recorded for `resource`.
    pub open spec fn slot_after(&self, resource: Resource, items: Seq<T>, x: Resource) -> Option<
        Seq<T>,
    > {
        if x == resource {
            Some(items)
        } else {
            self.slot(x)
        }
    }

    /// Whether recording `items` for `resource` completes all four.
    pub open spec fn completes(&self, resource: Resource, items: Seq<T>) -> bool {
        self.slot_after(resource, items, Resource::NowPlaying) is Some && self.slot_after(
            resource,
            items,
            Resource::Popular,
        ) is Some && self.slot_after(resource, items, Resource::TopRated) is Some
            && self.slot_after(resource, items, Resource::Upcoming) is Some
    }

    /// A join with nothing recorded.
    pub fn new() -> (r: HomeGather<T>)
        ensures
            !r.finished(),
            forall|x: Resource| #[trigger] r.slot(x) is None,
    {
        HomeGather { now_playing: None, popular: None, top_rated: None, upcoming: None, done: false }
    }

    /// Whether the join has ended.
    pub fn is_finished(&self) -> (r: bool)
        ensures
            r == self.finished(),
    {
        self.done
    }

    /// Whether an outcome of `resource` has been recorded.
    pub fn has_recorded(&self, resource: Resource) -> (r: bool)
        ensures
            r == self.slot(resource) is Some,
    {
        match resource {
            Resource::NowPlaying => self.now_playing.is_some(),
            Resource::Popular => self.popular.is_some(),
            Resource::TopRated => self.top_rated.is_some(),
            Resource::Upcoming => self.upcoming.is_some(),
        }
    }

    /// Records the outcome of `resource`'s fetch. A failure ends the join
    /// with its message and reason under status 500; the success that completes the
    /// four hands out the view; any other success waits for the rest.
    pub fn record(&mut self, resource: Resource, outcome: Result<Paginated<T>, ClientError>) -> (r:
        GatherStep<T>)
        requires
            !old(self).finished(),
            old(self).slot(resource) is None,
        ensures
            outcome matches Err(e) ==> (r matches GatherStep::Failed(c) && c.message@ == e.message@
                && c.code == 500 && c.status@ == status_line_of(500) && reason_view(c.reason)
                == reason_view(e.reason) && final(self).finished()),
            outcome matches Ok(p) ==> {
                let items = p.results@;
                if old(self).completes(resource, items) {
                    &&& final(self).finished()
                    &&& r matches GatherStep::Complete(h)
                    &&& Some(h.now_playing@) == old(self).slot_after(resource, items, Resource::NowPlaying)
                    &&& Some(h.popular@) == old(self).slot_after(resource, items, Resource::Popular)
                    &&& Some(h.top_rated@) == old(self).slot_after(resource, items, Resource::TopRated)
                    &&& Some(h.upcoming@) == old(self).slot_after(resource, items, Resource::Upcoming)
                } else {
                    &&& !final(self).finished()
                    &&& r is Waiting
                    &&& forall|x: Resource| #[trigger] final(self).slot(x) == old(self).slot_after(resource, items, x)
                }
            },
    {
        let page = match outcome {
            Ok(p) => p,
            Err(e) => {
                self.done = true;
                return GatherStep::Failed(as_aggregate_error(e, &Status::internal_server_error()));
            },
        };
        match resource {
            Resource::NowPlaying => self.now_playing = Some(page.results),
            Resource::Popular => self.popular = Some(page.results),
            Resource::TopRated => self.top_rated = Some(page.results),
            Resource::Upcoming => self.upcoming = Some(page.results),
        }
        assert(forall|x: Resource| #[trigger] self.slot(x) == old(self).slot_after(resource, page.results@, x));
        if self.now_playing.is_some() && self.popular.is_some() && self.top_rated.is_some()
            && self.upcoming.is_some() {
            self.done = true;
            let now_playing = self.now_playing.take().unwrap();
            let popular = self.popular.take().unwrap();
            let top_rated = self.top_rated.take().unwrap();
            let upcoming = self.upcoming.take().unwrap();
            GatherStep::Complete(MoviesHome { now_playing, popular, top_rated, upcoming })
        } else {
            GatherStep::Waiting
        }
    }
}

} // verus!
