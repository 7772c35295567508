//! The state of the lookup that runs beside the player.
//!
//! One lookup is in flight per loaded video.  The lookup itself waits on the
//! network and is run by the caller; this module decides what its result may
//! change.  Every load gets a generation number, and a result is taken only
//! from the load that is current, so a result that arrives late can never
//! replace the segments of the video that plays now.

use vstd::prelude::*;
use crate::category::Category;
use crate::cache::{kept, CacheView, ResultCache};
use crate::config::Config;
use crate::lookup::{fetch, outcome_view, request_address, Fetch, LookupError};
use crate::utils::found_in;
use crate::segment::{Segment, Segments};
use crate::sorted::{at_most, split, starting_from, upcoming, SortedSegments, SortedView};

verus! {

/// What is known of the segments of the video that plays.
#[derive(Debug)]
pub enum WorkerState {
    /// Nothing: no video, no segments, a failed or a cancelled lookup.
    Absent,
    /// A lookup is in flight.
    Pending,
    /// The lookup ended and found these segments.
    Ready(SortedSegments),
}

/// What is known of the segments, as a mathematical value.
pub enum StateView {
    Absent,
    Pending,
    Ready(SortedView),
}

/// A worker as a mathematical value.
pub struct WorkerView {
    pub state: StateView,
    pub generation: u64,
}

/// The generation that follows `generation`.
pub open spec fn next_generation(generation: u64) -> u64 {
    if generation == u64::MAX {
        0
    } else {
        (generation + 1) as u64
    }
}

impl WorkerView {
    /// The worker after a new load has started.
    pub open spec fn started(self) -> WorkerView {
        WorkerView { state: StateView::Pending, generation: next_generation(self.generation) }
    }

    /// The worker after the load was cancelled.
    pub open spec fn stopped(self) -> WorkerView {
        WorkerView { state: StateView::Absent, generation: self.generation }
    }

    /// Whether a result of the load `generation` is still wanted.
    pub open spec fn accepts(self, generation: u64) -> bool {
        self.generation == generation && self.state is Pending
    }

    /// The worker after the load `generation` has handed in its result.  A
    /// result that is not wanted changes nothing, nor does a lookup that says
    /// it was cancelled.  Segments make the worker ready; no segments and
    /// every error leave it without.
    pub open spec fn published(
        self,
        generation: u64,
        outcome: Result<Seq<Segment>, LookupError>,
    ) -> WorkerView {
        if !self.accepts(generation) {
            self
        } else {
            match outcome {
                Ok(segments) => if segments.len() > 0 {
                    WorkerView { state: StateView::Ready(split(segments)), ..self }
                } else {
                    WorkerView { state: StateView::Absent, ..self }
                },
                Err(LookupError::Cancelled) => self,
                Err(_) => WorkerView { state: StateView::Absent, ..self },
            }
        }
    }

    /// Whether the worker holds segments.
    pub open spec fn fetched(self) -> bool {
        self.state is Ready
    }

    /// The segment to skip at `time`, if segments are there and one matches.
    pub open spec fn skip_at(self, time: int) -> Option<Segment> {
        match self.state {
            StateView::Ready(sorted) => sorted.skip_at(time),
            _ => None,
        }
    }

    /// The segment to mute at `time`, if segments are there and one matches.
    pub open spec fn mute_at(self, time: int) -> Option<Segment> {
        match self.state {
            StateView::Ready(sorted) => sorted.mute_at(time),
            _ => None,
        }
    }

    /// The skip segments, if segments are there.
    pub open spec fn skippable(self) -> Seq<Segment> {
        match self.state {
            StateView::Ready(sorted) => sorted.skippable,
            _ => Seq::empty(),
        }
    }

    /// The mute segments, if segments are there.
    pub open spec fn mutable(self) -> Seq<Segment> {
        match self.state {
            StateView::Ready(sorted) => sorted.mutable,
            _ => Seq::empty(),
        }
    }

    /// The time of the highlight, if segments are there and hold one.
    pub open spec fn highlight(self) -> Option<i64> {
        match self.state {
            StateView::Ready(sorted) => sorted.highlight(),
            _ => None,
        }
    }

    /// The category of the whole video, if segments are there and hold one.
    pub open spec fn label(self) -> Option<Category> {
        match self.state {
            StateView::Ready(sorted) => sorted.label(),
            _ => None,
        }
    }
}

impl View for WorkerState {
    type V = StateView;

    open spec fn view(&self) -> StateView {
        match self {
            WorkerState::Absent => StateView::Absent,
            WorkerState::Pending => StateView::Pending,
            WorkerState::Ready(sorted) => StateView::Ready(sorted@),
        }
    }
}

/// The lookup of the segments of the video that plays, and its result.
#[derive(Debug)]
pub struct Worker {
    pub state: WorkerState,
    /// The number of the load that is current.
    pub generation: u64,
}

impl View for Worker {
    type V = WorkerView;

    open spec fn view(&self) -> WorkerView {
        WorkerView { state: self.state@, generation: self.generation }
    }
}

impl Worker {
    /// A worker with no load and no segments.
    pub fn new() -> (worker: Self)
        ensures
            worker@ == (WorkerView { state: StateView::Absent, generation: 0 }),
    {
        Worker { state: WorkerState::Absent, generation: 0 }
    }

    /// Starts a load.  Whatever was known or in flight before is dropped.
    /// Returns the generation of the new load, which its result must carry.
    pub fn start(&mut self) -> (generation: u64)
        ensures
            final(self)@ == old(self)@.started(),
            generation == final(self)@.generation,
            generation != old(self)@.generation,
    {
        self.generation = self.generation.wrapping_add(1);
        self.state = WorkerState::Pending;
        self.generation
    }

    /// Cancels the load, if one is in flight, and drops the segments.
    pub fn stop(&mut self)
        ensures
            final(self)@ == old(self)@.stopped(),
    {
        self.state = WorkerState::Absent;
    }

    /// Hands in the result of the load `generation`.  Returns whether the
    /// worker became ready by it, which is when the player is to be told.
    pub fn publish(&mut self, generation: u64, outcome: Result<Segments, LookupError>) -> (ready:
        bool)
        ensures
            final(self)@ == old(self)@.published(generation, outcome_view(outcome)),
            ready == (old(self)@.accepts(generation) && final(self)@.fetched()),
    {
        if self.generation != generation {
            return false;
        }
        match self.state {
            WorkerState::Pending => {},
            _ => {
                return false;
            },
        }
        match outcome {
            Ok(segments) => {
                if segments.len() > 0 {
                    self.state = WorkerState::Ready(SortedSegments::new(segments));
                    true
                } else {
                    self.state = WorkerState::Absent;
                    false
                }
            },
            Err(LookupError::Cancelled) => false,
            Err(_) => {
                self.state = WorkerState::Absent;
                false
            },
        }
    }

    /// Whether a lookup is in flight.
    pub fn is_pending(&self) -> (pending: bool)
        ensures
            pending == (self@.state is Pending),
    {
        match self.state {
            WorkerState::Pending => true,
            _ => false,
        }
    }

    /// Whether the worker holds segments.
    pub fn fetched(&self) -> (fetched: bool)
        ensures
            fetched == self@.fetched(),
    {
        match self.state {
            WorkerState::Ready(_) => true,
            _ => false,
        }
    }

    /// The segment to skip at `time_pos`; `None` while no segments are there.
    pub fn get_skip_segment(&self, time_pos: i64) -> (found: Option<Segment>)
        ensures
            found == self@.skip_at(time_pos as int),
    {
        match &self.state {
            WorkerState::Ready(sorted) => sorted.get_skip_segment(time_pos),
            _ => None,
        }
    }

    /// The segment to mute at `time_pos`; `None` while no segments are there.
    pub fn get_mute_segment(&self, time_pos: i64) -> (found: Option<Segment>)
        ensures
            found == self@.mute_at(time_pos as int),
    {
        match &self.state {
            WorkerState::Ready(sorted) => sorted.get_mute_segment(time_pos),
            _ => None,
        }
    }

    /// The first `limit` skip segments that start at `time_pos` or later.
    pub fn upcoming_skips(&self, time_pos: i64, limit: usize) -> (next: Segments)
        ensures
            next@ == at_most(starting_from(self@.skippable(), time_pos as int), limit as int),
    {
        match &self.state {
            WorkerState::Ready(sorted) => upcoming(&sorted.skippable, time_pos, limit),
            _ => {
                proof {
                    reveal(Seq::filter);
                }
                Vec::new()
            },
        }
    }

    /// The first `limit` mute segments that start at `time_pos` or later.
    pub fn upcoming_mutes(&self, time_pos: i64, limit: usize) -> (next: Segments)
        ensures
            next@ == at_most(starting_from(self@.mutable(), time_pos as int), limit as int),
    {
        match &self.state {
            WorkerState::Ready(sorted) => upcoming(&sorted.mutable, time_pos, limit),
            _ => {
                proof {
                    reveal(Seq::filter);
                }
                Vec::new()
            },
        }
    }

    /// The time of the highlight; `None` while no segments are there.
    pub fn get_video_poi(&self) -> (time: Option<i64>)
        ensures
            time == self@.highlight(),
    {
        match &self.state {
            WorkerState::Ready(sorted) => sorted.get_video_poi(),
            _ => None,
        }
    }

    /// The category of the whole video; `None` while no segments are there.
    pub fn get_video_category(&self) -> (category: Option<Category>)
        ensures
            category == self@.label(),
    {
        match &self.state {
            WorkerState::Ready(sorted) => sorted.get_video_category(),
            _ => None,
        }
    }
}

/// What the worker is told.
#[derive(Debug)]
pub enum WorkerEvent {
    /// The player starts to play what lies at this path.
    Path(String),
    /// The lookup of the video `id` that was started as load `generation` has
    /// ended.
    Fetched { generation: u64, id: String, outcome: Result<Segments, LookupError> },
    /// The plugin shuts down.
    Cancel,
}

/// What is to be done for the worker next.
#[derive(Debug, PartialEq)]
pub enum WorkerAction {
    /// Wait for the next event.
    Wait,
    /// Ask the service at the address `request` for the segments of the video
    /// `id`, and hand the result in with the same generation and identifier.
    /// A lookup that was begun before is given up.
    Fetch { generation: u64, id: String, request: String },
    /// Tell the player that segments are there, then wait.
    Notify,
    /// Stop.
    Exit,
}

/// The action after a result was handed in.
pub open spec fn after_publish(ready: bool) -> WorkerAction {
    if ready {
        WorkerAction::Notify
    } else {
        WorkerAction::Wait
    }
}

/// What [`Worker::load`] does for the video `id`.  A new load starts.
/// Segments that the cache keeps for the video are published at once;
/// otherwise the service is to be asked, and a service whose address cannot be
/// read counts as a failed lookup.
pub open spec fn loaded(
    worker: WorkerView,
    cache: CacheView,
    config: Config,
    id: Seq<char>,
    worker_after: WorkerView,
    cache_after: CacheView,
    action: WorkerAction,
) -> bool {
    &&& cache_after == cache.looked_up(id)
    &&& match kept(cache.entries, id) {
        Some(segments) => {
            &&& worker_after == worker.started().published(
                worker.started().generation,
                Ok(segments),
            )
            &&& action == after_publish(segments.len() > 0)
        },
        None => match request_address(config, id) {
            Some(address) => {
                &&& worker_after == worker.started()
                &&& action matches WorkerAction::Fetch { generation, id: asked, request }
                &&& generation == worker_after.generation
                &&& asked@ == id
                &&& request@ == address
            },
            None => {
                &&& worker_after == worker.started().stopped()
                &&& action == WorkerAction::Wait
            },
        },
    }
}

/// What [`Worker::handle`] does with an event.
///
/// * The end of the plugin cancels the load.
/// * A path that is not the address of a video cancels the load too.  The
///   address of a video starts the load of that video.
/// * A result is recorded in the cache and handed in; it is published only if
///   its load is still current.
pub open spec fn handled(
    worker: WorkerView,
    cache: CacheView,
    config: Config,
    event: WorkerEvent,
    worker_after: WorkerView,
    cache_after: CacheView,
    action: WorkerAction,
) -> bool {
    match event {
        WorkerEvent::Cancel => {
            &&& worker_after == worker.stopped()
            &&& cache_after == cache
            &&& action == WorkerAction::Exit
        },
        WorkerEvent::Path(path) => match found_in(config.youtube_regex@, path@) {
            None => {
                &&& worker_after == worker.stopped()
                &&& cache_after == cache
                &&& action == WorkerAction::Wait
            },
            Some(id) => loaded(worker, cache, config, id, worker_after, cache_after, action),
        },
        WorkerEvent::Fetched { generation, id, outcome } => {
            &&& worker_after == worker.published(generation, outcome_view(outcome))
            &&& cache_after == cache.recorded(id@, outcome_view(outcome))
            &&& action == after_publish(worker.accepts(generation) && worker_after.fetched())
        },
    }
}

impl Worker {
    /// Starts the load of the video `id` and says what is to be done for it.
    pub fn load(&mut self, cache: &mut ResultCache, config: &Config, id: String) -> (action:
        WorkerAction)
        ensures
            loaded(old(self)@, old(cache)@, *config, id@, final(self)@, final(cache)@, action),
    {
        let generation = self.start();
        match fetch(cache, config, id.as_str()) {
            Fetch::Cached(segments) => {
                let ready = self.publish(generation, Ok(segments));
                if ready {
                    WorkerAction::Notify
                } else {
                    WorkerAction::Wait
                }
            },
            Fetch::Remote(address) => WorkerAction::Fetch { generation, id, request: address },
            Fetch::Unreachable => {
                self.stop();
                WorkerAction::Wait
            },
        }
    }

    /// Hands in the result of the lookup of the video `id` that was started as
    /// load `generation`.  The result is recorded in the cache whether or not
    /// its load is still current.
    pub fn finish(
        &mut self,
        cache: &mut ResultCache,
        generation: u64,
        id: &str,
        outcome: Result<Segments, LookupError>,
    ) -> (action: WorkerAction)
        ensures
            final(self)@ == old(self)@.published(generation, outcome_view(outcome)),
            final(cache)@ == old(cache)@.recorded(id@, outcome_view(outcome)),
            action == after_publish(old(self)@.accepts(generation) && final(self)@.fetched()),
    {
        cache.record(id, &outcome);
        let ready = self.publish(generation, outcome);
        if ready {
            WorkerAction::Notify
        } else {
            WorkerAction::Wait
        }
    }

    /// Reacts to an event and says what is to be done next.
    pub fn handle(&mut self, cache: &mut ResultCache, config: &Config, event: WorkerEvent) -> (action:
        WorkerAction)
        ensures
            handled(old(self)@, old(cache)@, *config, event, final(self)@, final(cache)@, action),
    {
        match event {
            WorkerEvent::Cancel => {
                self.stop();
                WorkerAction::Exit
            },
            WorkerEvent::Path(path) => match config.get_youtube_id(path.as_str()) {
                None => {
                    self.stop();
                    WorkerAction::Wait
                },
                Some(id) => self.load(cache, config, id),
            },
            WorkerEvent::Fetched { generation, id, outcome } => self.finish(
                cache,
                generation,
                id.as_str(),
                outcome,
            ),
        }
    }
}

/// A result that arrives after the next load has started changes nothing,
/// whatever it holds and however the new load has fared since.
pub proof fn lemma_late_result_is_dropped(
    worker: WorkerView,
    outcome: Result<Seq<Segment>, LookupError>,
    late: Result<Seq<Segment>, LookupError>,
)
    ensures
        worker.started().started().published(worker.started().generation, late)
            == worker.started().started(),
        worker.started().started().published(worker.started().started().generation, outcome)
            .published(worker.started().generation, late) == worker.started().started().published(
            worker.started().started().generation,
            outcome,
        ),
{
}

/// A result with the generation of its load.
pub type Handed = (u64, Result<Seq<Segment>, LookupError>);

/// The worker after the results in `results` were handed in one after the
/// other.
pub open spec fn replayed(worker: WorkerView, results: Seq<Handed>) -> WorkerView
    decreases results.len(),
{
    if results.len() == 0 {
        worker
    } else {
        replayed(worker, results.drop_last()).published(results.last().0, results.last().1)
    }
}

/// The predicate "is a result of the load `generation`".
pub open spec fn of_load(generation: u64) -> spec_fn(Handed) -> bool {
    |handed: Handed| handed.0 == generation
}

/// Only the results of the current load count: however many results of other
/// loads are handed in, and wherever among the others, the worker ends as if
/// they had never come.  Handing in results never changes which load is
/// current.
pub proof fn lemma_only_the_current_load_counts(worker: WorkerView, results: Seq<Handed>)
    ensures
        replayed(worker, results).generation == worker.generation,
        replayed(worker, results) == replayed(worker, results.filter(of_load(worker.generation))),
    decreases results.len(),
{
    reveal(Seq::filter);
    if results.len() > 0 {
        let rest = results.drop_last();
        let last = results.last();
        let kept = rest.filter(of_load(worker.generation));
        lemma_only_the_current_load_counts(worker, rest);
        if last.0 == worker.generation {
            assert(results.filter(of_load(worker.generation)) == kept.push(last));
            assert(kept.push(last).drop_last() =~= kept);
            assert(kept.push(last).last() == last);
        } else {
            assert(results.filter(of_load(worker.generation)) == kept);
        }
    }
}

/// A result is taken at most once and only for the load that is current: any
/// result for another generation, or for a load that has ended or was
/// cancelled, leaves the worker as it is.
pub proof fn lemma_published_once(
    worker: WorkerView,
    generation: u64,
    first: Result<Seq<Segment>, LookupError>,
    second: Result<Seq<Segment>, LookupError>,
)
    ensures
        generation != worker.generation ==> worker.published(generation, first) == worker,
        !(first matches Err(LookupError::Cancelled)) ==> worker.published(
            generation,
            first,
        ).published(generation, second) == worker.published(generation, first),
        worker.stopped().published(generation, first) == worker.stopped(),
{
}

} // verus!
