//! The segments of one video, split by action.
//!
//! The position of the player changes many times a second and each change asks
//! whether a skip or a mute segment lies under it.  The segments are therefore
//! split once, when they arrive, into the four views that are queried.

use vstd::prelude::*;
use crate::action::Action;
use crate::category::Category;
use crate::segment::{Segment, Segments, SKIP_MARGIN};

verus! {

/// The predicate "has this action".
pub open spec fn has_action(action: Action) -> spec_fn(Segment) -> bool {
    |s: Segment| s.action == action
}

/// The segments of `s` with the given action, in the order of `s`.
pub open spec fn with_action(s: Seq<Segment>, action: Action) -> Seq<Segment> {
    s.filter(has_action(action))
}

/// The first segment of `s`, if there is one.
pub open spec fn first_of(s: Seq<Segment>) -> Option<Segment> {
    if s.len() > 0 {
        Some(s[0])
    } else {
        None
    }
}

/// The first segment of `s` that spans `time` with the given margin.
pub open spec fn first_spanning(s: Seq<Segment>, time: int, margin: int) -> Option<Segment>
    decreases s.len(),
{
    if s.len() == 0 {
        None
    } else if s.first().spans(time, margin) {
        Some(s.first())
    } else {
        first_spanning(s.drop_first(), time, margin)
    }
}

/// The four views of the segments of one video.
pub struct SortedView {
    pub skippable: Seq<Segment>,
    pub mutable: Seq<Segment>,
    pub poi: Option<Segment>,
    pub full: Option<Segment>,
}

/// The four views of `s`: its skip segments and its mute segments in order,
/// its first point of interest and its first label of the whole video.
pub open spec fn split(s: Seq<Segment>) -> SortedView {
    SortedView {
        skippable: with_action(s, Action::Skip),
        mutable: with_action(s, Action::Mute),
        poi: first_of(with_action(s, Action::Poi)),
        full: first_of(with_action(s, Action::Full)),
    }
}

impl SortedView {
    /// The number of segments kept in the four views.
    pub open spec fn count(self) -> nat {
        self.skippable.len() + self.mutable.len() + (if self.poi is Some {
            1nat
        } else {
            0nat
        }) + (if self.full is Some {
            1nat
        } else {
            0nat
        })
    }

    /// The segment to skip at `time`, if any: the first skip segment that
    /// spans it, the last [`SKIP_MARGIN`] microseconds of each left out.
    pub open spec fn skip_at(self, time: int) -> Option<Segment> {
        first_spanning(self.skippable, time, SKIP_MARGIN as int)
    }

    /// The segment to mute at `time`, if any: the first mute segment that
    /// contains it.
    pub open spec fn mute_at(self, time: int) -> Option<Segment> {
        first_spanning(self.mutable, time, 0)
    }

    /// The time of the highlight, if the video has one.
    pub open spec fn highlight(self) -> Option<i64> {
        match self.poi {
            Some(s) => Some(s.segment[0]),
            None => None,
        }
    }

    /// The category of the whole video, if it has one.
    pub open spec fn label(self) -> Option<Category> {
        match self.full {
            Some(s) => Some(s.category),
            None => None,
        }
    }
}

/// Appending one segment appends it to the view of its own action and leaves
/// the others alone.
pub proof fn lemma_with_action_push(s: Seq<Segment>, x: Segment, action: Action)
    ensures
        with_action(s.push(x), action) == if x.action == action {
            with_action(s, action).push(x)
        } else {
            with_action(s, action)
        },
{
    reveal(Seq::filter);
    assert(s.push(x).drop_last() =~= s);
}

/// The four views hold every segment exactly once: their lengths add up to the
/// number of segments.
pub proof fn lemma_views_are_exhaustive(s: Seq<Segment>)
    ensures
        with_action(s, Action::Skip).len() + with_action(s, Action::Mute).len() + with_action(
            s,
            Action::Poi,
        ).len() + with_action(s, Action::Full).len() == s.len(),
    decreases s.len(),
{
    reveal(Seq::filter);
    if s.len() > 0 {
        lemma_views_are_exhaustive(s.drop_last());
    }
}

/// A segment found by [`first_spanning`] is the earliest one in the sequence
/// that spans the time, and none is found only when none spans it.
pub proof fn lemma_first_spanning(s: Seq<Segment>, time: int, margin: int)
    ensures
        match first_spanning(s, time, margin) {
            Some(found) => exists|i: int|
                0 <= i < s.len() && s[i] == found && s[i].spans(time, margin) && forall|j: int|
                    0 <= j < i ==> !(#[trigger] s[j]).spans(time, margin),
            None => forall|j: int| 0 <= j < s.len() ==> !(#[trigger] s[j]).spans(time, margin),
        },
    decreases s.len(),
{
    if s.len() == 0 {
    } else if s.first().spans(time, margin) {
        assert(s[0] == s.first());
    } else {
        let rest = s.drop_first();
        lemma_first_spanning(rest, time, margin);
        assert(forall|j: int| 0 <= j < rest.len() ==> rest[j] == s[j + 1]);
        match first_spanning(rest, time, margin) {
            Some(found) => {
                let i = choose|i: int|
                    0 <= i < rest.len() && rest[i] == found && rest[i].spans(time, margin)
                        && forall|j: int|
                        0 <= j < i ==> !(#[trigger] rest[j]).spans(time, margin);
                assert(s[i + 1] == found);
                assert forall|j: int| 0 <= j < i + 1 implies !(#[trigger] s[j]).spans(
                    time,
                    margin,
                ) by {
                    if j > 0 {
                        assert(rest[j - 1] == s[j]);
                    }
                }
            },
            None => {
                assert forall|j: int| 0 <= j < s.len() implies !(#[trigger] s[j]).spans(
                    time,
                    margin,
                ) by {
                    if j > 0 {
                        assert(rest[j - 1] == s[j]);
                    }
                }
            },
        }
    }
}

/// The segments of `s` that start at `time` or later, in order.
pub open spec fn starting_from(s: Seq<Segment>, time: int) -> Seq<Segment> {
    s.filter(|x: Segment| x.start() >= time)
}

/// The first `limit` elements of `s`, or all of `s` if it has fewer.
pub open spec fn at_most(s: Seq<Segment>, limit: int) -> Seq<Segment> {
    if s.len() <= limit {
        s
    } else {
        s.take(limit)
    }
}

/// The first `limit` segments of `segments` that start at `time_pos` or later.
pub fn upcoming(segments: &Segments, time_pos: i64, limit: usize) -> (next: Segments)
    ensures
        next@ == at_most(starting_from(segments@, time_pos as int), limit as int),
{
    let mut next: Segments = Vec::new();
    let n = segments.len();
    let mut i: usize = 0;
    while i < n && next.len() < limit
        invariant
            i <= n,
            n == segments@.len(),
            next@ == starting_from(segments@.take(i as int), time_pos as int),
            next@.len() <= limit,
        decreases n - i,
    {
        proof {
            reveal(Seq::filter);
            assert(segments@.take(i + 1).drop_last() =~= segments@.take(i as int));
        }
        if segments[i].segment[0] >= time_pos {
            next.push(segments[i].clone());
        }
        i = i + 1;
    }
    proof {
        let pred = |x: Segment| x.start() >= time_pos as int;
        let head = segments@.take(i as int);
        let tail = segments@.skip(i as int);
        assert(segments@ =~= head + tail);
        Seq::filter_distributes_over_add(head, tail, pred);
        if i == n {
            assert(tail =~= Seq::<Segment>::empty());
            assert(tail.filter(pred) =~= Seq::<Segment>::empty()) by {
                reveal(Seq::filter);
            }
            assert(head.filter(pred) + tail.filter(pred) =~= head.filter(pred));
        } else {
            assert(next@.len() == limit);
            assert((head.filter(pred) + tail.filter(pred)).take(limit as int) =~= head.filter(pred));
        }
    }
    next
}

/// The segments of one video, split by action.
#[derive(Debug)]
pub struct SortedSegments {
    /// The segments to skip, in the order in which they arrived.
    pub skippable: Segments,
    /// The segments to mute, in the order in which they arrived.
    pub mutable: Segments,
    /// The highlight of the video: the first point of interest that arrived.
    pub poi: Option<Segment>,
    /// The first segment that labels the whole video.
    pub full: Option<Segment>,
}

impl View for SortedSegments {
    type V = SortedView;

    open spec fn view(&self) -> SortedView {
        SortedView {
            skippable: self.skippable@,
            mutable: self.mutable@,
            poi: self.poi,
            full: self.full,
        }
    }
}

/// The split loses nothing but surplus highlights and labels: the views hold
/// at most as many segments as were split, and exactly as many if and only if
/// at most one point of interest and at most one label were among them.  No
/// segment is in two views, since each view holds one action only.
pub proof fn lemma_split_is_partition(s: Seq<Segment>)
    ensures
        split(s).count() <= s.len(),
        split(s).count() == s.len() <==> with_action(s, Action::Poi).len() <= 1 && with_action(
            s,
            Action::Full,
        ).len() <= 1,
        forall|i: int|
            0 <= i < split(s).skippable.len() ==> (#[trigger] split(s).skippable[i]).action
                == Action::Skip,
        forall|i: int|
            0 <= i < split(s).mutable.len() ==> (#[trigger] split(s).mutable[i]).action
                == Action::Mute,
        split(s).poi matches Some(p) ==> p.action == Action::Poi,
        split(s).full matches Some(f) ==> f.action == Action::Full,
{
    broadcast use vstd::seq_lib::group_filter_ensures;

    lemma_views_are_exhaustive(s);
}

impl SortedSegments {
    /// Splits the segments of a video by action.  Skip and mute segments keep
    /// their order; of the points of interest and of the segments that label
    /// the whole video only the first is kept.
    pub fn new(segments: Segments) -> (sorted: Self)
        ensures
            sorted@ == split(segments@),
    {
        let mut skippable: Segments = Vec::new();
        let mut mutable: Segments = Vec::new();
        let mut poi: Option<Segment> = None;
        let mut full: Option<Segment> = None;
        let ghost all = segments@;
        let n = segments.len();
        let mut i: usize = 0;
        while i < n
            invariant
                i <= n,
                n == segments@.len(),
                all == segments@,
                skippable@ == with_action(all.take(i as int), Action::Skip),
                mutable@ == with_action(all.take(i as int), Action::Mute),
                poi == first_of(with_action(all.take(i as int), Action::Poi)),
                full == first_of(with_action(all.take(i as int), Action::Full)),
            decreases n - i,
        {
            let seg = segments[i].clone();
            proof {
                assert(all.take(i + 1) =~= all.take(i as int).push(seg));
                lemma_with_action_push(all.take(i as int), seg, Action::Skip);
                lemma_with_action_push(all.take(i as int), seg, Action::Mute);
                lemma_with_action_push(all.take(i as int), seg, Action::Poi);
                lemma_with_action_push(all.take(i as int), seg, Action::Full);
            }
            match seg.action {
                Action::Skip => {
                    skippable.push(seg);
                },
                Action::Mute => {
                    mutable.push(seg);
                },
                Action::Poi => {
                    if poi.is_none() {
                        poi = Some(seg);
                    }
                },
                Action::Full => {
                    if full.is_none() {
                        full = Some(seg);
                    }
                },
            }
            i = i + 1;
        }
        proof {
            assert(all.take(n as int) =~= all);
        }
        SortedSegments { skippable, mutable, poi, full }
    }

    /// The first skip segment that spans `time_pos`, its last [`SKIP_MARGIN`]
    /// microseconds left out.
    pub fn get_skip_segment(&self, time_pos: i64) -> (found: Option<Segment>)
        ensures
            found == self@.skip_at(time_pos as int),
    {
        let n = self.skippable.len();
        let mut i: usize = 0;
        proof {
            assert(self.skippable@.skip(0) =~= self.skippable@);
        }
        while i < n
            invariant
                i <= n,
                n == self.skippable@.len(),
                self@.skip_at(time_pos as int) == first_spanning(
                    self.skippable@.skip(i as int),
                    time_pos as int,
                    SKIP_MARGIN as int,
                ),
            decreases n - i,
        {
            proof {
                assert(self.skippable@.skip(i as int).drop_first() =~= self.skippable@.skip(
                    i + 1,
                ));
            }
            if self.skippable[i].is_in_segment(time_pos) {
                return Some(self.skippable[i].clone());
            }
            i = i + 1;
        }
        None
    }

    /// The first mute segment that contains `time_pos`.
    pub fn get_mute_segment(&self, time_pos: i64) -> (found: Option<Segment>)
        ensures
            found == self@.mute_at(time_pos as int),
    {
        let n = self.mutable.len();
        let mut i: usize = 0;
        proof {
            assert(self.mutable@.skip(0) =~= self.mutable@);
        }
        while i < n
            invariant
                i <= n,
                n == self.mutable@.len(),
                self@.mute_at(time_pos as int) == first_spanning(
                    self.mutable@.skip(i as int),
                    time_pos as int,
                    0,
                ),
            decreases n - i,
        {
            proof {
                assert(self.mutable@.skip(i as int).drop_first() =~= self.mutable@.skip(i + 1));
            }
            if self.mutable[i].contains(time_pos) {
                return Some(self.mutable[i].clone());
            }
            i = i + 1;
        }
        None
    }

    /// The time of the highlight, if the video has one.
    pub fn get_video_poi(&self) -> (time: Option<i64>)
        ensures
            time == self@.highlight(),
    {
        match &self.poi {
            Some(s) => Some(s.segment[0]),
            None => None,
        }
    }

    /// The category of the whole video, if it has one.
    pub fn get_video_category(&self) -> (category: Option<Category>)
        ensures
            category == self@.label(),
    {
        match &self.full {
            Some(s) => Some(s.category),
            None => None,
        }
    }
}

} // verus!
