//! A segment of a video, as the segment service describes it.

use vstd::prelude::*;
use crate::action::Action;
use crate::category::Category;

verus! {

/// How long before its end a skip segment stops matching, in microseconds.
///
/// The player reports positions with some jitter; without the margin a jump to
/// the end of a segment could land just inside it and trigger a second jump.
pub const SKIP_MARGIN: i64 = 100_000;

/// One segment of a video.  Times are microseconds from the start of the video.
#[derive(Debug)]
pub struct Segment {
    pub category: Category,
    pub action: Action,
    /// Start and end of the segment.
    pub segment: [i64; 2],
    /// The identifier the service gave the segment.  Two segments are the same
    /// segment when their identifiers are equal.
    pub uuid: String,
}

pub type Segments = Vec<Segment>;

impl Segment {
    /// Start of the segment.
    pub open spec fn start(self) -> int {
        self.segment[0] as int
    }

    /// End of the segment.
    pub open spec fn end(self) -> int {
        self.segment[1] as int
    }

    /// A segment is well formed when it does not end before it starts.
    pub open spec fn wf(self) -> bool {
        self.start() <= self.end()
    }

    /// Whether `time` lies in the segment, its last `margin` microseconds left out.
    pub open spec fn spans(self, time: int, margin: int) -> bool {
        self.start() <= time && time + margin < self.end()
    }

    /// Whether two segments are the same segment.
    pub open spec fn same_as(self, other: Segment) -> bool {
        self.uuid@ == other.uuid@
    }

    /// Whether the segment does not end before it starts.
    pub fn is_valid(&self) -> (valid: bool)
        ensures
            valid == self.wf(),
    {
        self.segment[0] <= self.segment[1]
    }

    /// Whether a skip is due at `time`: the time lies in the segment and more
    /// than [`SKIP_MARGIN`] before its end.
    pub fn is_in_segment(&self, time: i64) -> (inside: bool)
        ensures
            inside == self.spans(time as int, SKIP_MARGIN as int),
    {
        match self.segment[1].checked_sub(SKIP_MARGIN) {
            Some(limit) => time >= self.segment[0] && time < limit,
            None => false,
        }
    }

    /// Whether `time` lies in the segment, the start included and the end not.
    pub fn contains(&self, time: i64) -> (inside: bool)
        ensures
            inside == self.spans(time as int, 0),
    {
        time >= self.segment[0] && time < self.segment[1]
    }

    /// Whether two segments are the same segment.
    pub fn same_segment(&self, other: &Segment) -> (same: bool)
        ensures
            same == self.same_as(*other),
    {
        self.uuid == other.uuid
    }
}

impl Clone for Segment {
    fn clone(&self) -> (copy: Self)
        ensures
            copy == *self,
    {
        Segment {
            category: self.category,
            action: self.action,
            segment: self.segment,
            uuid: self.uuid.clone(),
        }
    }
}

impl PartialEq for Segment {
    fn eq(&self, other: &Self) -> (equal: bool) {
        self.uuid == other.uuid
    }
}

impl vstd::std_specs::cmp::PartialEqSpecImpl for Segment {
    open spec fn obeys_eq_spec() -> bool {
        true
    }

    open spec fn eq_spec(&self, other: &Self) -> bool {
        self.uuid@ == other.uuid@
    }
}

} // verus!
