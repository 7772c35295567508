//! The reactions of the plugin to what the player reports.
//!
//! The player reports positions, changes of its mute flag and messages; the
//! handler answers each with the command the player is to carry out.  Between
//! two reports it remembers the mute segment it is in and whether the mute
//! that is on is its own.  A mute that the user switched on is never taken
//! over, and one that the user switched off is not switched on again.

use vstd::prelude::*;
use crate::category::Category;
use crate::segment::{Segment, Segments};
use crate::worker::{Worker, WorkerView};

verus! {

/// What the player is to do.
#[derive(Debug, PartialEq)]
pub enum Command {
    /// Nothing.
    Idle,
    /// Move the position to `target`, the end of the segment `skipped`.
    Seek { target: i64, skipped: Segment },
    /// Switch the sound off for the segment.
    Mute(Segment),
    /// Switch the sound back on.
    Unmute,
    /// Move the position to the highlight of the video.
    Jump(i64),
    /// Tell the user that the whole video is of this category.
    Label(Category),
    /// Tell the user that the plugin is now on (`true`) or off (`false`).
    Toggled(bool),
    /// Tell the user what is known of the video: the skips and the mutes to
    /// come, the highlight, the category of the whole video, and whether the
    /// plugin acts.
    Info {
        skips: Segments,
        mutes: Segments,
        highlight: Option<i64>,
        label: Option<Category>,
        enabled: bool,
    },
}

/// What the handler remembers between two reports, as a mathematical value.
pub struct HandlerView {
    /// The identifier of the mute segment the position is in.
    pub active: Option<Seq<char>>,
    /// Whether the handler switched the sound off and still answers for it.
    pub owned: bool,
}

impl HandlerView {
    /// What holds of every handler: a mute is its own only while it is in a
    /// mute segment.
    pub open spec fn wf(self) -> bool {
        self.owned ==> self.active is Some
    }

    /// The position entered or stays in the mute segment `s` while the
    /// player's mute flag is `muted`.  Staying in the same segment changes
    /// nothing.  On entering, the sound is switched off if it is on or if the
    /// mute that is on is the handler's own; a mute of the user is left alone
    /// and not taken over.
    pub open spec fn entered(self, s: Segment, muted: bool) -> (HandlerView, Command) {
        if self.active == Some(s.uuid@) {
            (self, Command::Idle)
        } else if self.owned || !muted {
            (HandlerView { active: Some(s.uuid@), owned: true }, Command::Mute(s))
        } else {
            (HandlerView { active: Some(s.uuid@), owned: self.owned }, Command::Idle)
        }
    }

    /// The position is in no segment.  If it was in a mute segment, the sound
    /// is switched back on exactly when the mute is the handler's own.
    pub open spec fn left(self) -> (HandlerView, Command) {
        if self.active is None {
            (self, Command::Idle)
        } else if self.owned {
            (HandlerView { active: None, owned: false }, Command::Unmute)
        } else {
            (HandlerView { active: None, owned: self.owned }, Command::Idle)
        }
    }

    /// The position changed to `time` while the player's mute flag is `muted`.
    /// A skip segment comes first: the position moves to its end and nothing
    /// else happens.  Otherwise a mute segment is entered, or none is left.
    pub open spec fn time_changed(self, worker: WorkerView, time: int, muted: bool) -> (
        HandlerView,
        Command,
    ) {
        match worker.skip_at(time) {
            Some(s) => (self, Command::Seek { target: s.segment[1], skipped: s }),
            None => match worker.mute_at(time) {
                Some(s) => self.entered(s, muted),
                None => self.left(),
            },
        }
    }

    /// Whether the reaction to a change of the position to `time` depends on
    /// the player's mute flag: it does when a mute segment is entered and no
    /// skip comes first.
    pub open spec fn needs_mute_flag(self, worker: WorkerView, time: int) -> bool {
        worker.skip_at(time) is None && match worker.mute_at(time) {
            Some(s) => self.active != Some(s.uuid@),
            None => false,
        }
    }

    /// The player's mute flag changed to `mute`.  When the user switches the
    /// sound back on, the mute is no longer the handler's.
    pub open spec fn mute_changed(self, mute: bool) -> HandlerView {
        if self.owned && !mute {
            HandlerView { owned: false, ..self }
        } else {
            self
        }
    }
}

/// A skip comes before a mute: where a skip segment matches, the position
/// moves to its end, the sound is left alone and the handler remembers
/// nothing new, whatever mute segment matches as well.
pub proof fn lemma_skip_comes_first(handler: HandlerView, worker: WorkerView, time: int, muted: bool)
    requires
        worker.skip_at(time) is Some,
    ensures
        handler.time_changed(worker, time, muted) == (
            handler,
            Command::Seek {
                target: worker.skip_at(time)->Some_0.segment[1],
                skipped: worker.skip_at(time)->Some_0,
            },
        ),
{
}

/// Once the user has switched the sound back on inside a mute segment, the
/// handler no longer owns the mute and does not switch the sound off again
/// while the position stays in that segment.
pub proof fn lemma_user_takes_mute_back(
    handler: HandlerView,
    segment: Segment,
    muted_on_entry: bool,
    muted_later: bool,
)
    ensures
        ({
            let inside = handler.entered(segment, muted_on_entry).0;
            let taken_back = inside.mute_changed(false);
            &&& !taken_back.owned
            &&& taken_back.entered(segment, muted_later) == (taken_back, Command::Idle)
        }),
{
}

/// Leaving a mute segment switches the sound back on if and only if the mute
/// is the handler's own, and does so once: afterwards the handler is in no
/// segment, owns no mute, and a further report outside every segment gives no
/// command.
pub proof fn lemma_unmute_on_exit(handler: HandlerView, segment: Segment, muted: bool)
    ensures
        ({
            let inside = handler.entered(segment, muted).0;
            let (outside, command) = inside.left();
            &&& inside.active is Some
            &&& command == if inside.owned {
                Command::Unmute
            } else {
                Command::Idle
            }
            &&& outside == (HandlerView { active: None, owned: false })
            &&& outside.left() == (outside, Command::Idle)
        }),
{
}

/// The handler owns a mute only while it is in a mute segment: a new handler
/// does, and every reaction keeps it so.
pub proof fn lemma_owned_only_inside(
    handler: HandlerView,
    worker: WorkerView,
    time: int,
    muted: bool,
    mute: bool,
)
    requires
        handler.wf(),
    ensures
        (HandlerView { active: None, owned: false }).wf(),
        handler.time_changed(worker, time, muted).0.wf(),
        handler.mute_changed(mute).wf(),
        handler.left().0.wf(),
{
}

/// No mute of the handler outlasts the segments: once the position is in no
/// segment the handler owns no mute, and the sound was switched back on if
/// and only if the mute was the handler's own.
pub proof fn lemma_no_mute_is_left_behind(handler: HandlerView)
    requires
        handler.wf(),
    ensures
        !handler.left().0.owned,
        handler.left().0.active is None,
        handler.left().1 == if handler.owned {
            Command::Unmute
        } else {
            Command::Idle
        },
{
}

/// The command that moves to the highlight, if there is one.
pub open spec fn jump_to(highlight: Option<i64>) -> Command {
    match highlight {
        Some(time) => Command::Jump(time),
        None => Command::Idle,
    }
}

/// The command that shows the category of the whole video, if it has one.
pub open spec fn show_label(label: Option<Category>) -> Command {
    match label {
        Some(category) => Command::Label(category),
        None => Command::Idle,
    }
}

/// The reactions of the plugin to the reports of the player.
#[derive(Debug)]
pub struct EventHandler {
    /// The mute segment the position is in.
    pub mute_segment: Option<Segment>,
    /// Whether the handler switched the sound off and still answers for it.
    pub mute_sponsorblock: bool,
}

impl View for EventHandler {
    type V = HandlerView;

    open spec fn view(&self) -> HandlerView {
        HandlerView {
            active: match self.mute_segment {
                Some(s) => Some(s.uuid@),
                None => None,
            },
            owned: self.mute_sponsorblock,
        }
    }
}

impl EventHandler {
    /// A handler that is in no segment and owns no mute.
    pub fn new() -> (handler: Self)
        ensures
            handler@ == (HandlerView { active: None, owned: false }),
    {
        EventHandler { mute_segment: None, mute_sponsorblock: false }
    }

    /// The position of the player changed to `time_pos`; `muted` is the
    /// player's mute flag at that moment.
    pub fn time_change(&mut self, worker: &Worker, time_pos: i64, muted: bool) -> (command:
        Command)
        ensures
            (final(self)@, command) == old(self)@.time_changed(worker@, time_pos as int, muted),
    {
        if let Some(s) = worker.get_skip_segment(time_pos) {
            self.skip(s)
        } else if let Some(s) = worker.get_mute_segment(time_pos) {
            self.mute(s, muted)
        } else {
            self.reset()
        }
    }

    /// Whether the player's mute flag has to be read before the change of the
    /// position to `time_pos` is reported with [`EventHandler::time_change`].
    /// Where it need not be read, any value may be passed.
    pub fn wants_mute_flag(&self, worker: &Worker, time_pos: i64) -> (wanted: bool)
        ensures
            wanted == self@.needs_mute_flag(worker@, time_pos as int),
            !wanted ==> self@.time_changed(worker@, time_pos as int, true)
                == self@.time_changed(worker@, time_pos as int, false),
    {
        if worker.get_skip_segment(time_pos).is_some() {
            return false;
        }
        match worker.get_mute_segment(time_pos) {
            Some(s) => match &self.mute_segment {
                Some(current) => !current.same_segment(&s),
                None => true,
            },
            None => false,
        }
    }

    /// The player's mute flag changed to `mute`.
    pub fn mute_change(&mut self, mute: bool)
        ensures
            final(self)@ == old(self)@.mute_changed(mute),
    {
        if self.mute_sponsorblock && !mute {
            self.mute_sponsorblock = false;
        }
    }

    /// The command that skips `working_segment`.
    pub fn skip(&self, working_segment: Segment) -> (command: Command)
        ensures
            command == (Command::Seek {
                target: working_segment.segment[1],
                skipped: working_segment,
            }),
    {
        Command::Seek { target: working_segment.segment[1], skipped: working_segment }
    }

    /// The position is in the mute segment `working_segment` while the
    /// player's mute flag is `muted`.
    pub fn mute(&mut self, working_segment: Segment, muted: bool) -> (command: Command)
        ensures
            (final(self)@, command) == old(self)@.entered(working_segment, muted),
    {
        let same = match &self.mute_segment {
            Some(current) => current.same_segment(&working_segment),
            None => false,
        };
        if same {
            return Command::Idle;
        }
        if self.mute_sponsorblock || !muted {
            self.mute_sponsorblock = true;
            self.mute_segment = Some(working_segment.clone());
            Command::Mute(working_segment)
        } else {
            self.mute_segment = Some(working_segment);
            Command::Idle
        }
    }

    /// The position is in no segment.
    pub fn reset(&mut self) -> (command: Command)
        ensures
            (final(self)@, command) == old(self)@.left(),
    {
        if self.mute_segment.is_none() {
            return Command::Idle;
        }
        self.mute_segment = None;
        if self.mute_sponsorblock {
            self.mute_sponsorblock = false;
            Command::Unmute
        } else {
            Command::Idle
        }
    }

    /// The user asked for the highlight of the video.
    pub fn poi_requested(&self, worker: &Worker) -> (command: Command)
        ensures
            command == jump_to(worker@.highlight()),
    {
        match worker.get_video_poi() {
            Some(time_pos) => Command::Jump(time_pos),
            None => Command::Idle,
        }
    }

    /// The segments of the video have arrived.
    pub fn segments_fetched(&self, worker: &Worker) -> (command: Command)
        ensures
            command == show_label(worker@.label()),
    {
        match worker.get_video_category() {
            Some(category) => Command::Label(category),
            None => Command::Idle,
        }
    }
}

} // verus!
