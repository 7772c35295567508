//! The plugin as the player sees it: the handler of its reports, behind the
//! switch with which the user turns the plugin on and off.

use vstd::prelude::*;
use crate::cache::ResultCache;
use crate::config::Config;
use crate::event_handler::{jump_to, show_label, Command, EventHandler, HandlerView};
use crate::sorted::{at_most, starting_from};
use crate::text::str_eq;
use crate::utils::found_in;
use crate::worker::{handled, Worker, WorkerAction, WorkerEvent, WorkerView};

verus! {

/// How many coming segments the user is shown at most.
pub const INFO_LIMIT: usize = 5;

/// What a message to the plugin asks for.
#[derive(Debug, Copy, Clone, PartialEq, Eq, Structural)]
pub enum Message {
    /// The user asks what is known of the video.
    Info,
    /// The user asks for the highlight of the video.
    Poi,
    /// The user turns the plugin on or off.
    Toggle,
    /// The worker says that segments are there.
    SegmentsFetched,
    /// Anything else.
    Other,
}

/// What a message asks for.  A key binding is a message of at least three
/// words, `key-binding`, the name of the binding and, for the release of the
/// key, `u-`.  The worker's message is the single word `segments-fetched`.
pub open spec fn message_of(args: Seq<Seq<char>>) -> Message {
    if args.len() >= 3 && args[0] == "key-binding"@ && args[2] == "u-"@ {
        if args[1] == "info"@ {
            Message::Info
        } else if args[1] == "poi"@ {
            Message::Poi
        } else if args[1] == "toggle"@ {
            Message::Toggle
        } else {
            Message::Other
        }
    } else if args.len() == 1 && args[0] == "segments-fetched"@ {
        Message::SegmentsFetched
    } else {
        Message::Other
    }
}

/// The words of a message, as texts.
pub open spec fn words(args: Seq<&str>) -> Seq<Seq<char>> {
    Seq::new(args.len(), |i: int| args[i]@)
}

/// Reads what a message asks for.
pub fn parse_message(args: &[&str]) -> (message: Message)
    ensures
        message == message_of(words(args@)),
{
    if args.len() >= 3 && str_eq(args[0], "key-binding") && str_eq(args[2], "u-") {
        if str_eq(args[1], "info") {
            Message::Info
        } else if str_eq(args[1], "poi") {
            Message::Poi
        } else if str_eq(args[1], "toggle") {
            Message::Toggle
        } else {
            Message::Other
        }
    } else if args.len() == 1 && str_eq(args[0], "segments-fetched") {
        Message::SegmentsFetched
    } else {
        Message::Other
    }
}

/// What is to happen to the reports of position and mute flag.
#[derive(Debug, Copy, Clone, PartialEq, Eq, Structural)]
pub enum Watch {
    /// Nothing changes.
    Keep,
    /// The player is to report them from now on.
    Start,
    /// The player is to report them no longer.
    Stop,
}

/// The answer of the plugin to a message or to the end of a file.
#[derive(Debug, PartialEq)]
pub struct Reaction {
    /// What the player is to do.
    pub command: Command,
    /// What is to happen to the reports of position and mute flag.
    pub watch: Watch,
}

/// Where the plugin stands with the file that the player plays.
#[derive(Debug, Copy, Clone, PartialEq, Eq, Structural)]
pub enum Phase {
    /// No video is loaded.
    Idle,
    /// A video is loaded and the lookup of its segments is in flight.
    Loading,
    /// A video is loaded and the lookup has ended, with segments or without.
    Active,
}

/// What the start of a file leads to.
#[derive(Debug, PartialEq)]
pub struct Loading {
    /// What the player is to do to clear what the file before has left.
    pub reaction: Reaction,
    /// What is to be done for the worker.
    pub action: WorkerAction,
}

/// The plugin as a mathematical value.
pub struct ClientView {
    pub handler: HandlerView,
    /// Whether position and mute flag are reported.
    pub enabled: bool,
    /// Whether the user wants the plugin to act.
    pub wanted: bool,
    /// Whether a video is loaded.
    pub loaded: bool,
}

impl ClientView {
    /// Where the plugin stands, given what the worker knows.
    pub open spec fn phase(self, worker: WorkerView) -> Phase {
        if !self.loaded {
            Phase::Idle
        } else if worker.state is Pending {
            Phase::Loading
        } else {
            Phase::Active
        }
    }

    /// Whether `command` tells the user what is known of the video while the
    /// position is `time`: the first [`INFO_LIMIT`] skips and the first
    /// [`INFO_LIMIT`] mutes that start at `time` or later, the highlight, the
    /// category of the whole video, and whether the plugin acts.
    pub open spec fn informs(self, worker: WorkerView, time: int, command: Command) -> bool {
        command matches Command::Info { skips, mutes, highlight, label, enabled } && {
            &&& skips@ == at_most(starting_from(worker.skippable(), time), INFO_LIMIT as int)
            &&& mutes@ == at_most(starting_from(worker.mutable(), time), INFO_LIMIT as int)
            &&& highlight == worker.highlight()
            &&& label == worker.label()
            &&& enabled == self.enabled
        }
    }

    /// The plugin after a file has ended or before the next begins: it is in
    /// no segment, owns no mute and does not act, and the sound is switched
    /// back on if the mute was the plugin's own.
    pub open spec fn unloaded(self) -> (ClientView, Reaction) {
        (
            ClientView {
                handler: self.handler.left().0,
                enabled: false,
                wanted: self.wanted,
                loaded: false,
            },
            Reaction { command: self.handler.left().1, watch: self.disabled_now().1 },
        )
    }

    /// The plugin starts to act if it does not yet, the user wants it to, and
    /// segments are there.
    pub open spec fn enabled_now(self, fetched: bool) -> (ClientView, Watch) {
        if !self.enabled && self.wanted && fetched {
            (ClientView { enabled: true, ..self }, Watch::Start)
        } else {
            (self, Watch::Keep)
        }
    }

    /// The plugin stops acting if it acts.
    pub open spec fn disabled_now(self) -> (ClientView, Watch) {
        if self.enabled {
            (ClientView { enabled: false, ..self }, Watch::Stop)
        } else {
            (self, Watch::Keep)
        }
    }

    /// The user turns the plugin on if it was off, and off if it was on.
    pub open spec fn toggled(self, fetched: bool) -> (ClientView, Watch) {
        let turned = ClientView { wanted: !self.wanted, ..self };
        if turned.wanted {
            turned.enabled_now(fetched)
        } else {
            turned.disabled_now()
        }
    }
}

/// No mute of the plugin outlasts a file: at the end of a file and at the
/// start of the next the plugin is idle, acts no longer and owns no mute, and
/// the sound was switched back on if and only if the mute was the plugin's
/// own.
pub proof fn lemma_no_mute_across_files(client: ClientView, worker: WorkerView)
    requires
        client.handler.wf(),
    ensures
        ({
            let (after, reaction) = client.unloaded();
            &&& after.phase(worker) == Phase::Idle
            &&& !after.enabled
            &&& !after.handler.owned
            &&& after.handler.active is None
            &&& reaction.command == if client.handler.owned {
                Command::Unmute
            } else {
                Command::Idle
            }
            &&& reaction.watch == if client.enabled {
                Watch::Stop
            } else {
                Watch::Keep
            }
        }),
{
}

/// The plugin acts only while the user wants it to: every turn of the switch
/// and every arrival of segments keeps it so.
pub proof fn lemma_acts_only_if_wanted(client: ClientView, fetched: bool)
    requires
        client.enabled ==> client.wanted,
    ensures
        ({
            let after = client.enabled_now(fetched).0;
            after.enabled ==> after.wanted
        }),
        ({
            let after = client.toggled(fetched).0;
            after.enabled ==> after.wanted
        }),
        ({
            let after = client.disabled_now().0;
            !after.enabled
        }),
{
}

/// The plugin: the handler of the player's reports and the switch of the user.
#[derive(Debug)]
pub struct Client {
    pub handler: EventHandler,
    /// Whether position and mute flag are reported.
    pub is_enabled: bool,
    /// Whether the user wants the plugin to act.
    pub user_toggle: bool,
    /// Whether a video is loaded.
    pub loaded: bool,
}

impl View for Client {
    type V = ClientView;

    open spec fn view(&self) -> ClientView {
        ClientView {
            handler: self.handler@,
            enabled: self.is_enabled,
            wanted: self.user_toggle,
            loaded: self.loaded,
        }
    }
}

impl Client {
    /// A plugin that the user wants to act and that does not act yet.
    pub fn new() -> (client: Self)
        ensures
            client@ == (ClientView {
                handler: HandlerView { active: None, owned: false },
                enabled: false,
                wanted: true,
                loaded: false,
            }),
    {
        Client { handler: EventHandler::new(), is_enabled: false, user_toggle: true, loaded: false }
    }

    /// Where the plugin stands with the file that the player plays.
    pub fn phase(&self, worker: &Worker) -> (phase: Phase)
        ensures
            phase == self@.phase(worker@),
    {
        if !self.loaded {
            Phase::Idle
        } else if worker.is_pending() {
            Phase::Loading
        } else {
            Phase::Active
        }
    }

    /// Starts to act if the user wants it and segments are there.
    pub fn enable(&mut self, worker: &Worker) -> (watch: Watch)
        ensures
            (final(self)@, watch) == old(self)@.enabled_now(worker@.fetched()),
    {
        if !self.is_enabled && self.user_toggle && worker.fetched() {
            self.is_enabled = true;
            Watch::Start
        } else {
            Watch::Keep
        }
    }

    /// Stops acting.
    pub fn disable(&mut self) -> (watch: Watch)
        ensures
            (final(self)@, watch) == old(self)@.disabled_now(),
    {
        if self.is_enabled {
            self.is_enabled = false;
            Watch::Stop
        } else {
            Watch::Keep
        }
    }

    /// The position of the player changed.
    pub fn time_change(&mut self, worker: &Worker, time_pos: i64, muted: bool) -> (command:
        Command)
        ensures
            (final(self)@.handler, command) == old(self)@.handler.time_changed(
                worker@,
                time_pos as int,
                muted,
            ),
            final(self)@.enabled == old(self)@.enabled,
            final(self)@.wanted == old(self)@.wanted,
            final(self)@.loaded == old(self)@.loaded,
    {
        self.handler.time_change(worker, time_pos, muted)
    }

    /// The mute flag of the player changed.
    pub fn mute_change(&mut self, mute: bool)
        ensures
            final(self)@ == (ClientView {
                handler: old(self)@.handler.mute_changed(mute),
                ..old(self)@
            }),
    {
        self.handler.mute_change(mute);
    }

    /// The user turned the plugin on or off.  The command tells the user
    /// which.
    pub fn toggle_requested(&mut self, worker: &Worker) -> (reaction: Reaction)
        ensures
            (final(self)@, reaction.watch) == old(self)@.toggled(worker@.fetched()),
            reaction.command == Command::Toggled(!old(self)@.wanted),
    {
        self.user_toggle = !self.user_toggle;
        let watch = if self.user_toggle {
            self.enable(worker)
        } else {
            self.disable()
        };
        Reaction { command: Command::Toggled(self.user_toggle), watch }
    }

    /// The worker said that segments are there: the plugin starts to act, and
    /// the user is told if the whole video carries a category.
    pub fn segments_fetched(&mut self, worker: &Worker) -> (reaction: Reaction)
        ensures
            (final(self)@, reaction.watch) == old(self)@.enabled_now(worker@.fetched()),
            reaction.command == show_label(worker@.label()),
    {
        let watch = self.enable(worker);
        Reaction { command: self.handler.segments_fetched(worker), watch }
    }

    /// The user asked what is known of the video while the position is
    /// `time_pos`.
    pub fn info_requested(&self, worker: &Worker, time_pos: i64) -> (command: Command)
        ensures
            self@.informs(worker@, time_pos as int, command),
    {
        Command::Info {
            skips: worker.upcoming_skips(time_pos, INFO_LIMIT),
            mutes: worker.upcoming_mutes(time_pos, INFO_LIMIT),
            highlight: worker.get_video_poi(),
            label: worker.get_video_category(),
            enabled: self.is_enabled,
        }
    }

    /// A message came for the plugin.
    pub fn client_message(&mut self, worker: &Worker, args: &[&str], time_pos: i64) -> (reaction:
        Reaction)
        ensures
            match message_of(words(args@)) {
                Message::Info => {
                    &&& final(self)@ == old(self)@
                    &&& reaction.watch == Watch::Keep
                    &&& old(self)@.informs(worker@, time_pos as int, reaction.command)
                },
                Message::Poi => {
                    &&& final(self)@ == old(self)@
                    &&& reaction.watch == Watch::Keep
                    &&& reaction.command == jump_to(worker@.highlight())
                },
                Message::Toggle => {
                    &&& (final(self)@, reaction.watch) == old(self)@.toggled(worker@.fetched())
                    &&& reaction.command == Command::Toggled(!old(self)@.wanted)
                },
                Message::SegmentsFetched => {
                    &&& (final(self)@, reaction.watch) == old(self)@.enabled_now(
                        worker@.fetched(),
                    )
                    &&& reaction.command == show_label(worker@.label())
                },
                Message::Other => {
                    &&& final(self)@ == old(self)@
                    &&& reaction.watch == Watch::Keep
                    &&& reaction.command == Command::Idle
                },
            },
    {
        match parse_message(args) {
            Message::Info => Reaction {
                command: self.info_requested(worker, time_pos),
                watch: Watch::Keep,
            },
            Message::Poi => Reaction {
                command: self.handler.poi_requested(worker),
                watch: Watch::Keep,
            },
            Message::Toggle => self.toggle_requested(worker),
            Message::SegmentsFetched => self.segments_fetched(worker),
            Message::Other => Reaction { command: Command::Idle, watch: Watch::Keep },
        }
    }

    /// A file begins at `path`.  Whatever the file before has left is cleared
    /// as at its end, and the lookup that was running is dropped.  If the path
    /// is the address of a video, the lookup of its segments starts.
    pub fn start_file(
        &mut self,
        worker: &mut Worker,
        cache: &mut ResultCache,
        config: &Config,
        path: String,
    ) -> (loading: Loading)
        ensures
            final(self)@ == (ClientView {
                loaded: found_in(config.youtube_regex@, path@) is Some,
                ..old(self)@.unloaded().0
            }),
            loading.reaction == old(self)@.unloaded().1,
            handled(
                old(worker)@,
                old(cache)@,
                *config,
                WorkerEvent::Path(path),
                final(worker)@,
                final(cache)@,
                loading.action,
            ),
    {
        let watch = self.disable();
        let command = self.handler.reset();
        let action = match config.get_youtube_id(path.as_str()) {
            None => {
                worker.stop();
                self.loaded = false;
                WorkerAction::Wait
            },
            Some(id) => {
                self.loaded = true;
                worker.load(cache, config, id)
            },
        };
        Loading { reaction: Reaction { command, watch }, action }
    }

    /// The file ended: the lookup is cancelled, the plugin stops acting, and a
    /// mute that is its own is lifted.
    pub fn end_file(&mut self, worker: &mut Worker) -> (reaction: Reaction)
        ensures
            (final(self)@, reaction) == old(self)@.unloaded(),
            final(worker)@ == old(worker)@.stopped(),
    {
        worker.stop();
        let watch = self.disable();
        self.loaded = false;
        Reaction { command: self.handler.reset(), watch }
    }
}

} // verus!
