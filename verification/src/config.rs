//! The settings of the plugin.

use vstd::prelude::*;
use crate::action::Action;
use crate::category::Category;
use crate::text::text_of;
use crate::utils::{
    escape_pattern, find_first_group, found_in, is_pattern, literal_pattern, pattern_compiles,
    YOUTUBE_PATTERN,
};

verus! {

/// The address of the public segment service.
pub const SB_ADDRESS: &'static str = "https://sponsor.ajay.app";

/// The host names of YouTube, as a pattern.
pub const YT_PATTERN_LONG: &'static str = "(?:www\\.|m\\.|)youtube\\.com";

/// The host names of YouTube's short addresses, as a pattern.
pub const YT_PATTERN_SHORT: &'static str = "(?:www\\.|)youtu\\.be";

/// What stands before the host names in the pattern of a video address.
pub const PATTERN_HEAD: &'static str = "https?://(?:";

/// What stands behind the host names in the pattern of a video address: the
/// rest of the address, and the group that captures the identifier.
pub const PATTERN_TAIL: &'static str = ").*(?:/|%3D|v=|vi=)([0-9A-z-_]{11})(?:[%#?&]|$)";

/// Why settings were refused.
#[derive(Debug, Copy, Clone, PartialEq, Eq, Structural)]
pub enum ConfigError {
    /// The host names do not make a regular expression.
    InvalidPattern,
}

/// The parts of `parts` with `separator` between each two of them.
pub open spec fn joined(parts: Seq<Seq<char>>, separator: Seq<char>) -> Seq<char>
    decreases parts.len(),
{
    if parts.len() == 0 {
        Seq::empty()
    } else if parts.len() == 1 {
        parts[0]
    } else {
        joined(parts.drop_last(), separator) + separator + parts.last()
    }
}

/// The pattern of the addresses of videos on the hosts that the patterns in
/// `hosts` describe.
pub open spec fn domains_pattern(hosts: Seq<Seq<char>>) -> Seq<char> {
    PATTERN_HEAD@ + joined(hosts, "|"@) + PATTERN_TAIL@
}

/// The two patterns of YouTube's own host names.
pub open spec fn youtube_hosts() -> Seq<Seq<char>> {
    seq![YT_PATTERN_LONG@, YT_PATTERN_SHORT@]
}

/// The host patterns for YouTube and for the further domains `domains`, each
/// of which is taken literally.
pub open spec fn host_patterns(domains: Seq<Seq<char>>) -> Seq<Seq<char>> {
    youtube_hosts() + Seq::new(domains.len(), |i: int| literal_pattern(domains[i]))
}

/// `s` without the elements that occurred before.
pub open spec fn distinct(s: Seq<Category>) -> Seq<Category>
    decreases s.len(),
{
    if s.len() == 0 {
        Seq::empty()
    } else {
        let before = distinct(s.drop_last());
        if before.contains(s.last()) {
            before
        } else {
            before.push(s.last())
        }
    }
}

/// The actions that are asked of the service: skips, highlights and labels
/// always, mutes if `mute` is set.
pub open spec fn actions_with(mute: bool) -> Seq<Action> {
    if mute {
        seq![Action::Skip, Action::Mute, Action::Full, Action::Poi]
    } else {
        seq![Action::Skip, Action::Full, Action::Poi]
    }
}

/// [`distinct`] keeps exactly the elements of the sequence, each once.
pub proof fn lemma_distinct(s: Seq<Category>)
    ensures
        distinct(s).no_duplicates(),
        forall|c: Category| distinct(s).contains(c) <==> s.contains(c),
    decreases s.len(),
{
    if s.len() > 0 {
        let rest = s.drop_last();
        let last = s.last();
        lemma_distinct(rest);
        let before = distinct(rest);
        let all = distinct(s);
        assert forall|c: Category| s.contains(c) <==> (rest.contains(c) || c == last) by {
            if s.contains(c) {
                let i = choose|i: int| 0 <= i < s.len() && s[i] == c;
                if i < rest.len() {
                    assert(rest[i] == c);
                }
            }
            if rest.contains(c) {
                let i = choose|i: int| 0 <= i < rest.len() && rest[i] == c;
                assert(s[i] == c);
            }
            if c == last {
                assert(s[s.len() - 1] == c);
            }
        }
        assert forall|c: Category| all.contains(c) <==> (before.contains(c) || c == last) by {
            if !before.contains(last) {
                if all.contains(c) {
                    let j = choose|j: int| 0 <= j < all.len() && all[j] == c;
                    if j < before.len() {
                        assert(before[j] == c);
                    }
                }
                if before.contains(c) {
                    let j = choose|j: int| 0 <= j < before.len() && before[j] == c;
                    assert(all[j] == c);
                }
                if c == last {
                    assert(all[before.len() as int] == c);
                }
            }
        }
        assert forall|c: Category| all.contains(c) <==> s.contains(c) by {
            assert(before.contains(c) <==> rest.contains(c));
        }
        if !before.contains(last) {
            assert forall|i: int, j: int| 0 <= i < all.len() && 0 <= j < all.len() && i != j implies all[i] != all[j] by {
                if i == before.len() {
                    assert(before[j] == all[j]);
                    assert(before.contains(all[j]));
                } else if j == before.len() {
                    assert(before[i] == all[i]);
                    assert(before.contains(all[i]));
                } else {
                    assert(before[i] == all[i] && before[j] == all[j]);
                }
            }
        }
    }
}

/// With no further domains the pattern of video addresses is the one with
/// which [`crate::utils::get_youtube_id`] searches.
pub proof fn lemma_default_pattern()
    ensures
        domains_pattern(youtube_hosts()) == YOUTUBE_PATTERN@,
{
    let hosts = youtube_hosts();
    assert(hosts.drop_last() =~= seq![YT_PATTERN_LONG@]);
    assert(joined(hosts.drop_last(), "|"@) == YT_PATTERN_LONG@);
    assert(joined(hosts, "|"@) == YT_PATTERN_LONG@ + "|"@ + YT_PATTERN_SHORT@);
    reveal_strlit("https?://(?:");
    reveal_strlit("(?:www\\.|m\\.|)youtube\\.com");
    reveal_strlit("|");
    reveal_strlit("(?:www\\.|)youtu\\.be");
    reveal_strlit(").*(?:/|%3D|v=|vi=)([0-9A-z-_]{11})(?:[%#?&]|$)");
    reveal_strlit(
        "https?://(?:(?:www\\.|m\\.|)youtube\\.com|(?:www\\.|)youtu\\.be).*(?:/|%3D|v=|vi=)([0-9A-z-_]{11})(?:[%#?&]|$)",
    );
    assert(domains_pattern(hosts) =~= YOUTUBE_PATTERN@);
}

/// The default of a switch that is on unless the settings say otherwise.
pub fn default_as_true() -> (on: bool)
    ensures
        on,
{
    true
}

/// The address of the segment service that is used unless the settings name
/// another.
pub fn default_server() -> (address: String)
    ensures
        address@ == SB_ADDRESS@,
{
    String::from_str(SB_ADDRESS)
}

/// Builds the pattern of video addresses from the patterns of the hosts, and
/// has the engine check it.
pub fn build_domains_regex(patterns: &Vec<String>) -> (built: Result<String, ConfigError>)
    requires
        patterns@.len() > 0,
    ensures
        match built {
            Ok(pattern) => pattern@ == domains_pattern(patterns.deep_view()) && is_pattern(
                pattern@,
            ),
            Err(e) => e == ConfigError::InvalidPattern && !is_pattern(
                domains_pattern(patterns.deep_view()),
            ),
        },
{
    let ghost hosts = patterns.deep_view();
    let mut pattern = String::from_str(PATTERN_HEAD);
    pattern.append(patterns[0].as_str());
    let n = patterns.len();
    let mut i: usize = 1;
    proof {
        assert(hosts.take(1) =~= seq![hosts[0]]);
        assert(joined(hosts.take(1), "|"@) == hosts[0]);
    }
    while i < n
        invariant
            1 <= i <= n,
            n == patterns@.len(),
            hosts == patterns.deep_view(),
            pattern@ == PATTERN_HEAD@ + joined(hosts.take(i as int), "|"@),
        decreases n - i,
    {
        pattern.append("|");
        pattern.append(patterns[i].as_str());
        proof {
            assert(hosts.take(i + 1).drop_last() =~= hosts.take(i as int));
            assert(hosts.take(i + 1).last() == patterns@[i as int]@);
            assert(pattern@ =~= PATTERN_HEAD@ + joined(hosts.take(i + 1), "|"@));
        }
        i = i + 1;
    }
    pattern.append(PATTERN_TAIL);
    proof {
        assert(hosts.take(n as int) =~= hosts);
    }
    if pattern_compiles(pattern.as_str()) {
        Ok(pattern)
    } else {
        Err(ConfigError::InvalidPattern)
    }
}

/// The host patterns for YouTube and for the further domains, each of which is
/// escaped so that it is taken literally.
pub fn domain_patterns(domains: &Vec<String>) -> (patterns: Vec<String>)
    ensures
        patterns.deep_view() == host_patterns(domains.deep_view()),
{
    let mut patterns: Vec<String> = Vec::new();
    patterns.push(String::from_str(YT_PATTERN_LONG));
    patterns.push(String::from_str(YT_PATTERN_SHORT));
    let n = domains.len();
    let mut i: usize = 0;
    while i < n
        invariant
            i <= n,
            n == domains@.len(),
            patterns@.len() == 2 + i,
            patterns@[0]@ == YT_PATTERN_LONG@,
            patterns@[1]@ == YT_PATTERN_SHORT@,
            forall|j: int| 0 <= j < i ==> (#[trigger] patterns@[2 + j])@ == literal_pattern(domains@[j]@),
        decreases n - i,
    {
        patterns.push(escape_pattern(domains[i].as_str()));
        i = i + 1;
    }
    proof {
        assert(patterns.deep_view() =~= host_patterns(domains.deep_view())) by {
            assert forall|k: int| 0 <= k < patterns@.len() implies patterns.deep_view()[k]
                == host_patterns(domains.deep_view())[k] by {
                if k >= 2 {
                    assert(patterns@[2 + (k - 2)]@ == literal_pattern(domains@[k - 2]@));
                }
            }
        }
    }
    patterns
}

/// The pattern of video addresses on YouTube and on the further domains.
pub fn from_domains(domains: &Vec<String>) -> (built: Result<String, ConfigError>)
    ensures
        match built {
            Ok(pattern) => pattern@ == domains_pattern(host_patterns(domains.deep_view()))
                && is_pattern(pattern@),
            Err(e) => e == ConfigError::InvalidPattern && !is_pattern(
                domains_pattern(host_patterns(domains.deep_view())),
            ),
        },
{
    let patterns = domain_patterns(domains);
    build_domains_regex(&patterns)
}

/// The pattern of video addresses on YouTube alone.
pub fn default_domains_regex() -> (pattern: String)
    ensures
        pattern@ == domains_pattern(youtube_hosts()),
{
    let mut pattern = String::from_str(PATTERN_HEAD);
    pattern.append(YT_PATTERN_LONG);
    pattern.append("|");
    pattern.append(YT_PATTERN_SHORT);
    pattern.append(PATTERN_TAIL);
    proof {
        let hosts = youtube_hosts();
        assert(hosts.drop_last() =~= seq![YT_PATTERN_LONG@]);
        assert(joined(hosts.drop_last(), "|"@) == YT_PATTERN_LONG@);
        assert(joined(hosts, "|"@) == YT_PATTERN_LONG@ + "|"@ + YT_PATTERN_SHORT@);
        assert(pattern@ =~= domains_pattern(hosts));
    }
    pattern
}

/// The actions that are asked of the service.
pub fn action_types(mute: bool) -> (actions: Vec<Action>)
    ensures
        actions@ == actions_with(mute),
{
    let mut actions: Vec<Action> = Vec::new();
    actions.push(Action::Skip);
    if mute {
        actions.push(Action::Mute);
    }
    actions.push(Action::Full);
    actions.push(Action::Poi);
    proof {
        assert(actions@ =~= actions_with(mute));
    }
    actions
}

/// Whether `category` is among `list`.
pub fn has_category(list: &Vec<Category>, category: Category) -> (found: bool)
    ensures
        found == list@.contains(category),
{
    let n = list.len();
    let mut i: usize = 0;
    while i < n
        invariant
            i <= n,
            n == list@.len(),
            forall|j: int| 0 <= j < i ==> list@[j] != category,
        decreases n - i,
    {
        if list[i] == category {
            return true;
        }
        i = i + 1;
    }
    false
}

/// The categories of `list`, each once, in the order of their first
/// occurrence.
pub fn category_set(list: &Vec<Category>) -> (set: Vec<Category>)
    ensures
        set@ == distinct(list@),
        set@.no_duplicates(),
        forall|c: Category| set@.contains(c) <==> list@.contains(c),
{
    let mut set: Vec<Category> = Vec::new();
    let n = list.len();
    let mut i: usize = 0;
    while i < n
        invariant
            i <= n,
            n == list@.len(),
            set@ == distinct(list@.take(i as int)),
        decreases n - i,
    {
        proof {
            assert(list@.take(i + 1).drop_last() =~= list@.take(i as int));
        }
        if !has_category(&set, list[i]) {
            set.push(list[i]);
        }
        i = i + 1;
    }
    proof {
        assert(list@.take(n as int) =~= list@);
        lemma_distinct(list@);
    }
    set
}

/// The settings of the plugin.
#[derive(Debug)]
pub struct Config {
    /// The address of the segment service.
    pub server_address: String,
    /// The categories asked of the service; none occurs twice.
    pub categories: Vec<Category>,
    /// The actions asked of the service.
    pub action_types: Vec<Action>,
    /// Whether the service is asked by a prefix of the hash of the video's
    /// identifier, so that it does not learn which video plays.
    pub privacy_api: bool,
    /// The pattern that finds the identifier of a video in its address.
    pub youtube_regex: String,
    /// Whether the user is told of every skip and mute.
    pub skip_notice: bool,
}

impl Config {
    /// Whether no category is set twice.
    pub open spec fn wf(self) -> bool {
        self.categories@.no_duplicates()
    }

    /// The settings that are used where none are given: the public service, no
    /// categories or actions, no privacy, YouTube's own hosts, no notices.
    pub fn default() -> (config: Self)
        ensures
            config.wf(),
            config.server_address@ == SB_ADDRESS@,
            config.categories@.len() == 0,
            config.action_types@.len() == 0,
            !config.privacy_api,
            config.youtube_regex@ == domains_pattern(youtube_hosts()),
            !config.skip_notice,
    {
        Config {
            server_address: default_server(),
            categories: Vec::new(),
            action_types: Vec::new(),
            privacy_api: false,
            youtube_regex: default_domains_regex(),
            skip_notice: false,
        }
    }

    /// Settings from what a settings file holds.  Categories that are given
    /// twice count once; mutes are asked of the service only if `mute` is set;
    /// videos are recognised on YouTube and on the further `domains`.
    pub fn new(
        server_address: String,
        categories: &Vec<Category>,
        mute: bool,
        privacy_api: bool,
        domains: &Vec<String>,
        skip_notice: bool,
    ) -> (built: Result<Self, ConfigError>)
        ensures
            match built {
                Ok(config) => {
                    &&& config.wf()
                    &&& config.server_address == server_address
                    &&& config.categories@ == distinct(categories@)
                    &&& config.action_types@ == actions_with(mute)
                    &&& config.privacy_api == privacy_api
                    &&& config.youtube_regex@ == domains_pattern(
                        host_patterns(domains.deep_view()),
                    )
                    &&& is_pattern(config.youtube_regex@)
                    &&& config.skip_notice == skip_notice
                },
                Err(e) => e == ConfigError::InvalidPattern && !is_pattern(
                    domains_pattern(host_patterns(domains.deep_view())),
                ),
            },
    {
        match from_domains(domains) {
            Ok(youtube_regex) => Ok(
                Config {
                    server_address,
                    categories: category_set(categories),
                    action_types: action_types(mute),
                    privacy_api,
                    youtube_regex,
                    skip_notice,
                },
            ),
            Err(e) => Err(e),
        }
    }

    /// The identifier of the video at `path`, if the path is the address of a
    /// video on one of the hosts of these settings.
    pub fn get_youtube_id(&self, path: &str) -> (id: Option<String>)
        ensures
            text_of(id) == found_in(self.youtube_regex@, path@),
    {
        find_first_group(self.youtube_regex.as_str(), path)
    }
}

} // verus!
