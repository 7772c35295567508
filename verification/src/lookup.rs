//! Requests to the segment service and what comes back from it.

use vstd::prelude::*;
use crate::action::Action;
use crate::cache::{kept, CacheView, ResultCache};
use crate::category::Category;
use crate::config::Config;
use crate::segment::{Segment, Segments};
use crate::text::text_of;

verus! {

/// The path of the segments of a video on the service.
pub const SEGMENTS_PATH: &'static str = "/api/skipSegments";

/// The path under which the service answers to prefixes of hashes.
pub const SEGMENTS_DIR: &'static str = "/api/skipSegments/";

/// How many characters of the hash of a video's identifier the service is
/// shown.
pub const HASH_PREFIX_LEN: usize = 4;

/// The status with which the segment service says that it knows no segment of
/// a video.
pub const STATUS_NOT_FOUND: u16 = 404;

/// Why a lookup gave no segments.
#[derive(Debug, PartialEq)]
pub enum LookupError {
    /// The service knows no segment of the video.
    NotFound,
    /// The request failed on the way or the service refused it.
    Transient(String),
    /// The answer could not be read.
    Malformed(String),
    /// The lookup was given up before it ended.
    Cancelled,
}

impl LookupError {
    /// The error that a failed request stands for: a status of
    /// [`STATUS_NOT_FOUND`] means that no segments are known, an answer that
    /// could not be decoded is malformed, and everything else is transient.
    pub open spec fn classified(
        status: Option<u16>,
        undecodable: bool,
        description: String,
    ) -> LookupError {
        if status == Some(STATUS_NOT_FOUND) {
            LookupError::NotFound
        } else if undecodable {
            LookupError::Malformed(description)
        } else {
            LookupError::Transient(description)
        }
    }

    /// Classifies a failed request by the status of the answer, if one came,
    /// and by whether decoding the answer was what failed.
    pub fn classify(status: Option<u16>, undecodable: bool, description: String) -> (error:
        LookupError)
        ensures
            error == LookupError::classified(status, undecodable, description),
    {
        match status {
            Some(code) if code == STATUS_NOT_FOUND => LookupError::NotFound,
            _ => if undecodable {
                LookupError::Malformed(description)
            } else {
                LookupError::Transient(description)
            },
        }
    }

    /// Whether the error is the ordinary answer for a video without segments.
    pub fn is_benign(&self) -> (benign: bool)
        ensures
            benign == (*self is NotFound),
    {
        match self {
            LookupError::NotFound => true,
            _ => false,
        }
    }
}

/// The address that the reference `reference` stands for when it is found in
/// a document at the address `base`; `None` if `base` is no absolute address
/// or the reference cannot be resolved against it.
pub uninterp spec fn resolved(base: Seq<char>, reference: Seq<char>) -> Option<Seq<char>>;

/// `text` as it is written in a query string: its UTF-8 bytes in the
/// `application/x-www-form-urlencoded` byte serialisation.
pub uninterp spec fn form_encoded(text: Seq<char>) -> Seq<char>;

/// The SHA-256 digest of `data`.
pub uninterp spec fn sha256(data: Seq<u8>) -> Seq<u8>;

/// The hexadecimal digit for `d`, in lower case.
pub open spec fn hex_digit(d: int) -> char {
    "0123456789abcdef"@[d]
}

/// `data` in hexadecimal: two lower-case digits for each byte, the high half
/// first.
pub open spec fn hex_lower(data: Seq<u8>) -> Seq<char> {
    Seq::new(
        2 * data.len(),
        |i: int|
            hex_digit(
                if i % 2 == 0 {
                    data[i / 2] as int / 16
                } else {
                    data[i / 2] as int % 16
                },
            ),
    )
}

/// The query `query` with the pair of `name` and `value` added to it.
pub open spec fn with_pair(query: Seq<char>, name: Seq<char>, value: Seq<char>) -> Seq<char> {
    (if query.len() > 0 {
        query + seq!['&']
    } else {
        query
    }) + form_encoded(name) + seq!['='] + form_encoded(value)
}

/// The query `query` with one `category` pair added for each category.
pub open spec fn with_categories(query: Seq<char>, categories: Seq<Category>) -> Seq<char>
    decreases categories.len(),
{
    if categories.len() == 0 {
        query
    } else {
        with_pair(
            with_categories(query, categories.drop_last()),
            "category"@,
            categories.last().name(),
        )
    }
}

/// The query `query` with one `actionType` pair added for each action.
pub open spec fn with_actions(query: Seq<char>, actions: Seq<Action>) -> Seq<char>
    decreases actions.len(),
{
    if actions.len() == 0 {
        query
    } else {
        with_pair(with_actions(query, actions.drop_last()), "actionType"@, actions.last().name())
    }
}

/// The query that asks for the segments of the video `id`.
pub open spec fn direct_query(id: Seq<char>, categories: Seq<Category>, actions: Seq<Action>) -> Seq<
    char,
> {
    with_actions(with_categories(with_pair(Seq::empty(), "videoID"@, id), categories), actions)
}

/// The query that asks for the segments of all videos under a prefix.
pub open spec fn private_query(categories: Seq<Category>, actions: Seq<Action>) -> Seq<char> {
    with_actions(with_categories(Seq::empty(), categories), actions)
}

/// The address `endpoint` with the query `query`.
pub open spec fn with_query(endpoint: Option<Seq<char>>, query: Seq<char>) -> Option<Seq<char>> {
    match endpoint {
        Some(address) => Some(address + seq!['?'] + query),
        None => None,
    }
}

/// The address at which the service `server` is asked for the segments of
/// the video `id`; `None` if `server` is no address.
pub open spec fn direct_address(
    server: Seq<char>,
    id: Seq<char>,
    categories: Seq<Category>,
    actions: Seq<Action>,
) -> Option<Seq<char>> {
    with_query(resolved(server, SEGMENTS_PATH@), direct_query(id, categories, actions))
}

/// The digest by which the service knows the video `id`.
pub open spec fn video_hash(id: Seq<char>) -> Seq<u8> {
    sha256(vstd::utf8::encode_utf8(id))
}

/// The part of the digest of `id` that the service is shown.
pub open spec fn hash_prefix(id: Seq<char>) -> Seq<char> {
    hex_lower(video_hash(id)).take(HASH_PREFIX_LEN as int)
}

/// The address at which the service `server` is asked for the segments of
/// all videos that share the hash prefix of the video `id`; `None` if
/// `server` is no address.
pub open spec fn private_address(
    server: Seq<char>,
    id: Seq<char>,
    categories: Seq<Category>,
    actions: Seq<Action>,
) -> Option<Seq<char>> {
    match resolved(server, SEGMENTS_DIR@) {
        Some(dir) => with_query(
            resolved(dir, hash_prefix(id)),
            private_query(categories, actions),
        ),
        None => None,
    }
}

/// A request by hash prefix shows the service nothing of the video but the
/// prefix of its hash: two videos whose hashes begin alike are asked for at
/// the same address.
pub proof fn lemma_private_request_shows_prefix_only(
    server: Seq<char>,
    id: Seq<char>,
    other: Seq<char>,
    categories: Seq<Category>,
    actions: Seq<Action>,
)
    requires
        hash_prefix(id) == hash_prefix(other),
    ensures
        private_address(server, id, categories, actions) == private_address(
            server,
            other,
            categories,
            actions,
        ),
{
}

/// Resolves a reference against a base address.
///
/// Trusted: calls `url::Url::parse` on `base` and `Url::join` on the result,
/// and hands out the text of the joined address.  The contract only names
/// the result, and `None` stands for an error of either call.
#[verifier::external_body]
fn resolve(base: &str, reference: &str) -> (address: Option<String>)
    ensures
        text_of(address) == resolved(base@, reference@),
{
    let base = url::Url::parse(base).ok()?;
    base.join(reference).ok().map(String::from)
}

/// Adds a pair to a query string.
///
/// Trusted: calls `Serializer::new`, `append_pair` and `finish` of
/// `url::form_urlencoded`.  As the source shows, `&` is written first if the
/// query is not empty, then the encoded name, `=` and the encoded value; the
/// encoding itself is only named.
#[verifier::external_body]
fn append_pair(query: String, name: &str, value: &str) -> (extended: String)
    ensures
        extended@ == (if query@.len() > 0 {
            query@ + seq!['&']
        } else {
            query@
        }) + form_encoded(name@) + seq!['='] + form_encoded(value@),
{
    url::form_urlencoded::Serializer::new(query).append_pair(name, value).finish()
}

/// The SHA-256 digest of `data`.
///
/// Trusted: feeds `data` to a fresh `sha2::Sha256` and takes the digest.  The
/// contract only names the result, which is 32 bytes by its type.
#[verifier::external_body]
fn sha256_digest(data: &[u8]) -> (digest: [u8; 32])
    ensures
        digest@ == sha256(data@),
{
    let mut hasher = <sha2::Sha256 as sha2::Digest>::new();
    sha2::Digest::update(&mut hasher, data);
    sha2::Digest::finalize(hasher).into()
}

/// `data` in hexadecimal.
///
/// Trusted: calls `hex::encode`, which writes two lower-case digits for each
/// byte, the high half first.
#[verifier::external_body]
fn hex_encode(data: &[u8]) -> (text: String)
    ensures
        text@ == hex_lower(data@),
{
    hex::encode(data)
}

/// The digest by which the service knows the video `id`.
pub fn hash_video_id(id: &str) -> (digest: [u8; 32])
    ensures
        digest@ == video_hash(id@),
{
    sha256_digest(id.as_bytes())
}

/// The part of the digest of `id` that the service is shown: the first
/// [`HASH_PREFIX_LEN`] characters of the digest in hexadecimal.
pub fn hash_prefix_of(id: &str) -> (prefix: String)
    ensures
        prefix@ == hash_prefix(id@),
        prefix@.len() == HASH_PREFIX_LEN,
{
    let digest = hash_video_id(id);
    let text = hex_encode(digest.as_slice());
    proof {
        assert(digest@.len() == 32);
    }
    String::from_str(text.as_str().substring_char(0, HASH_PREFIX_LEN))
}

/// Adds one `category` pair for each category to the query.
fn append_categories(query: String, categories: &Vec<Category>) -> (extended: String)
    ensures
        extended@ == with_categories(query@, categories@),
{
    let ghost start = query@;
    let mut query = query;
    let n = categories.len();
    let mut i: usize = 0;
    while i < n
        invariant
            i <= n,
            n == categories@.len(),
            query@ == with_categories(start, categories@.take(i as int)),
        decreases n - i,
    {
        proof {
            assert(categories@.take(i + 1).drop_last() =~= categories@.take(i as int));
        }
        query = append_pair(query, "category", categories[i].as_str());
        i = i + 1;
    }
    proof {
        assert(categories@.take(n as int) =~= categories@);
    }
    query
}

/// Adds one `actionType` pair for each action to the query.
fn append_actions(query: String, actions: &Vec<Action>) -> (extended: String)
    ensures
        extended@ == with_actions(query@, actions@),
{
    let ghost start = query@;
    let mut query = query;
    let n = actions.len();
    let mut i: usize = 0;
    while i < n
        invariant
            i <= n,
            n == actions@.len(),
            query@ == with_actions(start, actions@.take(i as int)),
        decreases n - i,
    {
        proof {
            assert(actions@.take(i + 1).drop_last() =~= actions@.take(i as int));
        }
        query = append_pair(query, "actionType", actions[i].as_str());
        i = i + 1;
    }
    proof {
        assert(actions@.take(n as int) =~= actions@);
    }
    query
}

/// Puts a query behind an address.
fn attach_query(endpoint: Option<String>, query: String) -> (address: Option<String>)
    ensures
        text_of(address) == with_query(text_of(endpoint), query@),
{
    match endpoint {
        Some(endpoint) => {
            let mut address = endpoint;
            address.append("?");
            address.append(query.as_str());
            proof {
                reveal_strlit("?");
                assert("?"@ =~= seq!['?']);
            }
            Some(address)
        },
        None => None,
    }
}

/// The address at which the service `server` is asked for the segments of
/// the video `id`, of the given categories and actions.  `None` if `server`
/// is no address.
pub fn direct_request(
    server: &str,
    id: &str,
    categories: &Vec<Category>,
    actions: &Vec<Action>,
) -> (address: Option<String>)
    ensures
        text_of(address) == direct_address(server@, id@, categories@, actions@),
{
    let endpoint = resolve(server, SEGMENTS_PATH);
    let query = append_pair(String::new(), "videoID", id);
    let query = append_categories(query, categories);
    let query = append_actions(query, actions);
    attach_query(endpoint, query)
}

/// The address at which the service `server` is asked for the segments of
/// all videos whose hash starts as that of the video `id` does.  The
/// identifier itself is not part of the address.  `None` if `server` is no
/// address.
pub fn private_request(
    server: &str,
    id: &str,
    categories: &Vec<Category>,
    actions: &Vec<Action>,
) -> (address: Option<String>)
    ensures
        text_of(address) == private_address(server@, id@, categories@, actions@),
{
    let query = append_categories(String::new(), categories);
    let query = append_actions(query, actions);
    match resolve(server, SEGMENTS_DIR) {
        Some(dir) => {
            let prefix = hash_prefix_of(id);
            let endpoint = resolve(dir.as_str(), prefix.as_str());
            attach_query(endpoint, query)
        },
        None => None,
    }
}

/// The address at which the segments of the video `id` are asked for under
/// the settings `config`.
pub open spec fn request_address(config: Config, id: Seq<char>) -> Option<Seq<char>> {
    if config.privacy_api {
        private_address(config.server_address@, id, config.categories@, config.action_types@)
    } else {
        direct_address(config.server_address@, id, config.categories@, config.action_types@)
    }
}

/// The address at which the segments of the video `id` are asked for under
/// the settings `config`: by hash prefix if privacy is set, by identifier
/// otherwise.
pub fn request(config: &Config, id: &str) -> (address: Option<String>)
    ensures
        text_of(address) == request_address(*config, id@),
{
    if config.privacy_api {
        private_request(
            config.server_address.as_str(),
            id,
            &config.categories,
            &config.action_types,
        )
    } else {
        direct_request(config.server_address.as_str(), id, &config.categories, &config.action_types)
    }
}

/// How the segments of a video are to be had.
#[derive(Debug, PartialEq)]
pub enum Fetch {
    /// They were looked up before and are these.
    Cached(Segments),
    /// The service is to be asked at this address.
    Remote(String),
    /// The service cannot be asked, since its address is none.
    Unreachable,
}

/// Whether `step` is how the segments of the video `id` are to be had, given
/// what the cache keeps and what the settings say: from the cache if it keeps
/// them, else from the service.
pub open spec fn fetches(cache: CacheView, config: Config, id: Seq<char>, step: Fetch) -> bool {
    match kept(cache.entries, id) {
        Some(segments) => step matches Fetch::Cached(found) && found@ == segments,
        None => match request_address(config, id) {
            Some(address) => step matches Fetch::Remote(request) && request@ == address,
            None => step == Fetch::Unreachable,
        },
    }
}

/// Says how the segments of the video `id` are to be had.  Asking counts as a
/// use of what the cache keeps for the video.
pub fn fetch(cache: &mut ResultCache, config: &Config, id: &str) -> (step: Fetch)
    ensures
        final(cache)@ == old(cache)@.looked_up(id@),
        fetches(old(cache)@, *config, id@, step),
{
    match cache.get(id) {
        Some(segments) => Fetch::Cached(segments),
        None => match request(config, id) {
            Some(address) => Fetch::Remote(address),
            None => Fetch::Unreachable,
        },
    }
}

/// The segments of one video in the answer to a request by hash prefix.
#[derive(Debug)]
pub struct Video {
    /// The digest of the video's identifier.
    pub hash: [u8; 32],
    /// The segments of the video.
    pub segments: Segments,
}

/// The segments of the first video of `videos` whose digest is `hash`; none
/// if no video has that digest.
pub open spec fn segments_for(videos: Seq<Video>, hash: Seq<u8>) -> Seq<Segment>
    decreases videos.len(),
{
    if videos.len() == 0 {
        Seq::empty()
    } else if videos.first().hash@ == hash {
        videos.first().segments@
    } else {
        segments_for(videos.drop_first(), hash)
    }
}

/// An answer in which no video has the digest that was asked for gives no
/// segments.
pub proof fn lemma_no_match_no_segments(videos: Seq<Video>, hash: Seq<u8>)
    requires
        forall|i: int| 0 <= i < videos.len() ==> (#[trigger] videos[i]).hash@ != hash,
    ensures
        segments_for(videos, hash) == Seq::<Segment>::empty(),
    decreases videos.len(),
{
    if videos.len() > 0 {
        assert(videos.first() == videos[0]);
        let rest = videos.drop_first();
        assert forall|i: int| 0 <= i < rest.len() implies (#[trigger] rest[i]).hash@ != hash by {
            assert(rest[i] == videos[i + 1]);
        }
        lemma_no_match_no_segments(rest, hash);
    }
}

/// An answer gives the segments of the first video with the digest that was
/// asked for.
pub proof fn lemma_first_match_segments(videos: Seq<Video>, hash: Seq<u8>, at: int)
    requires
        0 <= at < videos.len(),
        videos[at].hash@ == hash,
        forall|i: int| 0 <= i < at ==> (#[trigger] videos[i]).hash@ != hash,
    ensures
        segments_for(videos, hash) == videos[at].segments@,
    decreases videos.len(),
{
    assert(videos.first() == videos[0]);
    if at > 0 {
        let rest = videos.drop_first();
        assert(rest[at - 1] == videos[at]);
        assert forall|i: int| 0 <= i < at - 1 implies (#[trigger] rest[i]).hash@ != hash by {
            assert(rest[i] == videos[i + 1]);
        }
        lemma_first_match_segments(rest, hash, at - 1);
    }
}

/// Whether two digests are equal.
pub fn same_hash(a: &[u8; 32], b: &[u8; 32]) -> (same: bool)
    ensures
        same == (a@ == b@),
{
    let mut i: usize = 0;
    while i < 32
        invariant
            i <= 32,
            forall|j: int| 0 <= j < i ==> a@[j] == b@[j],
        decreases 32 - i,
    {
        if a[i] != b[i] {
            return false;
        }
        i = i + 1;
    }
    proof {
        assert(a@ =~= b@);
    }
    true
}

/// Picks the segments of the video with the digest `hash` from an answer by
/// hash prefix.  The service answers with every video that shares the
/// prefix; where the video that was meant is not among them, there are no
/// segments.
pub fn matching_segments(videos: &Vec<Video>, hash: &[u8; 32]) -> (segments: Segments)
    ensures
        segments@ == segments_for(videos@, hash@),
{
    let n = videos.len();
    let mut i: usize = 0;
    proof {
        assert(videos@.skip(0) =~= videos@);
    }
    while i < n
        invariant
            i <= n,
            n == videos@.len(),
            segments_for(videos@, hash@) == segments_for(videos@.skip(i as int), hash@),
        decreases n - i,
    {
        proof {
            assert(videos@.skip(i as int).drop_first() =~= videos@.skip(i + 1));
        }
        if same_hash(&videos[i].hash, hash) {
            return copy_segments(&videos[i].segments);
        }
        i = i + 1;
    }
    Vec::new()
}

/// The segments of the video `id` in an answer by hash prefix.
pub fn private_segments(id: &str, videos: &Vec<Video>) -> (segments: Segments)
    ensures
        segments@ == segments_for(videos@, video_hash(id@)),
{
    let hash = hash_video_id(id);
    matching_segments(videos, &hash)
}

/// What the service answered.
#[derive(Debug)]
pub enum Answer {
    /// The segments of the video that was asked for.
    Direct(Segments),
    /// The videos that share the hash prefix that was asked for.
    Private(Vec<Video>),
}

/// The segments that an answer holds for the video `id`, before any check.
pub open spec fn answered(id: Seq<char>, answer: Answer) -> Seq<Segment> {
    match answer {
        Answer::Direct(segments) => segments@,
        Answer::Private(videos) => segments_for(videos@, video_hash(id)),
    }
}

/// The segments of the video `id` in an answer of the service: those that
/// the answer holds for the video and that do not end before they start.
pub fn read_answer(id: &str, answer: Answer) -> (segments: Segments)
    ensures
        segments@ == well_formed(answered(id@, answer)),
{
    match answer {
        Answer::Direct(segments) => keep_valid(segments),
        Answer::Private(videos) => keep_valid(private_segments(id, &videos)),
    }
}

/// An answer by hash prefix in which no video has the digest of the video
/// that was asked for holds no segments for it.
pub proof fn lemma_private_miss_is_empty(id: Seq<char>, videos: Vec<Video>)
    requires
        forall|i: int| 0 <= i < videos@.len() ==> (#[trigger] videos@[i]).hash@ != video_hash(id),
    ensures
        well_formed(answered(id, Answer::Private(videos))) == Seq::<Segment>::empty(),
{
    lemma_no_match_no_segments(videos@, video_hash(id));
    reveal(Seq::filter);
}

/// A copy of the segments.
pub fn copy_segments(segments: &Segments) -> (copy: Segments)
    ensures
        copy@ == segments@,
{
    let mut copy: Segments = Vec::new();
    let n = segments.len();
    let mut i: usize = 0;
    while i < n
        invariant
            i <= n,
            n == segments@.len(),
            copy@ == segments@.take(i as int),
        decreases n - i,
    {
        copy.push(segments[i].clone());
        proof {
            assert(segments@.take(i + 1) =~= segments@.take(i as int).push(segments@[i as int]));
        }
        i = i + 1;
    }
    proof {
        assert(segments@.take(n as int) =~= segments@);
    }
    copy
}

/// The segments of a result, as a sequence.
pub open spec fn outcome_view(outcome: Result<Segments, LookupError>) -> Result<
    Seq<Segment>,
    LookupError,
> {
    match outcome {
        Ok(segments) => Ok(segments@),
        Err(e) => Err(e),
    }
}

/// The segments among `s` that do not end before they start, in order.
pub open spec fn well_formed(s: Seq<Segment>) -> Seq<Segment> {
    s.filter(|x: Segment| x.wf())
}

/// Drops the segments that end before they start.
pub fn keep_valid(segments: Segments) -> (kept: Segments)
    ensures
        kept@ == well_formed(segments@),
{
    let mut kept: Segments = Vec::new();
    let n = segments.len();
    let mut i: usize = 0;
    while i < n
        invariant
            i <= n,
            n == segments@.len(),
            kept@ == well_formed(segments@.take(i as int)),
        decreases n - i,
    {
        let seg = segments[i].clone();
        proof {
            reveal(Seq::filter);
            assert(segments@.take(i + 1).drop_last() =~= segments@.take(i as int));
        }
        if seg.is_valid() {
            kept.push(seg);
        }
        i = i + 1;
    }
    proof {
        assert(segments@.take(n as int) =~= segments@);
    }
    kept
}

} // verus!
