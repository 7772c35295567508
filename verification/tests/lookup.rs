use mpv_sponsorblock::lookup::{
    direct_request, hash_prefix_of, hash_video_id, keep_valid, matching_segments,
    private_request, private_segments, read_answer, request, same_hash,
};
use mpv_sponsorblock::{Action, Answer, Category, Config, LookupError, Segment, Video};

const SERVER: &str = "https://sponsor.ajay.app";

fn segment(start: i64, end: i64, uuid: &str) -> Segment {
    Segment {
        category: Category::Sponsor,
        action: Action::Skip,
        segment: [start, end],
        uuid: uuid.to_string(),
    }
}

fn digest(hex: &str) -> [u8; 32] {
    let mut out = [0u8; 32];
    for (i, byte) in out.iter_mut().enumerate() {
        *byte = u8::from_str_radix(&hex[2 * i..2 * i + 2], 16).unwrap();
    }
    out
}

const HASH_ABC123: &str = "6ca13d52ca70c883e0f0bb101e425a89e8624de51db2d2392593af6a84118090";
const HASH_RICK: &str = "5f6b0b4e201f2a7e66927abb5cadeec81624dcc8efe6644b78aa182213f653a2";
const HASH_EMPTY: &str = "e3b0c44298fc1c149afbf4c8996fb92427ae41e4649b934ca495991b7852b855";

#[test]
fn the_digest_is_sha256() {
    assert_eq!(hash_video_id("abc123"), digest(HASH_ABC123));
    assert_eq!(hash_video_id("dQw4w9WgXcQ"), digest(HASH_RICK));
    assert_eq!(hash_video_id(""), digest(HASH_EMPTY));
}

#[test]
fn the_prefix_is_four_hex_digits() {
    assert_eq!(hash_prefix_of("abc123"), "6ca1");
    assert_eq!(hash_prefix_of("dQw4w9WgXcQ"), "5f6b");
    assert_eq!(hash_prefix_of(""), "e3b0");
}

#[test]
fn direct_request_names_video_categories_and_actions() {
    let address = direct_request(
        SERVER,
        "dQw4w9WgXcQ",
        &vec![Category::Sponsor, Category::SelfPromo],
        &vec![Action::Skip, Action::Mute],
    );
    assert_eq!(
        address.as_deref(),
        Some(
            "https://sponsor.ajay.app/api/skipSegments?videoID=dQw4w9WgXcQ&category=sponsor&category=selfpromo&actionType=skip&actionType=mute"
        )
    );
}

#[test]
fn direct_request_without_filters() {
    let address = direct_request(SERVER, "abc123", &Vec::new(), &Vec::new());
    assert_eq!(address.as_deref(), Some("https://sponsor.ajay.app/api/skipSegments?videoID=abc123"));
}

#[test]
fn the_identifier_is_encoded() {
    let address = direct_request(SERVER, "a b&c=d", &Vec::new(), &vec![Action::Poi]);
    assert_eq!(
        address.as_deref(),
        Some("https://sponsor.ajay.app/api/skipSegments?videoID=a+b%26c%3Dd&actionType=poi")
    );
}

#[test]
fn the_path_of_the_server_is_replaced() {
    let address = direct_request("https://example.org/some/path?x=1#top", "abc123", &Vec::new(), &Vec::new());
    assert_eq!(address.as_deref(), Some("https://example.org/api/skipSegments?videoID=abc123"));
}

#[test]
fn private_request_shows_the_prefix_only() {
    let address = private_request(
        SERVER,
        "abc123",
        &vec![Category::Sponsor],
        &vec![Action::Skip],
    );
    assert_eq!(
        address.as_deref(),
        Some("https://sponsor.ajay.app/api/skipSegments/6ca1?category=sponsor&actionType=skip")
    );
    assert!(!address.unwrap().contains("abc123"));
}

#[test]
fn private_request_without_filters() {
    let address = private_request(SERVER, "abc123", &Vec::new(), &Vec::new());
    assert_eq!(address.as_deref(), Some("https://sponsor.ajay.app/api/skipSegments/6ca1?"));
}

#[test]
fn no_request_without_a_server() {
    assert_eq!(direct_request("sponsor.ajay.app", "abc123", &Vec::new(), &Vec::new()), None);
    assert_eq!(private_request("", "abc123", &Vec::new(), &Vec::new()), None);
}

#[test]
fn the_settings_choose_the_request() {
    let mut config = Config::default();
    config.categories = vec![Category::Intro];
    config.action_types = vec![Action::Skip];
    assert_eq!(
        request(&config, "abc123").as_deref(),
        Some("https://sponsor.ajay.app/api/skipSegments?videoID=abc123&category=intro&actionType=skip")
    );
    config.privacy_api = true;
    assert_eq!(
        request(&config, "abc123").as_deref(),
        Some("https://sponsor.ajay.app/api/skipSegments/6ca1?category=intro&actionType=skip")
    );
}

#[test]
fn digests_are_compared_byte_by_byte() {
    let a = digest(HASH_ABC123);
    let mut b = a;
    assert!(same_hash(&a, &b));
    b[31] ^= 1;
    assert!(!same_hash(&a, &b));
    b = a;
    b[0] ^= 0x80;
    assert!(!same_hash(&a, &b));
}

#[test]
fn private_lookup_without_match_is_empty() {
    let mut near = digest(HASH_ABC123);
    near[31] ^= 0xff;
    let videos = vec![
        Video { hash: near, segments: vec![segment(0, 10, "near")] },
        Video { hash: digest(HASH_RICK), segments: vec![segment(0, 10, "rick")] },
    ];
    assert!(private_segments("abc123", &videos).is_empty());
    assert!(private_segments("abc123", &Vec::new()).is_empty());
    assert!(read_answer("abc123", Answer::Private(videos)).is_empty());
}

#[test]
fn private_lookup_picks_the_video() {
    let videos = vec![
        Video { hash: digest(HASH_RICK), segments: vec![segment(0, 10, "rick")] },
        Video { hash: digest(HASH_ABC123), segments: vec![segment(0, 10, "mine"), segment(20, 30, "too")] },
        Video { hash: digest(HASH_ABC123), segments: vec![segment(0, 10, "second")] },
    ];
    let found = private_segments("abc123", &videos);
    let ids: Vec<&str> = found.iter().map(|s| s.uuid.as_str()).collect();
    assert_eq!(ids, vec!["mine", "too"]);
    let found = matching_segments(&videos, &digest(HASH_RICK));
    assert_eq!(found.len(), 1);
    assert_eq!(found[0].uuid, "rick");
}

#[test]
fn segments_that_end_before_they_start_are_dropped() {
    let kept = keep_valid(vec![
        segment(0, 10, "ok"),
        segment(10, 5, "bad"),
        segment(7, 7, "point"),
        segment(-1, -2, "worse"),
    ]);
    let ids: Vec<&str> = kept.iter().map(|s| s.uuid.as_str()).collect();
    assert_eq!(ids, vec!["ok", "point"]);
    let direct = read_answer("abc123", Answer::Direct(vec![segment(3, 1, "bad"), segment(1, 3, "ok")]));
    assert_eq!(direct.len(), 1);
    assert_eq!(direct[0].segment, [1, 3]);
}

#[test]
fn failures_are_classified() {
    assert_eq!(LookupError::classify(Some(404), false, "gone".to_string()), LookupError::NotFound);
    assert_eq!(LookupError::classify(Some(404), true, "gone".to_string()), LookupError::NotFound);
    assert_eq!(
        LookupError::classify(Some(500), false, "boom".to_string()),
        LookupError::Transient("boom".to_string())
    );
    assert_eq!(
        LookupError::classify(None, false, "no route".to_string()),
        LookupError::Transient("no route".to_string())
    );
    assert_eq!(
        LookupError::classify(None, true, "eof".to_string()),
        LookupError::Malformed("eof".to_string())
    );
    assert_eq!(
        LookupError::classify(Some(200), true, "eof".to_string()),
        LookupError::Malformed("eof".to_string())
    );
    assert!(LookupError::NotFound.is_benign());
    assert!(!LookupError::Cancelled.is_benign());
    assert!(!LookupError::Transient(String::new()).is_benign());
    assert!(!LookupError::Malformed(String::new()).is_benign());
}
