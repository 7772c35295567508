use mpv_sponsorblock::{Action, Category, Segment, SortedSegments, SKIP_MARGIN};

fn us(seconds: f64) -> i64 {
    (seconds * 1_000_000.0).round() as i64
}

fn segment(action: Action, category: Category, start: f64, end: f64, uuid: &str) -> Segment {
    Segment { category, action, segment: [us(start), us(end)], uuid: uuid.to_string() }
}

fn skip(start: f64, end: f64, uuid: &str) -> Segment {
    segment(Action::Skip, Category::Sponsor, start, end, uuid)
}

fn mute(start: f64, end: f64, uuid: &str) -> Segment {
    segment(Action::Mute, Category::MusicOfftopic, start, end, uuid)
}

#[test]
fn skip_margin_is_a_tenth_of_a_second() {
    assert_eq!(SKIP_MARGIN, us(0.1));
}

#[test]
fn skip_uses_the_margin() {
    let record = skip(10.0, 20.0, "a");
    assert!(record.is_in_segment(us(19.85)));
    assert!(!record.is_in_segment(us(19.95)));
    assert!(record.is_in_segment(us(10.0)));
    assert!(!record.is_in_segment(us(9.999999)));
    assert!(record.is_in_segment(us(19.9) - 1));
    assert!(!record.is_in_segment(us(19.9)));
}

#[test]
fn mute_uses_no_margin() {
    let record = mute(10.0, 20.0, "a");
    assert!(record.contains(us(19.99)));
    assert!(!record.contains(us(20.0)));
    assert!(record.contains(us(10.0)));
    assert!(!record.contains(us(10.0) - 1));
}

#[test]
fn margin_at_the_limits_of_time() {
    let early = Segment {
        category: Category::Sponsor,
        action: Action::Skip,
        segment: [i64::MIN, i64::MIN + 5],
        uuid: "early".to_string(),
    };
    assert!(!early.is_in_segment(i64::MIN));
    assert!(early.contains(i64::MIN));
    let late = Segment {
        category: Category::Sponsor,
        action: Action::Skip,
        segment: [i64::MAX - 200_000, i64::MAX],
        uuid: "late".to_string(),
    };
    assert!(late.is_in_segment(i64::MAX - 100_001));
    assert!(!late.is_in_segment(i64::MAX - 100_000));
    assert!(!late.is_in_segment(i64::MAX));
}

#[test]
fn validity_is_order_of_the_ends() {
    assert!(skip(1.0, 2.0, "a").is_valid());
    assert!(skip(2.0, 2.0, "a").is_valid());
    assert!(!skip(2.0, 1.0, "a").is_valid());
}

#[test]
fn segments_are_the_same_by_identifier() {
    let a = skip(1.0, 2.0, "one");
    let b = mute(5.0, 9.0, "one");
    let c = skip(1.0, 2.0, "two");
    assert!(a.same_segment(&b));
    assert!(!a.same_segment(&c));
    assert_eq!(a, b);
    assert_ne!(a, c);
}

#[test]
fn clone_keeps_every_field() {
    let a = segment(Action::Full, Category::ExclusiveAccess, 0.0, 0.0, "whole");
    let b = a.clone();
    assert_eq!(b.category, Category::ExclusiveAccess);
    assert_eq!(b.action, Action::Full);
    assert_eq!(b.segment, [0, 0]);
    assert_eq!(b.uuid, "whole");
}

#[test]
fn split_is_exhaustive_and_disjoint() {
    let all = vec![
        skip(0.0, 10.0, "s1"),
        mute(12.0, 14.0, "m1"),
        segment(Action::Poi, Category::Poi, 50.0, 50.0, "first-poi"),
        skip(20.0, 30.0, "s2"),
        segment(Action::Full, Category::Sponsor, 0.0, 0.0, "f1"),
        mute(40.0, 44.0, "m2"),
        skip(60.0, 61.0, "s3"),
    ];
    let total = all.len();
    let sorted = SortedSegments::new(all);
    let ids = |list: &Vec<Segment>| list.iter().map(|s| s.uuid.clone()).collect::<Vec<String>>();
    assert_eq!(ids(&sorted.skippable), vec!["s1", "s2", "s3"]);
    assert_eq!(ids(&sorted.mutable), vec!["m1", "m2"]);
    assert_eq!(sorted.poi.as_ref().map(|s| s.uuid.as_str()), Some("first-poi"));
    assert_eq!(sorted.full.as_ref().map(|s| s.uuid.as_str()), Some("f1"));
    let kept = sorted.skippable.len()
        + sorted.mutable.len()
        + usize::from(sorted.poi.is_some())
        + usize::from(sorted.full.is_some());
    assert_eq!(kept, total);
    assert!(sorted.skippable.iter().all(|s| s.action == Action::Skip));
    assert!(sorted.mutable.iter().all(|s| s.action == Action::Mute));
}

#[test]
fn split_keeps_the_first_highlight_and_the_first_label() {
    let all = vec![
        segment(Action::Poi, Category::Poi, 50.0, 50.0, "first-poi"),
        segment(Action::Full, Category::Sponsor, 0.0, 0.0, "f1"),
        segment(Action::Poi, Category::Poi, 70.0, 70.0, "second-poi"),
        segment(Action::Full, Category::SelfPromo, 0.0, 0.0, "f2"),
    ];
    let sorted = SortedSegments::new(all);
    assert!(sorted.skippable.is_empty());
    assert!(sorted.mutable.is_empty());
    assert_eq!(sorted.poi.as_ref().map(|s| s.uuid.as_str()), Some("first-poi"));
    assert_eq!(sorted.full.as_ref().map(|s| s.uuid.as_str()), Some("f1"));
    assert_eq!(sorted.get_video_poi(), Some(us(50.0)));
    assert_eq!(sorted.get_video_category(), Some(Category::Sponsor));
}

#[test]
fn split_of_nothing_is_empty() {
    let sorted = SortedSegments::new(Vec::new());
    assert!(sorted.skippable.is_empty());
    assert!(sorted.mutable.is_empty());
    assert!(sorted.poi.is_none());
    assert!(sorted.full.is_none());
    assert_eq!(sorted.get_skip_segment(0), None);
    assert_eq!(sorted.get_mute_segment(0), None);
    assert_eq!(sorted.get_video_poi(), None);
    assert_eq!(sorted.get_video_category(), None);
}

#[test]
fn the_first_matching_segment_is_found() {
    let sorted = SortedSegments::new(vec![
        skip(10.0, 20.0, "s1"),
        skip(15.0, 40.0, "s2"),
        mute(10.0, 20.0, "m1"),
        mute(19.0, 25.0, "m2"),
    ]);
    assert_eq!(sorted.get_skip_segment(us(16.0)).map(|s| s.uuid), Some("s1".to_string()));
    assert_eq!(sorted.get_skip_segment(us(19.95)).map(|s| s.uuid), Some("s2".to_string()));
    assert_eq!(sorted.get_skip_segment(us(39.95)), None);
    assert_eq!(sorted.get_skip_segment(us(9.0)), None);
    assert_eq!(sorted.get_mute_segment(us(19.5)).map(|s| s.uuid), Some("m1".to_string()));
    assert_eq!(sorted.get_mute_segment(us(20.0)).map(|s| s.uuid), Some("m2".to_string()));
    assert_eq!(sorted.get_mute_segment(us(25.0)), None);
}

#[test]
fn a_found_segment_carries_its_interval() {
    let sorted = SortedSegments::new(vec![skip(30.0, 90.0, "s1")]);
    let found = sorted.get_skip_segment(us(45.0)).unwrap();
    assert_eq!(found.segment, [us(30.0), us(90.0)]);
    assert_eq!(found.category, Category::Sponsor);
    assert_eq!(found.action, Action::Skip);
}
