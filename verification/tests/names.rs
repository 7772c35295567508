use mpv_sponsorblock::{Action, Category};

#[test]
fn action_names_are_the_wire_names() {
    assert_eq!(Action::Skip.as_str(), "skip");
    assert_eq!(Action::Mute.as_str(), "mute");
    assert_eq!(Action::Full.as_str(), "full");
    assert_eq!(Action::Poi.as_str(), "poi");
}

#[test]
fn action_is_read_from_its_name() {
    assert_eq!(Action::parse("skip"), Some(Action::Skip));
    assert_eq!(Action::parse("mute"), Some(Action::Mute));
    assert_eq!(Action::parse("full"), Some(Action::Full));
    assert_eq!(Action::parse("poi"), Some(Action::Poi));
}

#[test]
fn unknown_action_is_refused() {
    assert_eq!(Action::parse("Skip"), None);
    assert_eq!(Action::parse(""), None);
    assert_eq!(Action::parse("chapter"), None);
    assert_eq!(Action::parse("skip "), None);
}

#[test]
fn action_round_trip() {
    for action in [Action::Skip, Action::Mute, Action::Full, Action::Poi] {
        assert_eq!(Action::parse(action.as_str()), Some(action));
    }
}

#[test]
fn category_names_are_the_wire_names() {
    assert_eq!(Category::Sponsor.as_str(), "sponsor");
    assert_eq!(Category::SelfPromo.as_str(), "selfpromo");
    assert_eq!(Category::Interaction.as_str(), "interaction");
    assert_eq!(Category::Poi.as_str(), "poi_highlight");
    assert_eq!(Category::Intro.as_str(), "intro");
    assert_eq!(Category::Outro.as_str(), "outro");
    assert_eq!(Category::Preview.as_str(), "preview");
    assert_eq!(Category::MusicOfftopic.as_str(), "music_offtopic");
    assert_eq!(Category::Filler.as_str(), "filler");
    assert_eq!(Category::ExclusiveAccess.as_str(), "exclusive_access");
}

#[test]
fn category_round_trip() {
    let all = [
        Category::Sponsor,
        Category::SelfPromo,
        Category::Interaction,
        Category::Poi,
        Category::Intro,
        Category::Outro,
        Category::Preview,
        Category::MusicOfftopic,
        Category::Filler,
        Category::ExclusiveAccess,
    ];
    for category in all {
        assert_eq!(Category::parse(category.as_str()), Some(category));
    }
}

#[test]
fn unknown_category_is_refused() {
    assert_eq!(Category::parse("poi"), None);
    assert_eq!(Category::parse("Sponsor"), None);
    assert_eq!(Category::parse(""), None);
    assert_eq!(Category::parse("music-offtopic"), None);
}
