use mpv_sponsorblock::config::{
    action_types, build_domains_regex, category_set, default_as_true, default_domains_regex,
    default_server, domain_patterns, from_domains, has_category, SB_ADDRESS,
};
use mpv_sponsorblock::utils::YOUTUBE_PATTERN;
use mpv_sponsorblock::{Action, Category, Config, ConfigError};

fn strings(list: &[&str]) -> Vec<String> {
    list.iter().map(|s| s.to_string()).collect()
}

#[test]
fn defaults() {
    assert!(default_as_true());
    assert_eq!(default_server(), "https://sponsor.ajay.app");
    assert_eq!(SB_ADDRESS, "https://sponsor.ajay.app");
    let config = Config::default();
    assert_eq!(config.server_address, "https://sponsor.ajay.app");
    assert!(config.categories.is_empty());
    assert!(config.action_types.is_empty());
    assert!(!config.privacy_api);
    assert!(!config.skip_notice);
    assert_eq!(config.youtube_regex, YOUTUBE_PATTERN);
}

#[test]
fn the_default_pattern_is_the_youtube_pattern() {
    assert_eq!(default_domains_regex(), YOUTUBE_PATTERN);
    assert_eq!(
        YOUTUBE_PATTERN,
        r"https?://(?:(?:www\.|m\.|)youtube\.com|(?:www\.|)youtu\.be).*(?:/|%3D|v=|vi=)([0-9A-z-_]{11})(?:[%#?&]|$)"
    );
    assert_eq!(from_domains(&Vec::new()), Ok(YOUTUBE_PATTERN.to_string()));
}

#[test]
fn one_host_pattern() {
    assert_eq!(
        build_domains_regex(&strings(&["example"])),
        Ok(r"https?://(?:example).*(?:/|%3D|v=|vi=)([0-9A-z-_]{11})(?:[%#?&]|$)".to_string())
    );
}

#[test]
fn host_patterns_are_alternatives() {
    assert_eq!(
        build_domains_regex(&strings(&["a", "b", "c"])),
        Ok(r"https?://(?:a|b|c).*(?:/|%3D|v=|vi=)([0-9A-z-_]{11})(?:[%#?&]|$)".to_string())
    );
}

#[test]
fn a_broken_pattern_is_refused() {
    assert_eq!(build_domains_regex(&strings(&["("])), Err(ConfigError::InvalidPattern));
    assert_eq!(build_domains_regex(&strings(&["a", "[z-a]"])), Err(ConfigError::InvalidPattern));
}

#[test]
fn further_domains_are_taken_literally() {
    assert_eq!(
        domain_patterns(&strings(&["piped.video", "a+b.example"])),
        strings(&[
            r"(?:www\.|m\.|)youtube\.com",
            r"(?:www\.|)youtu\.be",
            r"piped\.video",
            r"a\+b\.example",
        ])
    );
    assert_eq!(
        from_domains(&strings(&["piped.video"])),
        Ok(
            r"https?://(?:(?:www\.|m\.|)youtube\.com|(?:www\.|)youtu\.be|piped\.video).*(?:/|%3D|v=|vi=)([0-9A-z-_]{11})(?:[%#?&]|$)"
                .to_string()
        )
    );
    assert!(from_domains(&strings(&["(", "[", "\\"])).is_ok());
}

#[test]
fn videos_are_found_on_further_domains() {
    let config = Config::new(
        "https://sponsor.ajay.app".to_string(),
        &Vec::new(),
        false,
        false,
        &strings(&["piped.video"]),
        false,
    )
    .unwrap();
    assert_eq!(
        config.get_youtube_id("https://piped.video/watch?v=dQw4w9WgXcQ"),
        Some("dQw4w9WgXcQ".to_string())
    );
    assert_eq!(
        config.get_youtube_id("https://www.youtube.com/watch?v=dQw4w9WgXcQ"),
        Some("dQw4w9WgXcQ".to_string())
    );
    assert_eq!(config.get_youtube_id("https://pipedxvideo/watch?v=dQw4w9WgXcQ"), None);
    assert_eq!(
        Config::default().get_youtube_id("https://piped.video/watch?v=dQw4w9WgXcQ"),
        None
    );
}

#[test]
fn a_pattern_that_is_none_finds_nothing() {
    let mut config = Config::default();
    config.youtube_regex = "(".to_string();
    assert_eq!(config.get_youtube_id("https://youtu.be/dQw4w9WgXcQ"), None);
}

#[test]
fn actions_asked_of_the_service() {
    assert_eq!(action_types(false), vec![Action::Skip, Action::Full, Action::Poi]);
    assert_eq!(action_types(true), vec![Action::Skip, Action::Mute, Action::Full, Action::Poi]);
}

#[test]
fn categories_count_once() {
    let list = vec![
        Category::Intro,
        Category::Sponsor,
        Category::Intro,
        Category::Outro,
        Category::Sponsor,
        Category::Intro,
    ];
    assert_eq!(category_set(&list), vec![Category::Intro, Category::Sponsor, Category::Outro]);
    assert_eq!(category_set(&Vec::new()), Vec::new());
    assert!(has_category(&list, Category::Outro));
    assert!(!has_category(&list, Category::Filler));
}

#[test]
fn settings_from_their_parts() {
    let config = Config::new(
        "https://example.org".to_string(),
        &vec![Category::Sponsor, Category::Sponsor, Category::Filler],
        true,
        true,
        &Vec::new(),
        true,
    )
    .unwrap();
    assert_eq!(config.server_address, "https://example.org");
    assert_eq!(config.categories, vec![Category::Sponsor, Category::Filler]);
    assert_eq!(config.action_types, vec![Action::Skip, Action::Mute, Action::Full, Action::Poi]);
    assert!(config.privacy_api);
    assert!(config.skip_notice);
    assert_eq!(config.youtube_regex, YOUTUBE_PATTERN);
}
