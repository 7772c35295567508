//! What a segment is about.

use vstd::prelude::*;
use crate::text::str_eq;

verus! {

/// The category under which a segment was submitted.
#[derive(Debug, Copy, Clone, PartialEq, Eq, PartialOrd, Ord, Hash, Structural)]
pub enum Category {
    Sponsor,
    SelfPromo,
    Interaction,
    Poi,
    Intro,
    Outro,
    Preview,
    MusicOfftopic,
    Filler,
    ExclusiveAccess,
}

impl Category {
    /// The name of the category on the wire.
    pub open spec fn name(self) -> Seq<char> {
        match self {
            Category::Sponsor => "sponsor"@,
            Category::SelfPromo => "selfpromo"@,
            Category::Interaction => "interaction"@,
            Category::Poi => "poi_highlight"@,
            Category::Intro => "intro"@,
            Category::Outro => "outro"@,
            Category::Preview => "preview"@,
            Category::MusicOfftopic => "music_offtopic"@,
            Category::Filler => "filler"@,
            Category::ExclusiveAccess => "exclusive_access"@,
        }
    }

    /// The category that a wire name stands for, if any.
    pub open spec fn named(s: Seq<char>) -> Option<Category> {
        if s == "sponsor"@ {
            Some(Category::Sponsor)
        } else if s == "selfpromo"@ {
            Some(Category::SelfPromo)
        } else if s == "interaction"@ {
            Some(Category::Interaction)
        } else if s == "poi_highlight"@ {
            Some(Category::Poi)
        } else if s == "intro"@ {
            Some(Category::Intro)
        } else if s == "outro"@ {
            Some(Category::Outro)
        } else if s == "preview"@ {
            Some(Category::Preview)
        } else if s == "music_offtopic"@ {
            Some(Category::MusicOfftopic)
        } else if s == "filler"@ {
            Some(Category::Filler)
        } else if s == "exclusive_access"@ {
            Some(Category::ExclusiveAccess)
        } else {
            None
        }
    }

    /// The name of the category on the wire.
    pub fn as_str(&self) -> (s: &'static str)
        ensures
            s@ == self.name(),
    {
        match self {
            Category::Sponsor => "sponsor",
            Category::SelfPromo => "selfpromo",
            Category::Interaction => "interaction",
            Category::Poi => "poi_highlight",
            Category::Intro => "intro",
            Category::Outro => "outro",
            Category::Preview => "preview",
            Category::MusicOfftopic => "music_offtopic",
            Category::Filler => "filler",
            Category::ExclusiveAccess => "exclusive_access",
        }
    }

    /// Reads a category from its wire name; any other text gives `None`.
    pub fn parse(s: &str) -> (category: Option<Category>)
        ensures
            category == Category::named(s@),
    {
        if str_eq(s, "sponsor") {
            Some(Category::Sponsor)
        } else if str_eq(s, "selfpromo") {
            Some(Category::SelfPromo)
        } else if str_eq(s, "interaction") {
            Some(Category::Interaction)
        } else if str_eq(s, "poi_highlight") {
            Some(Category::Poi)
        } else if str_eq(s, "intro") {
            Some(Category::Intro)
        } else if str_eq(s, "outro") {
            Some(Category::Outro)
        } else if str_eq(s, "preview") {
            Some(Category::Preview)
        } else if str_eq(s, "music_offtopic") {
            Some(Category::MusicOfftopic)
        } else if str_eq(s, "filler") {
            Some(Category::Filler)
        } else if str_eq(s, "exclusive_access") {
            Some(Category::ExclusiveAccess)
        } else {
            None
        }
    }

    /// Every category is read back from its own name.
    pub proof fn lemma_name_round_trip(category: Category)
        ensures
            Category::named(category.name()) == Some(category),
    {
        reveal_strlit("sponsor");
        reveal_strlit("selfpromo");
        reveal_strlit("interaction");
        reveal_strlit("poi_highlight");
        reveal_strlit("intro");
        reveal_strlit("outro");
        reveal_strlit("preview");
        reveal_strlit("music_offtopic");
        reveal_strlit("filler");
        reveal_strlit("exclusive_access");
        assert("sponsor"@.len() == 7 && "sponsor"@[0] == 's');
        assert("selfpromo"@.len() == 9);
        assert("interaction"@.len() == 11);
        assert("poi_highlight"@.len() == 13);
        assert("intro"@.len() == 5 && "intro"@[0] == 'i');
        assert("outro"@.len() == 5 && "outro"@[0] == 'o');
        assert("preview"@.len() == 7 && "preview"@[0] == 'p');
        assert("music_offtopic"@.len() == 14);
        assert("filler"@.len() == 6);
        assert("exclusive_access"@.len() == 16);
    }
}

} // verus!
