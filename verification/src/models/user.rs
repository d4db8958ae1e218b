//! A user of the site as the profile page shows them.

use vstd::prelude::*;
use crate::collection::{Keyed, Slugged};
use crate::common::constants::DOMAIN;
use crate::common::error::{Error, ErrorView};
use crate::html::{first_inner, hits, read_first_inner, select_all, text_of, Lookup, LookupView};
use crate::pages::user_activity::UserActivity;
use crate::pages::user_diary::UserDiary;
use crate::pages::user_films::UserFilms;
use crate::pages::user_likes::UserLikes;
use crate::pages::user_lists::UserLists;
use crate::pages::user_network::UserNetwork;
use crate::pages::user_profile::UserProfile;
use crate::pages::user_reviews::UserReviews;
use crate::pages::user_tags::UserTags;
use crate::pages::user_watchlist::UserWatchlist;
use crate::text::{chain, lowercase, to_lowercase};
use crate::utils::validators::{regex_is_match, regex_match, USERNAME_PATTERN};

verus! {

/// One of a user's favourite films.
#[derive(Debug, Clone)]
pub struct FavoriteMovie {
    pub name: String,
    pub slug: String,
    pub url: String,
}

impl Slugged for FavoriteMovie {
    open spec fn key(&self) -> Seq<char> {
        self.slug@
    }

    fn slug(&self) -> (s: &String) {
        &self.slug
    }
}

/// The counters of a user's profile.
#[derive(Clone, Copy, PartialEq, Eq, Structural, Debug)]
pub struct UserStats {
    pub films: u32,
    pub this_year: u32,
    pub following: u32,
    pub followers: u32,
    pub lists: u32,
    pub reviews: u32,
    pub diary_entries: u32,
}

/// One entry of a user's diary.
#[derive(Debug, Clone)]
pub struct DiaryEntry {
    pub name: String,
    pub slug: String,
    /// The rating, in hundredths of a star.
    pub rating: Option<u32>,
    pub review: Option<String>,
    pub liked: bool,
    pub rewatch: bool,
}

/// The entries of one day of a diary.
#[derive(Debug, Clone)]
pub struct DiaryDay {
    pub day: String,
    pub entries: Vec<DiaryEntry>,
}

/// The days of one month of a diary.
#[derive(Debug, Clone)]
pub struct DiaryMonth {
    pub month: String,
    pub days: Vec<DiaryDay>,
}

/// A user's recent diary, by month and day.
#[derive(Debug, Clone)]
pub struct DiaryData {
    pub months: Vec<DiaryMonth>,
}

/// What a user did recently.
#[derive(Debug, Clone)]
pub struct UserRecent {
    pub watchlist: Vec<String>,
    pub diary: DiaryData,
}

/// A user.
#[derive(Debug)]
pub struct User {
    pub username: String,
    pub url: String,
    pub id: Option<u64>,
    pub is_hq: bool,
    pub display_name: String,
    pub bio: Option<String>,
    pub location: Option<String>,
    pub website: Option<String>,
    pub watchlist_length: Option<u32>,
    pub stats: Option<UserStats>,
    pub favorites: Option<Keyed<FavoriteMovie>>,
    pub avatar: Option<String>,
    pub recent: UserRecent,
}

/// The pages of a user.
#[derive(Debug)]
pub struct UserPages {
    pub activity: UserActivity,
    pub diary: UserDiary,
    pub films: UserFilms,
    pub likes: UserLikes,
    pub lists: UserLists,
    pub network: UserNetwork,
    pub profile: UserProfile,
    pub reviews: UserReviews,
    pub tags: UserTags,
    pub watchlist: UserWatchlist,
}

/// What a user's profile page holds: the texts of name, biography, location
/// and website, and whether it shows counters.
#[derive(Debug, Clone)]
pub struct UserPage {
    pub display_name: Lookup,
    pub bio: Lookup,
    pub location: Lookup,
    pub website: Lookup,
    pub has_stats: bool,
}

/// A `UserPage` with its texts as character sequences.
pub struct UserPageView {
    pub display_name: LookupView,
    pub bio: LookupView,
    pub location: LookupView,
    pub website: LookupView,
    pub has_stats: bool,
}

impl View for UserPage {
    type V = UserPageView;

    open spec fn view(&self) -> UserPageView {
        UserPageView {
            display_name: self.display_name@,
            bio: self.bio@,
            location: self.location@,
            website: self.website@,
            has_stats: self.has_stats,
        }
    }
}

/// Counters that are all zero.
pub open spec fn no_stats() -> UserStats {
    UserStats {
        films: 0,
        this_year: 0,
        following: 0,
        followers: 0,
        lists: 0,
        reviews: 0,
        diary_entries: 0,
    }
}

/// The name under which the site knows the user `username`, and the
/// address of the profile: the name in lower case, where it is made of
/// letters and digits of ASCII and `_` only.
pub open spec fn profile_of(username: Seq<char>) -> Result<(Seq<char>, Seq<char>), ErrorView> {
    if regex_match(USERNAME_PATTERN@, username) == Some(true) {
        Ok((lowercase(username), DOMAIN@ + "/user/"@ + lowercase(username)))
    } else {
        Err(ErrorView::InvalidUsername(username))
    }
}

/// What the profile page of a user holds.
pub open spec fn user_page_of(dom: scraper::Html) -> UserPageView {
    UserPageView {
        display_name: first_inner(dom, "h1.title-1"@),
        bio: first_inner(dom, ".profile-summary .bio"@),
        location: first_inner(dom, ".profile-summary .location"@),
        website: first_inner(dom, ".profile-summary .website"@),
        has_stats: hits(dom, ".profile-stats li"@).len() > 0,
    }
}

/// Whether `user` is the user `username` at `url` as the profile page
/// `page` shows them: with the page's name, or the user name where the page
/// has none; with biography, location and website where the page has them;
/// with counters of zero where the page shows counters; and with everything
/// else unknown or empty.
pub open spec fn shows_user(
    user: User,
    page: UserPageView,
    username: Seq<char>,
    url: Seq<char>,
) -> bool {
    &&& user.username@ == username
    &&& user.url@ == url
    &&& user.display_name@ == match page.display_name {
        LookupView::Value(text) => text,
        _ => username,
    }
    &&& text_of(user.bio) == page.bio.text()
    &&& text_of(user.location) == page.location.text()
    &&& text_of(user.website) == page.website.text()
    &&& user.stats == if page.has_stats {
        Some(no_stats())
    } else {
        None
    }
    &&& user.id is None
    &&& !user.is_hq
    &&& user.watchlist_length is None
    &&& user.favorites is None
    &&& user.avatar is None
    &&& user.recent.watchlist@.len() == 0
    &&& user.recent.diary.months@.len() == 0
}

impl UserPage {
    /// Reads what a user's profile page holds.
    pub fn read(dom: &scraper::Html) -> (out: UserPage)
        ensures
            out@ == user_page_of(*dom),
    {
        let stats = select_all(dom, ".profile-stats li");
        UserPage {
            display_name: read_first_inner(dom, "h1.title-1"),
            bio: read_first_inner(dom, ".profile-summary .bio"),
            location: read_first_inner(dom, ".profile-summary .location"),
            website: read_first_inner(dom, ".profile-summary .website"),
            has_stats: stats.len() > 0,
        }
    }
}

impl User {
    /// The name under which the site knows the user `username`, and the
    /// address of the profile.
    pub fn profile_address(username: &str) -> (res: Result<(String, String), Error>)
        ensures
            match res {
                Ok((name, url)) => profile_of(username@) == Ok::<_, ErrorView>((name@, url@)),
                Err(e) => profile_of(username@) == Err::<(Seq<char>, Seq<char>), _>(e@),
            },
    {
        let valid = match regex_is_match(USERNAME_PATTERN, username) {
            Some(hit) => hit,
            None => false,
        };
        if !valid {
            return Err(Error::InvalidUsername(username.to_owned()));
        }
        let name = to_lowercase(username);
        let head = chain(DOMAIN, "/user/");
        let url = chain(head.as_str(), name.as_str());
        Ok((name, url))
    }

    /// The user `username` at `url` as the profile page shows them. A page
    /// without a name shows the user name; counters are zero where the page
    /// shows any; what the page does not show is unknown or empty.
    pub fn from_page(page: UserPage, username: &str, url: &str) -> (user: User)
        ensures
            shows_user(user, page@, username@, url@),
    {
        let display_name = match page.display_name {
            Lookup::Value(text) => text,
            _ => username.to_owned(),
        };
        let stats = if page.has_stats {
            Some(
                UserStats {
                    films: 0,
                    this_year: 0,
                    following: 0,
                    followers: 0,
                    lists: 0,
                    reviews: 0,
                    diary_entries: 0,
                },
            )
        } else {
            None
        };
        User {
            username: username.to_owned(),
            url: url.to_owned(),
            id: None,
            is_hq: false,
            display_name,
            bio: page.bio.into_text(),
            location: page.location.into_text(),
            website: page.website.into_text(),
            watchlist_length: None,
            stats,
            favorites: None,
            avatar: None,
            recent: UserRecent { watchlist: Vec::new(), diary: DiaryData { months: Vec::new() } },
        }
    }

    /// Reads the user `username` at `url` from the profile page `dom`.
    pub fn parse_user_data(dom: &scraper::Html, username: &str, url: &str) -> (res: Result<
        User,
        Error,
    >)
        ensures
            res is Ok,
            shows_user(res->Ok_0, user_page_of(*dom), username@, url@),
    {
        Ok(User::from_page(UserPage::read(dom), username, url))
    }

    /// The pages of this user.
    pub fn pages(&self) -> (pages: UserPages)
        ensures
            pages.activity.name() == self.username@,
            pages.diary.name() == self.username@,
            pages.films.name() == self.username@,
            pages.likes.name() == self.username@,
            pages.lists.name() == self.username@,
            pages.network.name() == self.username@,
            pages.profile.name() == self.username@,
            pages.reviews.name() == self.username@,
            pages.tags.name() == self.username@,
            pages.watchlist.name() == self.username@,
    {
        let name = self.username.as_str();
        UserPages {
            activity: UserActivity::new(name),
            diary: UserDiary::new(name),
            films: UserFilms::new(name),
            likes: UserLikes::new(name),
            lists: UserLists::new(name),
            network: UserNetwork::new(name),
            profile: UserProfile::new(name),
            reviews: UserReviews::new(name),
            tags: UserTags::new(name),
            watchlist: UserWatchlist::new(name),
        }
    }
}

} // verus!
