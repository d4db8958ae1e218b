//! The films that a user has watched.

use vstd::prelude::*;
use crate::numeric::{decimal_string, decimal_text};
use crate::text::chain;
use crate::utils::transform::{build_user_url, site_path, with_part};

verus! {

/// The films that a user has watched.
#[derive(Debug)]
pub struct UserFilms {
    username: String,
}

/// A rating of `half_stars` half stars as the site's addresses write it:
/// the whole stars, and `.5` behind them for a half star on top.
pub open spec fn rating_text(half_stars: u32) -> Seq<char> {
    if half_stars % 2 == 0 {
        decimal_text((half_stars / 2) as nat)
    } else {
        decimal_text((half_stars / 2) as nat) + ".5"@
    }
}

/// A rating of `half_stars` half stars as the site's addresses write it.
pub fn rating_segment(half_stars: u32) -> (out: String)
    ensures
        out@ == rating_text(half_stars),
{
    let whole = decimal_string((half_stars / 2) as u64);
    if half_stars % 2 == 0 {
        whole
    } else {
        chain(whole.as_str(), ".5")
    }
}

impl UserFilms {
    /// The name of the user.
    pub closed spec fn name(&self) -> Seq<char> {
        self.username@
    }

    /// The pages of the user `username`.
    pub fn new(username: &str) -> (out: Self)
        ensures
            out.name() == username@,
    {
        Self { username: username.to_owned() }
    }

    /// The address of a section of the user's films.
    pub fn section_url(&self, section: &str) -> (url: String)
        ensures
            url@ == site_path(seq![self.name(), "films"@, section@]),
    {
        let url = self.films_url();
        proof {
            assert(seq![self.name(), "films"@, section@].drop_last() == seq![
                self.name(),
                "films"@,
            ]);
        }
        with_part(url.as_str(), section)
    }

    /// The address of the user's films.
    pub fn films_url(&self) -> (url: String)
        ensures
            url@ == site_path(seq![self.name(), "films"@]),
    {
        let url = build_user_url(self.username.as_str());
        proof {
            assert(seq![self.name(), "films"@].drop_last() == seq![self.name()]);
        }
        with_part(url.as_str(), "films")
    }

    /// The address of the films that the user rated with `half_stars` half
    /// stars.
    pub fn rated_url(&self, half_stars: u32) -> (url: String)
        ensures
            url@ == site_path(seq![self.name(), "films"@, "rated"@, rating_text(half_stars)]),
    {
        let url = self.section_url("rated");
        proof {
            assert(seq![self.name(), "films"@, "rated"@, rating_text(half_stars)].drop_last()
                == seq![self.name(), "films"@, "rated"@]);
        }
        with_part(url.as_str(), rating_segment(half_stars).as_str())
    }

    /// The address of the films that the user did not rate.
    pub fn not_rated_url(&self) -> (url: String)
        ensures
            url@ == site_path(seq![self.name(), "films"@, "not-rated"@]),
    {
        self.section_url("not-rated")
    }

    /// The address of the user's genres.
    pub fn genres_url(&self) -> (url: String)
        ensures
            url@ == site_path(seq![self.name(), "films"@, "genres"@]),
    {
        self.section_url("genres")
    }
}

} // verus!
