//! A user's reviews.

use vstd::prelude::*;
use crate::utils::transform::{build_user_url, site_path, with_part};

verus! {

/// A user's reviews.
#[derive(Debug)]
pub struct UserReviews {
    username: String,
}

impl UserReviews {
    /// The name of the user.
    pub closed spec fn name(&self) -> Seq<char> {
        self.username@
    }

    /// The pages of the user `username`.
    pub fn new(username: &str) -> (out: Self)
        ensures
            out.name() == username@,
    {
        Self { username: username.to_owned() }
    }

    /// The address of the user's reviews.
    pub fn reviews_url(&self) -> (url: String)
        ensures
            url@ == site_path(seq![self.name(), "films"@, "reviews"@]),
    {
        let url = build_user_url(self.username.as_str());
        let url = with_part(url.as_str(), "films");
        proof {
            assert(seq![self.name(), "films"@].drop_last() == seq![self.name()]);
            assert(url@ == site_path(seq![self.name(), "films"@]));
        }
        let url = with_part(url.as_str(), "reviews");
        proof {
            assert(seq![self.name(), "films"@, "reviews"@].drop_last() == seq![
                self.name(),
                "films"@,
            ]);
        }
        url
    }
}

} // verus!
