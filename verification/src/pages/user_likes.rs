//! What a user liked.

use vstd::prelude::*;
use crate::utils::transform::{build_user_url, site_path, with_part};

verus! {

/// What a user liked.
#[derive(Debug)]
pub struct UserLikes {
    username: String,
}

impl UserLikes {
    /// The name of the user.
    pub closed spec fn name(&self) -> Seq<char> {
        self.username@
    }

    /// The pages of the user `username`.
    pub fn new(username: &str) -> (out: Self)
        ensures
            out.name() == username@,
    {
        Self { username: username.to_owned() }
    }

    /// The address of the films that the user liked.
    pub fn films_url(&self) -> (url: String)
        ensures
            url@ == site_path(seq![self.name(), "likes"@, "films"@]),
    {
        let url = build_user_url(self.username.as_str());
        let url = with_part(url.as_str(), "likes");
        proof {
            assert(seq![self.name(), "likes"@].drop_last() == seq![self.name()]);
            assert(url@ == site_path(seq![self.name(), "likes"@]));
        }
        let url = with_part(url.as_str(), "films");
        proof {
            assert(seq![self.name(), "likes"@, "films"@].drop_last() == seq![
                self.name(),
                "likes"@,
            ]);
        }
        url
    }

    /// The address of the reviews that the user liked.
    pub fn reviews_url(&self) -> (url: String)
        ensures
            url@ == site_path(seq![self.name(), "likes"@, "reviews"@]),
    {
        let url = build_user_url(self.username.as_str());
        let url = with_part(url.as_str(), "likes");
        proof {
            assert(seq![self.name(), "likes"@].drop_last() == seq![self.name()]);
            assert(url@ == site_path(seq![self.name(), "likes"@]));
        }
        let url = with_part(url.as_str(), "reviews");
        proof {
            assert(seq![self.name(), "likes"@, "reviews"@].drop_last() == seq![
                self.name(),
                "likes"@,
            ]);
        }
        url
    }
}

} // verus!
