//! Whom a user follows and who follows them.

use vstd::prelude::*;
use crate::utils::transform::{build_user_url, site_path, with_part};

verus! {

/// Whom a user follows and who follows them.
#[derive(Debug)]
pub struct UserNetwork {
    username: String,
}

impl UserNetwork {
    /// The name of the user.
    pub closed spec fn name(&self) -> Seq<char> {
        self.username@
    }

    /// The pages of the user `username`.
    pub fn new(username: &str) -> (out: Self)
        ensures
            out.name() == username@,
    {
        Self { username: username.to_owned() }
    }

    /// The address of the user's followers.
    pub fn followers_url(&self) -> (url: String)
        ensures
            url@ == site_path(seq![self.name(), "followers"@]),
    {
        let url = build_user_url(self.username.as_str());
        let url = with_part(url.as_str(), "followers");
        proof {
            assert(seq![self.name(), "followers"@].drop_last() == seq![self.name()]);
        }
        url
    }

    /// The address of those whom the user follows.
    pub fn following_url(&self) -> (url: String)
        ensures
            url@ == site_path(seq![self.name(), "following"@]),
    {
        let url = build_user_url(self.username.as_str());
        let url = with_part(url.as_str(), "following");
        proof {
            assert(seq![self.name(), "following"@].drop_last() == seq![self.name()]);
        }
        url
    }
}

} // verus!
