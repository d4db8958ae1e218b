//! A user's tags.

use vstd::prelude::*;
use crate::utils::transform::{build_user_url, site_path, with_part};

verus! {

/// A user's tags.
#[derive(Debug)]
pub struct UserTags {
    username: String,
}

impl UserTags {
    /// The name of the user.
    pub closed spec fn name(&self) -> Seq<char> {
        self.username@
    }

    /// The pages of the user `username`.
    pub fn new(username: &str) -> (out: Self)
        ensures
            out.name() == username@,
    {
        Self { username: username.to_owned() }
    }

    /// The address of the user's tags.
    pub fn tags_url(&self) -> (url: String)
        ensures
            url@ == site_path(seq![self.name(), "tags"@]),
    {
        let url = build_user_url(self.username.as_str());
        let url = with_part(url.as_str(), "tags");
        proof {
            assert(seq![self.name(), "tags"@].drop_last() == seq![self.name()]);
        }
        url
    }
}

} // verus!
