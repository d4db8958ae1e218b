//! A user's lists.

use vstd::prelude::*;
use crate::utils::transform::{build_user_url, site_path, with_part};

verus! {

/// A user's lists.
#[derive(Debug)]
pub struct UserLists {
    username: String,
}

impl UserLists {
    /// The name of the user.
    pub closed spec fn name(&self) -> Seq<char> {
        self.username@
    }

    /// The pages of the user `username`.
    pub fn new(username: &str) -> (out: Self)
        ensures
            out.name() == username@,
    {
        Self { username: username.to_owned() }
    }

    /// The address of the user's lists.
    pub fn lists_url(&self) -> (url: String)
        ensures
            url@ == site_path(seq![self.name(), "lists"@]),
    {
        let url = build_user_url(self.username.as_str());
        let url = with_part(url.as_str(), "lists");
        proof {
            assert(seq![self.name(), "lists"@].drop_last() == seq![self.name()]);
        }
        url
    }
}

} // verus!
