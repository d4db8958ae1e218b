//! A user's profile.

use vstd::prelude::*;
use crate::utils::transform::{build_user_url, site_path};

verus! {

/// A user's profile.
#[derive(Debug)]
pub struct UserProfile {
    username: String,
}

impl UserProfile {
    /// The name of the user.
    pub closed spec fn name(&self) -> Seq<char> {
        self.username@
    }

    /// The pages of the user `username`.
    pub fn new(username: &str) -> (out: Self)
        ensures
            out.name() == username@,
    {
        Self { username: username.to_owned() }
    }

    /// The address of the user's profile.
    pub fn profile_url(&self) -> (url: String)
        ensures
            url@ == site_path(seq![self.name()]),
    {
        build_user_url(self.username.as_str())
    }
}

} // verus!
