//! The outside services that the program asks, by name, and what they
//! answer.

use vstd::prelude::*;

verus! {

/// A service that requests go to.
pub trait Api {
    spec fn otel_text(&self) -> Seq<char>;

    /// The name under which requests to the service are measured.
    fn otel_name(&self) -> (name: &'static str)
        ensures
            name@ == self.otel_text(),
    ;
}

#[derive(Clone, Copy, Debug, PartialEq, Eq, Structural)]
pub struct GithubApi;

impl Api for GithubApi {
    open spec fn otel_text(&self) -> Seq<char> {
        "github"@
    }

    fn otel_name(&self) -> (name: &'static str) {
        "github"
    }
}

/// One of the emails that the provider lists for a user.
#[derive(Clone, Debug, PartialEq, Eq)]
pub struct EmailRecord {
    pub email: String,
}

} // verus!
