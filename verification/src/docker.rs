//! The identity of one ephemeral environment: the instance name it
//! runs under and the image it is created from. Starting, executing
//! inside, and stopping the instance are the driver's work; the audit
//! logic only decides which commands to issue.

use vstd::prelude::*;

verus! {

/// One ephemeral environment: an instance name and an image path.
pub struct Docker<'a> {
    name: &'a str,
    path: &'a str,
}

impl<'a> View for Docker<'a> {
    type V = (Seq<char>, Seq<char>);

    closed spec fn view(&self) -> (Seq<char>, Seq<char>) {
        (self.name@, self.path@)
    }
}

impl Docker<'_> {
    /// Records the instance name and image path an environment will
    /// run under.
    pub fn new<'a>(name: &'a str, path: &'a str) -> (d: Docker<'a>)
        ensures
            d@ == (name@, path@),
    {
        Docker { name, path }
    }

    /// The instance name commands are addressed to.
    pub fn name(&self) -> (n: &str)
        ensures
            n@ == self@.0,
    {
        self.name
    }

    /// The image path the instance is created from.
    pub fn path(&self) -> (p: &str)
        ensures
            p@ == self@.1,
    {
        self.path
    }
}

} // verus!
