//! Answers of the disk. An answer is made only by asking the disk, so a
//! record of answers shows what the disk said and cannot be written by hand.

use std::path::Path;
use vstd::prelude::*;

verus! {

/// What the disk answered when asked whether something lies at a path: the
/// path and the answer. Its fields are private to this module, and the only
/// way to make one is `path_exists`, which asks the disk.
pub struct DiskAnswer {
    path: String,
    found: bool,
}

impl View for DiskAnswer {
    type V = (Seq<char>, bool);

    closed spec fn view(&self) -> (Seq<char>, bool) {
        (self.path@, self.found)
    }
}

/// The paths and answers of a list of disk answers, in order.
pub open spec fn answers(v: Seq<DiskAnswer>) -> Seq<(Seq<char>, bool)> {
    v.map_values(|a: DiskAnswer| a@)
}

/// `Path::exists`: whether something is on disk at `path`, kept with the
/// path asked about. The contract claims only that the answer is about
/// `path`; nothing is claimed of the answer itself, which depends on the
/// disk at the time of the call.
#[verifier::external_body]
pub fn path_exists(path: &str) -> (a: DiskAnswer)
    ensures
        a@.0 == path@,
{
    DiskAnswer { path: path.to_string(), found: Path::new(path).exists() }
}

impl DiskAnswer {
    /// The path that was asked about.
    pub fn path(&self) -> (p: &String)
        ensures
            p@ == self@.0,
    {
        &self.path
    }

    /// Whether something was found there.
    pub fn found(&self) -> (b: bool)
        ensures
            b == self@.1,
    {
        self.found
    }
}

} // verus!
