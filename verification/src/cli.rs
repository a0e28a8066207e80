use std::path::PathBuf;
use vstd::prelude::*;

verus! {

/// `std::path::PathBuf`, carried through unread.
#[verifier::external_type_specification]
#[verifier::external_body]
pub struct ExPathBuf(PathBuf);

/// The arguments of a run that are given by name: a name and a path.
#[derive(Debug)]
pub struct Cli {
    pub name: String,
    pub path: PathBuf,
}

impl Cli {
    /// The arguments as given.
    pub fn new(name: String, path: PathBuf) -> (cli: Cli)
        ensures
            cli.name == name,
            cli.path == path,
    {
        Cli { name, path }
    }
}

} // verus!
