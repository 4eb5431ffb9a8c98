use vstd::prelude::*;

verus! {

/// Where the repository lies and which home directory receives the links.
#[derive(Debug)]
pub struct Config {
    root_path: String,
    home_dir: String,
}

impl Config {
    pub closed spec fn root_spec(&self) -> Seq<char> {
        self.root_path@
    }

    pub closed spec fn home_spec(&self) -> Seq<char> {
        self.home_dir@
    }

    pub fn new(root_path: &str, home_dir: String) -> (r: Config)
        ensures
            r.root_spec() == root_path@,
            r.home_spec() == home_dir@,
    {
        Config { root_path: String::from_str(root_path), home_dir }
    }

    pub fn root_path(&self) -> (r: &str)
        ensures
            r@ == self.root_spec(),
    {
        self.root_path.as_str()
    }

    pub fn home_dir(&self) -> (r: &str)
        ensures
            r@ == self.home_spec(),
    {
        self.home_dir.as_str()
    }
}

} // verus!
