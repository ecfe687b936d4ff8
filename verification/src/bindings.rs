//! What `brew list --json` and `brew info --json` report, as plain values.

use vstd::prelude::*;

verus! {

/// The installed formulae and casks.
#[derive(Debug)]
pub struct BrewList {
    pub formulas: Vec<Formula>,
    pub casks: Vec<Cask>,
}

/// An installed formula.
#[derive(Debug)]
pub struct Formula {
    pub name: String,
    pub versions: Vec<String>,
    pub linked_version: Option<String>,
    pub optlinked_version: Option<String>,
    pub pinned_version: Option<String>,
}

/// An installed cask.
#[derive(Debug)]
pub struct Cask {
    pub token: String,
    pub versions: Vec<String>,
    pub pinned_version: Option<String>,
}

/// What `brew info --json` reports: one entry per package.
pub type Info = Vec<InfoEntry>;

/// One package as `brew info --json` describes it.
#[derive(Debug)]
pub struct InfoEntry {
    pub name: String,
    pub full_name: String,
    pub token: String,
    pub desc: Option<String>,
    pub homepage: Option<String>,
    pub caveats: Option<String>,
    pub installed: Vec<InstalledInfo>,
}

/// One installed version of a package.
#[derive(Debug)]
pub struct InstalledInfo {
    pub version: Option<String>,
}


impl Default for InfoEntry {
    /// An entry with every field empty.
    fn default() -> (e: InfoEntry)
        ensures
            e.name@.len() == 0,
            e.full_name@.len() == 0,
            e.token@.len() == 0,
            e.desc is None,
            e.homepage is None,
            e.caveats is None,
            e.installed@.len() == 0,
    {
        InfoEntry {
            name: String::new(),
            full_name: String::new(),
            token: String::new(),
            desc: None,
            homepage: None,
            caveats: None,
            installed: Vec::new(),
        }
    }
}

impl Default for InstalledInfo {
    /// An installed version that is not given.
    fn default() -> (i: InstalledInfo)
        ensures
            i.version is None,
    {
        InstalledInfo { version: None }
    }
}

} // verus!
