//! The settings that the pipelines read.

use vstd::prelude::*;
use crate::models::opt_text;

verus! {

/// Where the repositories are and how commits are signed. Paths are Unix
/// paths; a relative one is taken from the working directory.
#[derive(Debug)]
pub struct Config {
    /// The production repository.
    pub repo_path: String,
    /// The directory that holds one repository per build, named by the
    /// number of the build.
    pub build_repo_base_path: String,
    /// The collection that the repositories of builds belong to, if any.
    pub collection_id: Option<String>,
    /// The home directory of GPG, if commits are signed from another one.
    pub gpg_homedir: Option<String>,
    /// The key that commits are signed with, if any.
    pub build_gpg_key: Option<String>,
    /// The address under which the service is reached.
    pub base_url: String,
}

/// A `Config` as text.
pub struct ConfigView {
    pub repo_path: Seq<char>,
    pub build_repo_base_path: Seq<char>,
    pub collection_id: Option<Seq<char>>,
    pub gpg_homedir: Option<Seq<char>>,
    pub build_gpg_key: Option<Seq<char>>,
    pub base_url: Seq<char>,
}

impl View for Config {
    type V = ConfigView;

    open spec fn view(&self) -> ConfigView {
        ConfigView {
            repo_path: self.repo_path@,
            build_repo_base_path: self.build_repo_base_path@,
            collection_id: opt_text(self.collection_id),
            gpg_homedir: opt_text(self.gpg_homedir),
            build_gpg_key: opt_text(self.build_gpg_key),
            base_url: self.base_url@,
        }
    }
}

} // verus!
