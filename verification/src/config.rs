//! Process-wide configuration: the projects root and the log and
//! state directories.  Reading and writing the configuration file is
//! the driver's job; the values and their derivation are fixed here.

use vstd::prelude::*;

verus! {

/// The tool's configuration.
#[derive(Debug)]
pub struct Config {
    pub projects_root: String,
    pub log_path: String,
    pub state_path: String,
}

impl Config {
    /// The default configuration for a user whose home directory is
    /// `home`.
    pub fn default_for_home(home: &str) -> (c: Config)
        ensures
            c.projects_root@ == "/var/www/html"@,
            c.log_path@ == home@ + "/.sahakari/logs"@,
            c.state_path@ == home@ + "/.sahakari/state"@,
    {
        let mut log_path = String::from_str(home);
        log_path.append("/.sahakari/logs");
        let mut state_path = String::from_str(home);
        state_path.append("/.sahakari/state");
        Config { projects_root: String::from_str("/var/www/html"), log_path, state_path }
    }

    /// A copy with the projects root replaced and everything else
    /// kept.
    pub fn with_root(&self, root: &str) -> (c: Config)
        ensures
            c.projects_root@ == root@,
            c.log_path@ == self.log_path@,
            c.state_path@ == self.state_path@,
    {
        Config {
            projects_root: String::from_str(root),
            log_path: self.log_path.clone(),
            state_path: self.state_path.clone(),
        }
    }
}

} // verus!
