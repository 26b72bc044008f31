//! Application configuration: the hosts the application may serve
//! absolute URIs for, and an optional crash-reporting address that only
//! the surrounding program uses.

use vstd::prelude::*;
use vstd::string::*;

use crate::text::str_eq;

verus! {

pub struct AppConfig {
    pub hosts: Vec<String>,
    pub sentry_dsn: Option<String>,
}

impl Default for AppConfig {
    fn default() -> (r: AppConfig)
        ensures
            r.hosts@.len() == 0,
            r.sentry_dsn is None,
    {
        AppConfig { hosts: Vec::new(), sentry_dsn: None }
    }
}

impl AppConfig {
    /// The configuration names this host.
    pub open spec fn allows_host_spec(&self, host: Seq<char>) -> bool {
        exists|i: int| 0 <= i < self.hosts@.len() && (#[trigger] self.hosts@[i])@ == host
    }

    /// Whether the configuration names this host.
    pub fn allows_host(&self, host: &str) -> (r: bool)
        ensures
            r == self.allows_host_spec(host@),
    {
        let mut i: usize = 0;
        while i < self.hosts.len()
            invariant
                0 <= i <= self.hosts@.len(),
                forall|j: int| 0 <= j < i ==> (#[trigger] self.hosts@[j])@ != host@,
            decreases self.hosts@.len() - i,
        {
            if str_eq(self.hosts[i].as_str(), host) {
                return true;
            }
            i = i + 1;
        }
        false
    }
}

} // verus!
