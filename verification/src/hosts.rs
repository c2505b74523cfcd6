//! SSH host configuration entries for remote session management.

use vstd::prelude::*;

verus! {

/// Connection parameters for one configured SSH host.
#[derive(Debug, Clone)]
pub struct HostConfig {
    /// Host alias used throughout the interface.
    pub name: String,
    /// Hostname or IP address.
    pub hostname: String,
    /// SSH user name, when not the default.
    pub user: Option<String>,
    /// SSH port, when not the default.
    pub port: Option<u16>,
    /// Path to an identity file, when one is configured.
    pub identity_file: Option<String>,
}

/// The `user@hostname` form when a user is set, the bare hostname otherwise.
pub open spec fn connection_string_spec(hostname: Seq<char>, user: Option<Seq<char>>) -> Seq<
    char,
> {
    match user {
        Some(u) => u + "@"@ + hostname,
        None => hostname,
    }
}

impl HostConfig {
    /// Create a host entry with only a name and a hostname.
    pub fn new(name: &str, hostname: &str) -> (h: HostConfig)
        ensures
            h.name@ == name@,
            h.hostname@ == hostname@,
            h.user is None,
            h.port is None,
            h.identity_file is None,
    {
        HostConfig {
            name: name.to_owned(),
            hostname: hostname.to_owned(),
            user: None,
            port: None,
            identity_file: None,
        }
    }

    /// Set the user name.
    pub fn with_user(self, user: &str) -> (h: HostConfig)
        ensures
            h.name == self.name,
            h.hostname == self.hostname,
            h.user matches Some(u) && u@ == user@,
            h.port == self.port,
            h.identity_file == self.identity_file,
    {
        HostConfig { user: Some(user.to_owned()), ..self }
    }

    /// Set the port.
    pub fn with_port(self, port: u16) -> (h: HostConfig)
        ensures
            h.name == self.name,
            h.hostname == self.hostname,
            h.user == self.user,
            h.port == Some(port),
            h.identity_file == self.identity_file,
    {
        HostConfig { port: Some(port), ..self }
    }

    /// Set the identity file path.
    pub fn with_identity_file(self, path: &str) -> (h: HostConfig)
        ensures
            h.name == self.name,
            h.hostname == self.hostname,
            h.user == self.user,
            h.port == self.port,
            h.identity_file matches Some(p) && p@ == path@,
    {
        HostConfig { identity_file: Some(path.to_owned()), ..self }
    }

    /// SSH connection string (`user@hostname`, or just the hostname).
    pub fn connection_string(&self) -> (r: String)
        ensures
            r@ == connection_string_spec(
                self.hostname@,
                match self.user {
                    Some(ref u) => Some(u@),
                    None => None,
                },
            ),
    {
        match &self.user {
            Some(user) => {
                let mut r = user.clone();
                proof {
                    reveal_strlit("@");
                }
                r.append("@");
                r.append(self.hostname.as_str());
                assert(r@ =~= user@ + "@"@ + self.hostname@);
                r
            },
            None => self.hostname.clone(),
        }
    }
}

} // verus!
