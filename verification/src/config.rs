//! Per-server relay configuration, as loaded (read-only) from the
//! configuration store.

use vstd::prelude::*;

verus! {

/// The mathematical value of a [`Config`].
pub struct ConfigView {
    pub server_id: int,
    pub moderator_role: Option<Seq<char>>,
    pub category: Option<int>,
}

/// Relay settings for one server: the server's identifier, the name of the
/// role whose members should see relayed mod mail (if configured), and the
/// parent category under which incident channels are created (if any).
#[derive(Debug)]
pub struct Config {
    pub server_id: i64,
    pub moderator_role: Option<String>,
    pub category: Option<i64>,
}

impl View for Config {
    type V = ConfigView;

    open spec fn view(&self) -> ConfigView {
        ConfigView {
            server_id: self.server_id as int,
            moderator_role: match self.moderator_role {
                Some(ref r) => Some(r@),
                None => None,
            },
            category: match self.category {
                Some(c) => Some(c as int),
                None => None,
            },
        }
    }
}

impl Config {
    /// Returns a copy of this configuration.
    pub fn duplicate(&self) -> (r: Config)
        ensures
            r@ == self@,
    {
        Config {
            server_id: self.server_id,
            moderator_role: match self.moderator_role {
                Some(ref r) => Some(r.clone()),
                None => None,
            },
            category: self.category,
        }
    }

    /// A server is moderated, for the purposes of the relay, exactly when a
    /// moderator role is configured for it.
    pub open spec fn spec_is_moderated(&self) -> bool {
        self@.moderator_role is Some
    }

    /// Whether a moderator role is configured for this server.
    #[verifier::when_used_as_spec(spec_is_moderated)]
    pub fn is_moderated(&self) -> (r: bool)
        ensures
            r == self.spec_is_moderated(),
    {
        self.moderator_role.is_some()
    }
}

/// A configuration row about to be inserted into the configuration store.
/// The core never writes configuration; this type exists for the shell that
/// provisions new servers.
#[derive(Debug)]
pub struct NewConfig {
    pub server_id: i64,
    pub moderator_role: Option<String>,
    pub category: Option<i64>,
}

impl View for NewConfig {
    type V = ConfigView;

    open spec fn view(&self) -> ConfigView {
        ConfigView {
            server_id: self.server_id as int,
            moderator_role: match self.moderator_role {
                Some(ref r) => Some(r@),
                None => None,
            },
            category: match self.category {
                Some(c) => Some(c as int),
                None => None,
            },
        }
    }
}

} // verus!
