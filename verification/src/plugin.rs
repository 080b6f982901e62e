//! The lifecycle of the authentication plugin: inactive until it is given a
//! configuration that breaks no rule, active from then on until it is
//! deactivated. No step of the lifecycle leads to the error state.

use crate::config::AuthConfig;
use crate::error::AuthError;
use crate::service::AuthService;
use vstd::prelude::*;
use vstd::string::StringExecFns;

verus! {

/// Where a plugin stands in its life.
#[derive(Debug, Clone, Copy, PartialEq, Eq, Structural)]
pub enum PluginState {
    Inactive,
    Active,
    Error,
}

/// What a plugin says of itself.
#[derive(Debug)]
pub struct PluginInfo {
    pub id: String,
    pub name: String,
    pub version: String,
    pub description: String,
}

/// The authentication plugin. It is active exactly while it holds a
/// service.
pub struct AuthPlugin {
    info: PluginInfo,
    service: Option<AuthService>,
}

impl AuthPlugin {
    pub closed spec fn spec_info(&self) -> &PluginInfo {
        &self.info
    }

    pub closed spec fn spec_state(&self) -> PluginState {
        match self.service {
            Some(_) => PluginState::Active,
            None => PluginState::Inactive,
        }
    }

    /// The configuration of the service that the plugin holds, if it holds
    /// one.
    pub closed spec fn active_config(&self) -> Option<AuthConfig> {
        match self.service {
            Some(service) => Some(*service.config()),
            None => None,
        }
    }

    /// A plugin is active exactly while it holds a service.
    pub proof fn law_active_with_service(&self)
        ensures
            self.active_config() is Some <==> self.state() == PluginState::Active,
            self.state() != PluginState::Error,
    {
    }

    /// A plugin that is inactive.
    pub fn new() -> (plugin: AuthPlugin)
        ensures
            plugin.state() == PluginState::Inactive,
            plugin.active_config() is None,
            plugin.info().id@ == "rustpress-auth"@,
            plugin.info().name@ == "RustPress Authentication"@,
            plugin.info().version@ == "0.1.0"@,
            plugin.info().description@ == "Core authentication system for RustPress"@,
    {
        AuthPlugin {
            info: PluginInfo {
                id: String::from_str("rustpress-auth"),
                name: String::from_str("RustPress Authentication"),
                version: String::from_str("0.1.0"),
                description: String::from_str("Core authentication system for RustPress"),
            },
            service: None,
        }
    }

    #[verifier::when_used_as_spec(spec_info)]
    pub fn info(&self) -> (info: &PluginInfo)
        ensures
            info == self.info(),
    {
        &self.info
    }

    #[verifier::when_used_as_spec(spec_state)]
    pub fn state(&self) -> (state: PluginState)
        ensures
            state == self.state(),
    {
        match &self.service {
            Some(_) => PluginState::Active,
            None => PluginState::Inactive,
        }
    }

    /// The service of an active plugin.
    pub fn auth_service(&self) -> (service: Option<&AuthService>)
        ensures
            match service {
                Some(held) => self.active_config() == Some(*held.config()),
                None => self.active_config() is None,
            },
    {
        self.service.as_ref()
    }

    /// Activates the plugin with a configuration. A configuration that
    /// breaks a rule is refused and leaves the plugin as it was.
    pub fn activate(&mut self, config: AuthConfig) -> (done: Result<(), AuthError>)
        ensures
            final(self).info() == old(self).info(),
            done == match config.fault() {
                Some(fault) => Err::<(), AuthError>(AuthError::Config(fault)),
                None => Ok(()),
            },
            match config.fault() {
                Some(_) => final(self).state() == old(self).state() && final(self).active_config()
                    == old(self).active_config(),
                None => final(self).state() == PluginState::Active && final(self).active_config()
                    == Some(config),
            },
    {
        match config.validate() {
            Ok(_) => {},
            Err(e) => return Err(e),
        }
        self.service = Some(AuthService::new(config));
        Ok(())
    }

    /// Deactivates the plugin and drops its service.
    pub fn deactivate(&mut self)
        ensures
            final(self).info() == old(self).info(),
            final(self).state() == PluginState::Inactive,
            final(self).active_config() is None,
    {
        self.service = None;
    }
}

} // verus!
