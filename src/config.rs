//! Configuration handed to the protocol core: who this process is, who its
//! peers are, and where commands go. Loading it from a file happens outside.

use vstd::prelude::*;
use crate::pdu::EntityIdentifier;

verus! {

/// A participant of the scenario.
#[derive(Clone, Copy, Debug, PartialEq, Eq, Structural)]
pub struct Federates {
    pub site_id: u32,
    pub application_id: u32,
    pub entity_id: u32,
}

/// The identity this application uses as an originator.
#[derive(Clone, Copy, Debug, PartialEq, Eq, Structural)]
pub struct CenturionConfig {
    pub site_id: u32,
    pub application_id: u32,
    pub entity_id: u32,
}

/// The simulation address stored in the application's own settings.
#[derive(Clone, Copy, Debug, PartialEq, Eq, Structural)]
pub struct SimulationAddress {
    pub site_id: u32,
    pub application_id: u32,
    pub entity_id: u32,
}

/// A scenario: its participants, the peer address (`host:port`) that
/// commands go to, and this application's own identity.
#[derive(Debug)]
pub struct ScenarioConfiguration {
    pub federates: Vec<Federates>,
    pub address: String,
    pub centurion_config: CenturionConfig,
}

/// The entity identifier of three configured numbers, if each fits in the
/// 16 bits of the wire format.
pub open spec fn identifier_of(site_id: u32, application_id: u32, entity_id: u32) -> Option<
    EntityIdentifier,
> {
    if site_id <= 0xffff && application_id <= 0xffff && entity_id <= 0xffff {
        Some(
            EntityIdentifier {
                site_id: site_id as u16,
                application_id: application_id as u16,
                entity_id: entity_id as u16,
            },
        )
    } else {
        None
    }
}

fn to_identifier(site_id: u32, application_id: u32, entity_id: u32) -> (r: Option<EntityIdentifier>)
    ensures
        r == identifier_of(site_id, application_id, entity_id),
{
    if site_id <= 0xffff && application_id <= 0xffff && entity_id <= 0xffff {
        Some(
            EntityIdentifier {
                site_id: site_id as u16,
                application_id: application_id as u16,
                entity_id: entity_id as u16,
            },
        )
    } else {
        None
    }
}

impl Federates {
    pub fn entity_identifier(&self) -> (r: Option<EntityIdentifier>)
        ensures
            r == identifier_of(self.site_id, self.application_id, self.entity_id),
    {
        to_identifier(self.site_id, self.application_id, self.entity_id)
    }
}

impl CenturionConfig {
    pub fn entity_identifier(&self) -> (r: Option<EntityIdentifier>)
        ensures
            r == identifier_of(self.site_id, self.application_id, self.entity_id),
    {
        to_identifier(self.site_id, self.application_id, self.entity_id)
    }
}

impl SimulationAddress {
    pub fn entity_identifier(&self) -> (r: Option<EntityIdentifier>)
        ensures
            r == identifier_of(self.site_id, self.application_id, self.entity_id),
    {
        to_identifier(self.site_id, self.application_id, self.entity_id)
    }
}

impl ScenarioConfiguration {
    /// Two configurations hold the same values.
    pub open spec fn same_as(&self, other: &ScenarioConfiguration) -> bool {
        &&& self.federates@ == other.federates@
        &&& self.address@ == other.address@
        &&& self.centurion_config == other.centurion_config
    }

    /// A copy holding the same values.
    pub fn duplicate(&self) -> (r: ScenarioConfiguration)
        ensures
            r.same_as(self),
    {
        let mut federates: Vec<Federates> = Vec::new();
        let mut i: usize = 0;
        while i < self.federates.len()
            invariant
                i <= self.federates@.len(),
                federates@ == self.federates@.subrange(0, i as int),
            decreases self.federates@.len() - i,
        {
            federates.push(self.federates[i]);
            i += 1;
            assert(federates@ =~= self.federates@.subrange(0, i as int));
        }
        assert(federates@ =~= self.federates@);
        ScenarioConfiguration {
            federates,
            address: self.address.clone(),
            centurion_config: self.centurion_config,
        }
    }
}

/// The level of detail that the application logs at.
#[derive(Clone, Copy, Debug, PartialEq, Eq, Structural)]
pub enum LogLevel {
    Trace,
    Debug,
    Info,
    Warn,
    Error,
}

impl LogLevel {
    /// `Trace` in a build with debug assertions, `Info` otherwise.
    pub fn default_for_build(debug_assertions: bool) -> (r: LogLevel)
        ensures
            debug_assertions ==> r == LogLevel::Trace,
            !debug_assertions ==> r == LogLevel::Info,
    {
        if debug_assertions {
            LogLevel::Trace
        } else {
            LogLevel::Info
        }
    }
}

/// Settings that most users leave alone.
#[derive(Clone, Copy, Debug, PartialEq, Eq, Structural)]
pub struct AdvancedConfig {
    pub log_level: LogLevel,
}

/// The application's own settings.
#[derive(Clone, Copy, Debug, PartialEq, Eq, Structural)]
pub struct AppConfig {
    pub simulation_address: SimulationAddress,
    pub advanced: AdvancedConfig,
}

impl AppConfig {
    /// The settings used when none are stored: simulation address 1/50/1 and
    /// the build's default log level.
    pub fn default_for_build(debug_assertions: bool) -> (r: AppConfig)
        ensures
            r.simulation_address == (SimulationAddress { site_id: 1, application_id: 50, entity_id: 1 }),
            debug_assertions ==> r.advanced.log_level == LogLevel::Trace,
            !debug_assertions ==> r.advanced.log_level == LogLevel::Info,
    {
        AppConfig {
            simulation_address: SimulationAddress { site_id: 1, application_id: 50, entity_id: 1 },
            advanced: AdvancedConfig { log_level: LogLevel::default_for_build(debug_assertions) },
        }
    }
}

/// Asking for the scenario before one was set.
#[derive(Clone, Copy, Debug, PartialEq, Eq, Structural)]
pub enum ConfigError {
    NotInitialized,
}

/// Holds the current scenario, once one is set.
pub struct Config {
    pub current: Option<ScenarioConfiguration>,
}

impl Config {
    /// A holder with no scenario yet.
    pub fn init() -> (r: Config)
        ensures
            r.current is None,
    {
        Config { current: None }
    }

    /// Replaces the current scenario.
    pub fn set(&mut self, config: ScenarioConfiguration)
        ensures
            final(self).current == Some(config),
    {
        self.current = Some(config);
    }

    /// A copy of the current scenario, or `NotInitialized` if none was set.
    pub fn get(&self) -> (r: Result<ScenarioConfiguration, ConfigError>)
        ensures
            self.current is None ==> r == Err::<ScenarioConfiguration, ConfigError>(ConfigError::NotInitialized),
            self.current matches Some(c) ==> r matches Ok(d) && d.same_as(&c),
    {
        match &self.current {
            None => Err(ConfigError::NotInitialized),
            Some(c) => Ok(c.duplicate()),
        }
    }
}

} // verus!
