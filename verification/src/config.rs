//! The configuration: what the service is told at startup.

use vstd::prelude::*;
use std::collections::HashSet;
use crate::event::EventType;
use crate::retry::RetryPolicy;
use crate::params::ParamValue;
use crate::plugins::{
    processing_plugins, processing_registry, validation_plugins, validation_registry,
    ProcessingPluginFactory, ValidationPluginFactory,
};

verus! {

/// Where the service listens.
#[derive(Debug)]
pub struct HttpConfig {
    pub host: String,
    pub port: u16,
}

/// Queue, batching and retry settings of the processing pipeline.
#[derive(Debug, Clone, Copy, PartialEq, Eq, Structural)]
pub struct ProcessorConfig {
    /// The number of events that the queue holds before producers wait.
    pub channel_capacity: usize,
    /// The largest number of events in a batch.
    pub batch_size: usize,
    /// The longest wait of a buffered event for its batch, in milliseconds.
    pub batch_timeout: u64,
    /// The limit on the number of calls of a failing processor on one batch.
    pub retry_attempts: u32,
    /// The wait between two such calls, in milliseconds.
    pub retry_delay: u64,
}

/// The batch size where none is configured.
pub fn default_batch_size() -> (size: usize)
    ensures
        size == 100,
{
    100
}

/// The batch timeout where none is configured, in milliseconds.
pub fn default_batch_timeout() -> (timeout: u64)
    ensures
        timeout == 1000,
{
    1000
}

/// The retry limit where none is configured.
pub fn default_retry_attempts() -> (attempts: u32)
    ensures
        attempts == 3,
{
    3
}

/// The retry delay where none is configured, in milliseconds.
pub fn default_retry_delay() -> (delay: u64)
    ensures
        delay == 1000,
{
    1000
}

/// Parameters of the source-id validator: the ids that are let in. With none
/// named, every id is let in.
#[derive(Debug)]
pub struct SourceIdValidationConfig {
    pub allowed: HashSet<u64>,
}

/// Parameters of the event-type validator: the types that are let in. With
/// none named, every type is let in.
#[derive(Debug)]
pub struct EventTypeValidationConfig {
    pub allowed: Vec<EventType>,
}

/// Parameters of a plugin that takes none.
#[derive(Debug, Clone, Copy, PartialEq, Eq, Structural)]
pub struct NoParamsValidationConfig {}

impl Default for NoParamsValidationConfig {
    fn default() -> (config: NoParamsValidationConfig)
        ensures
            config == (NoParamsValidationConfig {  }),
    {
        NoParamsValidationConfig {  }
    }
}

/// The validators that are configured, each with its parameter block, in the
/// order of the file.
#[derive(Debug)]
pub struct EventValidationConfig {
    pub plugins: Vec<(String, ParamValue)>,
}

/// The processors that are configured, each with its parameter block, in the
/// order of the file.
#[derive(Debug)]
pub struct ProcessingConfig {
    pub plugins: Vec<(String, ParamValue)>,
}

/// The whole configuration.
#[derive(Debug)]
pub struct Config {
    pub http: HttpConfig,
    pub processor: ProcessorConfig,
    pub validation: EventValidationConfig,
    pub processing: ProcessingConfig,
}

/// Why the configuration could not be used.
#[derive(Debug)]
pub enum ConfigError {
    /// The configuration could not be loaded or read into its structure.
    LoadError(String),
    /// The place of the configuration file could not be found out.
    IoError(String),
    /// Validators are configured that do not exist: their names, in the order
    /// of the file.
    UnknownValidationPlugin(Vec<String>),
    /// Processors are configured that do not exist: their names, in the order
    /// of the file.
    UnknownProcessingPlugin(Vec<String>),
}

/// The texts of a list of strings.
pub open spec fn names_of(strings: Seq<String>) -> Seq<Seq<char>> {
    strings.map_values(|name: String| name@)
}

/// The names of the validators that exist.
pub open spec fn validation_names() -> Seq<Seq<char>> {
    validation_registry().map_values(|factory: ValidationPluginFactory| factory.name@)
}

/// The names of the processors that exist.
pub open spec fn processing_names() -> Seq<Seq<char>> {
    processing_registry().map_values(|factory: ProcessingPluginFactory| factory.name@)
}

/// The configured names that are not among the known ones, in the order of
/// the configuration.
pub open spec fn unknown_plugins(configured: Seq<(String, ParamValue)>, known: Seq<Seq<char>>) -> Seq<
    Seq<char>,
>
    decreases configured.len(),
{
    if configured.len() == 0 {
        Seq::empty()
    } else {
        let before = unknown_plugins(configured.drop_last(), known);
        if known.contains(configured.last().0@) {
            before
        } else {
            before.push(configured.last().0@)
        }
    }
}

/// The name is among the known ones.
fn is_known(name: &String, known: &Vec<String>) -> (found: bool)
    ensures
        found == names_of(known@).contains(name@),
{
    let mut i: usize = 0;
    while i < known.len()
        invariant
            i <= known.len(),
            forall|j: int| 0 <= j < i ==> known[j]@ != name@,
        decreases known.len() - i,
    {
        if known[i] == *name {
            proof {
                assert(names_of(known@)[i as int] == name@);
            }
            return true;
        }
        i += 1;
    }
    false
}

/// The configured names that are not among the known ones.
fn collect_unknown(configured: &Vec<(String, ParamValue)>, known: &Vec<String>) -> (unknown: Vec<
    String,
>)
    ensures
        names_of(unknown@) == unknown_plugins(configured@, names_of(known@)),
{
    let mut unknown: Vec<String> = Vec::new();
    let mut i: usize = 0;
    proof {
        assert(configured@.take(0) =~= Seq::<(String, ParamValue)>::empty());
        assert(names_of(unknown@) =~= Seq::<Seq<char>>::empty());
    }
    while i < configured.len()
        invariant
            i <= configured.len(),
            names_of(unknown@) == unknown_plugins(configured@.take(i as int), names_of(known@)),
        decreases configured.len() - i,
    {
        proof {
            assert(configured@.take(i as int + 1).drop_last() =~= configured@.take(i as int));
            assert(configured@.take(i as int + 1).last() == configured@[i as int]);
        }
        let ghost before = unknown@;
        if !is_known(&configured[i].0, known) {
            unknown.push(configured[i].0.clone());
            proof {
                assert(names_of(unknown@) =~= names_of(before).push(configured@[i as int].0@));
            }
        }
        i += 1;
    }
    proof {
        assert(configured@.take(i as int) =~= configured@);
    }
    unknown
}

/// The names of the validators that exist, in the order of their table.
fn known_validation_plugins() -> (names: Vec<String>)
    ensures
        names_of(names@) == validation_names(),
{
    let table = validation_plugins();
    let mut names: Vec<String> = Vec::new();
    let mut i: usize = 0;
    while i < table.len()
        invariant
            i <= table.len(),
            table@ == validation_registry(),
            names_of(names@) =~= validation_names().take(i as int),
        decreases table.len() - i,
    {
        let ghost before = names@;
        names.push(table[i].name.to_owned());
        proof {
            assert(validation_names()[i as int] == table@[i as int].name@);
            assert(names_of(names@) =~= names_of(before).push(table@[i as int].name@));
            assert(validation_names().take(i as int + 1) =~= validation_names().take(i as int).push(
                table@[i as int].name@,
            ));
        }
        i += 1;
    }
    proof {
        assert(validation_names().take(i as int) =~= validation_names());
    }
    names
}

/// The names of the processors that exist, in the order of their table.
fn known_processing_plugins() -> (names: Vec<String>)
    ensures
        names_of(names@) == processing_names(),
{
    let table = processing_plugins();
    let mut names: Vec<String> = Vec::new();
    let mut i: usize = 0;
    while i < table.len()
        invariant
            i <= table.len(),
            table@ == processing_registry(),
            names_of(names@) =~= processing_names().take(i as int),
        decreases table.len() - i,
    {
        let ghost before = names@;
        names.push(table[i].name.to_owned());
        proof {
            assert(processing_names()[i as int] == table@[i as int].name@);
            assert(names_of(names@) =~= names_of(before).push(table@[i as int].name@));
            assert(processing_names().take(i as int + 1) =~= processing_names().take(i as int).push(
                table@[i as int].name@,
            ));
        }
        i += 1;
    }
    proof {
        assert(processing_names().take(i as int) =~= processing_names());
    }
    names
}

impl ProcessorConfig {
    /// The retry policy that the configuration asks for.
    pub fn retry_policy(&self) -> (policy: RetryPolicy)
        ensures
            policy.retry_attempts == self.retry_attempts,
            policy.retry_delay == self.retry_delay,
    {
        RetryPolicy { retry_attempts: self.retry_attempts, retry_delay: self.retry_delay }
    }
}

impl Config {
    /// Checks the configured plugin names against the tables of the plugins
    /// that exist. A configured validator that does not exist is an error, and
    /// so is, where all validators exist, a configured processor that does not
    /// exist: the service must not start with a name that nothing answers to.
    pub fn validate_plugins(&self) -> (outcome: Result<(), ConfigError>)
        ensures
            ({
                let validators = unknown_plugins(self.validation.plugins@, validation_names());
                let processors = unknown_plugins(self.processing.plugins@, processing_names());
                if validators.len() > 0 {
                    outcome matches Err(ConfigError::UnknownValidationPlugin(names)) && names_of(
                        names@,
                    ) == validators
                } else if processors.len() > 0 {
                    outcome matches Err(ConfigError::UnknownProcessingPlugin(names)) && names_of(
                        names@,
                    ) == processors
                } else {
                    outcome is Ok
                }
            }),
    {
        let known_validators = known_validation_plugins();
        let unknown_validators = collect_unknown(&self.validation.plugins, &known_validators);
        if unknown_validators.len() > 0 {
            return Err(ConfigError::UnknownValidationPlugin(unknown_validators));
        }
        let known_processors = known_processing_plugins();
        let unknown_processors = collect_unknown(&self.processing.plugins, &known_processors);
        if unknown_processors.len() > 0 {
            return Err(ConfigError::UnknownProcessingPlugin(unknown_processors));
        }
        Ok(())
    }
}

} // verus!
