//! The plugin registry: the table of the plugins that exist, and the building
//! of the configured ones.
//!
//! The table is explicit and ordered. Validators and processors are built, and
//! later run, in the order of the table.

use vstd::prelude::*;
use crate::config::{Config, EventTypeValidationConfig, NoParamsValidationConfig, SourceIdValidationConfig};
use crate::event::{Event, EventTypeView, EventValidationError, EventView, RejectionView};
use crate::params::{
    event_type_params, no_fields, source_id_params, type_views, ParamError, ParamErrorView,
    ParamValue,
};
use crate::processing::source_telemetry::TelemetryView;
use crate::processing::storage::{StorageProcessor, STORAGE_PROCESSOR};
use crate::processing::{EventProcessor, ProcessingError};
use crate::store::TelemetryStore;
use crate::validation::event_type::{EventTypeValidator, EVENT_TYPE_VALIDATOR};
use crate::validation::source_id::{SourceIdValidator, SOURCE_ID_VALIDATOR};
use crate::validation::EventValidator;

verus! {

/// Why a plugin could not be built.
#[derive(Debug)]
pub enum PluginError {
    /// The parameter block of the named plugin does not meet the plugin's
    /// schema.
    ParameterDeserialization { plugin_name: String, source: ParamError },
}

/// The mathematical value of a `PluginError`.
pub struct PluginErrorView {
    pub plugin_name: Seq<char>,
    pub source: ParamErrorView,
}

impl View for PluginError {
    type V = PluginErrorView;

    open spec fn view(&self) -> PluginErrorView {
        match self {
            PluginError::ParameterDeserialization { plugin_name, source } => PluginErrorView {
                plugin_name: plugin_name@,
                source: source@,
            },
        }
    }
}

impl PluginErrorView {
    /// The error as a line of text.
    pub open spec fn message(self) -> Seq<char> {
        "Failed to parse parameters for plugin '"@ + self.plugin_name + "': "@
            + self.source.message()
    }
}

impl PluginError {
    /// The error as a line of text, with the name of the plugin.
    pub fn message(&self) -> (text: String)
        ensures
            text@ == self@.message(),
    {
        match self {
            PluginError::ParameterDeserialization { plugin_name, source } => {
                "Failed to parse parameters for plugin '".to_owned().concat(
                    plugin_name.as_str(),
                ).concat("': ").concat(source.message().as_str())
            },
        }
    }
}

/// A validator of one of the kinds that exist.
#[derive(Debug)]
pub enum ValidatorPlugin {
    EventType(EventTypeValidator),
    SourceId(SourceIdValidator),
}

/// What a validator is configured to let in.
pub enum ValidatorModel {
    /// The event types listed, or every type where the list is empty.
    EventType(Seq<EventTypeView>),
    /// The source ids named, or every id where none is named.
    SourceId(Set<u64>),
}

impl View for ValidatorPlugin {
    type V = ValidatorModel;

    open spec fn view(&self) -> ValidatorModel {
        match self {
            ValidatorPlugin::EventType(validator) => ValidatorModel::EventType(
                type_views(validator.allowed_types@),
            ),
            ValidatorPlugin::SourceId(validator) => ValidatorModel::SourceId(
                validator.allowed_ids@,
            ),
        }
    }
}

impl EventValidator for ValidatorPlugin {
    open spec fn refusal(&self, event: EventView) -> Option<RejectionView> {
        match self {
            ValidatorPlugin::EventType(validator) => validator.refusal(event),
            ValidatorPlugin::SourceId(validator) => validator.refusal(event),
        }
    }

    fn validate(&self, event: &Event) -> (outcome: Result<(), EventValidationError>) {
        match self {
            ValidatorPlugin::EventType(validator) => validator.validate(event),
            ValidatorPlugin::SourceId(validator) => validator.validate(event),
        }
    }

    fn name(&self) -> (name: &'static str)
        ensures
            name@ == (match self {
                ValidatorPlugin::EventType(_) => EVENT_TYPE_VALIDATOR@,
                ValidatorPlugin::SourceId(_) => SOURCE_ID_VALIDATOR@,
            }),
    {
        match self {
            ValidatorPlugin::EventType(validator) => validator.name(),
            ValidatorPlugin::SourceId(validator) => validator.name(),
        }
    }
}

/// A processor of one of the kinds that exist.
#[derive(Debug)]
pub enum ProcessorPlugin {
    Storage(StorageProcessor),
}

impl EventProcessor for ProcessorPlugin {
    open spec fn processes(
        &self,
        before: Map<u64, TelemetryView>,
        events: Seq<EventView>,
        after: Map<u64, TelemetryView>,
        outcome: Result<(), ProcessingError>,
    ) -> bool {
        match self {
            ProcessorPlugin::Storage(processor) => processor.processes(
                before,
                events,
                after,
                outcome,
            ),
        }
    }

    fn process_event(&self, store: &mut TelemetryStore, events: &[Event]) -> (outcome: Result<
        (),
        ProcessingError,
    >) {
        match self {
            ProcessorPlugin::Storage(processor) => processor.process_event(store, events),
        }
    }

    fn name(&self) -> (name: &'static str)
        ensures
            name@ == STORAGE_PROCESSOR@,
    {
        match self {
            ProcessorPlugin::Storage(processor) => processor.name(),
        }
    }
}

/// How a validator of some kind is made from its parameter block.
#[derive(Clone, Copy, Debug, PartialEq, Eq, Structural)]
pub enum ValidatorConstructor {
    EventType,
    SourceId,
}

/// How a processor of some kind is made from its parameter block.
#[derive(Clone, Copy, Debug, PartialEq, Eq, Structural)]
pub enum ProcessorConstructor {
    Storage,
}

/// An entry of the table of validators: a name and the way to build a
/// validator of that name.
#[derive(Clone, Copy, Debug)]
pub struct ValidationPluginFactory {
    pub name: &'static str,
    pub constructor: ValidatorConstructor,
}

/// An entry of the table of processors: a name and the way to build a
/// processor of that name.
#[derive(Clone, Copy, Debug)]
pub struct ProcessingPluginFactory {
    pub name: &'static str,
    pub constructor: ProcessorConstructor,
}

/// The error of a plugin whose parameter block was refused.
pub open spec fn refused(plugin_name: Seq<char>, reason: ParamErrorView) -> PluginErrorView {
    PluginErrorView { plugin_name, source: reason }
}

impl ValidatorConstructor {
    /// What the constructor makes of a parameter block.
    pub open spec fn constructs(self, params: ParamValue) -> Result<ValidatorModel, PluginErrorView> {
        match self {
            ValidatorConstructor::EventType => match event_type_params(params) {
                Ok(types) => Ok(ValidatorModel::EventType(types)),
                Err(reason) => Err(refused(EVENT_TYPE_VALIDATOR@, reason)),
            },
            ValidatorConstructor::SourceId => match source_id_params(params) {
                Ok(ids) => Ok(ValidatorModel::SourceId(ids)),
                Err(reason) => Err(refused(SOURCE_ID_VALIDATOR@, reason)),
            },
        }
    }

    /// Builds a validator from its parameter block.
    pub fn construct(&self, params: &ParamValue) -> (outcome: Result<ValidatorPlugin, PluginError>)
        ensures
            match self.constructs(*params) {
                Ok(model) => outcome matches Ok(validator) && validator@ == model,
                Err(reason) => outcome matches Err(error) && error@ == reason,
            },
    {
        match self {
            ValidatorConstructor::EventType => match construct_event_type_validator(params) {
                Ok(validator) => Ok(ValidatorPlugin::EventType(validator)),
                Err(error) => Err(error),
            },
            ValidatorConstructor::SourceId => match construct_source_id_validator(params) {
                Ok(validator) => Ok(ValidatorPlugin::SourceId(validator)),
                Err(error) => Err(error),
            },
        }
    }
}

impl ProcessorConstructor {
    /// What the constructor makes of a parameter block.
    pub open spec fn constructs(self, params: ParamValue) -> Result<
        ProcessorConstructor,
        PluginErrorView,
    > {
        match self {
            ProcessorConstructor::Storage => match no_fields(params) {
                Ok(()) => Ok(ProcessorConstructor::Storage),
                Err(reason) => Err(refused(STORAGE_PROCESSOR@, reason)),
            },
        }
    }

    /// Builds a processor from its parameter block.
    pub fn construct(&self, params: &ParamValue) -> (outcome: Result<ProcessorPlugin, PluginError>)
        ensures
            match self.constructs(*params) {
                Ok(kind) => outcome matches Ok(processor) && kind_of(processor) == kind,
                Err(reason) => outcome matches Err(error) && error@ == reason,
            },
    {
        match self {
            ProcessorConstructor::Storage => match construct_storage_processor(params) {
                Ok(processor) => Ok(ProcessorPlugin::Storage(processor)),
                Err(error) => Err(error),
            },
        }
    }
}

/// The kind of a processor.
pub open spec fn kind_of(processor: ProcessorPlugin) -> ProcessorConstructor {
    match processor {
        ProcessorPlugin::Storage(_) => ProcessorConstructor::Storage,
    }
}

/// Builds the event-type validator from its parameter block.
pub fn construct_event_type_validator(config_params: &ParamValue) -> (outcome: Result<
    EventTypeValidator,
    PluginError,
>)
    ensures
        match event_type_params(*config_params) {
            Ok(types) => outcome matches Ok(validator) && type_views(validator.allowed_types@)
                == types,
            Err(reason) => outcome matches Err(error) && error@ == refused(
                EVENT_TYPE_VALIDATOR@,
                reason,
            ),
        },
{
    match EventTypeValidationConfig::from_params(config_params) {
        Ok(config) => Ok(EventTypeValidator::new(config)),
        Err(source) => Err(
            PluginError::ParameterDeserialization {
                plugin_name: EVENT_TYPE_VALIDATOR.to_owned(),
                source,
            },
        ),
    }
}

/// Builds the source-id validator from its parameter block.
pub fn construct_source_id_validator(config_params: &ParamValue) -> (outcome: Result<
    SourceIdValidator,
    PluginError,
>)
    ensures
        match source_id_params(*config_params) {
            Ok(ids) => outcome matches Ok(validator) && validator.allowed_ids@ == ids,
            Err(reason) => outcome matches Err(error) && error@ == refused(
                SOURCE_ID_VALIDATOR@,
                reason,
            ),
        },
{
    match SourceIdValidationConfig::from_params(config_params) {
        Ok(config) => Ok(SourceIdValidator::new(config)),
        Err(source) => Err(
            PluginError::ParameterDeserialization {
                plugin_name: SOURCE_ID_VALIDATOR.to_owned(),
                source,
            },
        ),
    }
}

/// Builds the storage processor from its parameter block. The processor takes
/// no parameters, and the block is still held to the schema of an empty table.
pub fn construct_storage_processor(config_params: &ParamValue) -> (outcome: Result<
    StorageProcessor,
    PluginError,
>)
    ensures
        match no_fields(*config_params) {
            Ok(()) => outcome is Ok,
            Err(reason) => outcome matches Err(error) && error@ == refused(
                STORAGE_PROCESSOR@,
                reason,
            ),
        },
{
    match NoParamsValidationConfig::from_params(config_params) {
        Ok(config) => Ok(StorageProcessor::new(config)),
        Err(source) => Err(
            PluginError::ParameterDeserialization {
                plugin_name: STORAGE_PROCESSOR.to_owned(),
                source,
            },
        ),
    }
}

/// The table of validators, in the order in which they are built and run.
pub open spec fn validation_registry() -> Seq<ValidationPluginFactory> {
    seq![
        ValidationPluginFactory {
            name: EVENT_TYPE_VALIDATOR,
            constructor: ValidatorConstructor::EventType,
        },
        ValidationPluginFactory {
            name: SOURCE_ID_VALIDATOR,
            constructor: ValidatorConstructor::SourceId,
        },
    ]
}

/// The table of processors, in the order in which they are built and run.
pub open spec fn processing_registry() -> Seq<ProcessingPluginFactory> {
    seq![
        ProcessingPluginFactory {
            name: STORAGE_PROCESSOR,
            constructor: ProcessorConstructor::Storage,
        },
    ]
}

/// The table of validators.
pub fn validation_plugins() -> (table: Vec<ValidationPluginFactory>)
    ensures
        table@ == validation_registry(),
{
    let mut table: Vec<ValidationPluginFactory> = Vec::new();
    table.push(
        ValidationPluginFactory {
            name: EVENT_TYPE_VALIDATOR,
            constructor: ValidatorConstructor::EventType,
        },
    );
    table.push(
        ValidationPluginFactory {
            name: SOURCE_ID_VALIDATOR,
            constructor: ValidatorConstructor::SourceId,
        },
    );
    proof {
        assert(table@ =~= validation_registry());
    }
    table
}

/// The table of processors.
pub fn processing_plugins() -> (table: Vec<ProcessingPluginFactory>)
    ensures
        table@ == processing_registry(),
{
    let mut table: Vec<ProcessingPluginFactory> = Vec::new();
    table.push(
        ProcessingPluginFactory {
            name: STORAGE_PROCESSOR,
            constructor: ProcessorConstructor::Storage,
        },
    );
    proof {
        assert(table@ =~= processing_registry());
    }
    table
}

/// The parameter block that a configuration gives for a plugin name: that of
/// the first entry of this name.
pub open spec fn params_of(plugins: Seq<(String, ParamValue)>, name: Seq<char>) -> Option<ParamValue>
    decreases plugins.len(),
{
    if plugins.len() == 0 {
        None
    } else if plugins.first().0@ == name {
        Some(plugins.first().1)
    } else {
        params_of(plugins.drop_first(), name)
    }
}

/// Looks a plugin name up in a configuration.
pub fn find_params<'a>(plugins: &'a Vec<(String, ParamValue)>, name: &str) -> (found: Option<
    &'a ParamValue,
>)
    ensures
        match params_of(plugins@, name@) {
            Some(params) => found matches Some(at) && *at == params,
            None => found is None,
        },
{
    let wanted = name.to_owned();
    let mut i: usize = 0;
    proof {
        assert(plugins@.skip(0) =~= plugins@);
    }
    while i < plugins.len()
        invariant
            i <= plugins.len(),
            wanted@ == name@,
            params_of(plugins@, name@) == params_of(plugins@.skip(i as int), name@),
        decreases plugins.len() - i,
    {
        proof {
            assert(plugins@.skip(i as int).first() == plugins@[i as int]);
            assert(plugins@.skip(i as int).drop_first() =~= plugins@.skip(i as int + 1));
        }
        if plugins[i].0 == wanted {
            return Some(&plugins[i].1);
        }
        i += 1;
    }
    None
}

/// The validators that a configuration asks for: one for each entry of the
/// table whose name is configured, in the order of the table. The first
/// parameter block that its plugin refuses is the error of the whole.
pub open spec fn validators_built(
    factories: Seq<ValidationPluginFactory>,
    plugins: Seq<(String, ParamValue)>,
) -> Result<Seq<ValidatorModel>, PluginErrorView>
    decreases factories.len(),
{
    if factories.len() == 0 {
        Ok(Seq::empty())
    } else {
        match validators_built(factories.drop_last(), plugins) {
            Err(error) => Err(error),
            Ok(built) => match params_of(plugins, factories.last().name@) {
                None => Ok(built),
                Some(params) => match factories.last().constructor.constructs(params) {
                    Ok(model) => Ok(built.push(model)),
                    Err(error) => Err(error),
                },
            },
        }
    }
}

/// The processors that a configuration asks for: one for each entry of the
/// table whose name is configured, in the order of the table. The first
/// parameter block that its plugin refuses is the error of the whole.
pub open spec fn processors_built(
    factories: Seq<ProcessingPluginFactory>,
    plugins: Seq<(String, ParamValue)>,
) -> Result<Seq<ProcessorConstructor>, PluginErrorView>
    decreases factories.len(),
{
    if factories.len() == 0 {
        Ok(Seq::empty())
    } else {
        match processors_built(factories.drop_last(), plugins) {
            Err(error) => Err(error),
            Ok(built) => match params_of(plugins, factories.last().name@) {
                None => Ok(built),
                Some(params) => match factories.last().constructor.constructs(params) {
                    Ok(kind) => Ok(built.push(kind)),
                    Err(error) => Err(error),
                },
            },
        }
    }
}

/// What each validator of a chain is configured to let in.
pub open spec fn validator_models(validators: Seq<ValidatorPlugin>) -> Seq<ValidatorModel> {
    validators.map_values(|validator: ValidatorPlugin| validator@)
}

/// The kind of each processor of a chain.
pub open spec fn processor_kinds(processors: Seq<ProcessorPlugin>) -> Seq<ProcessorConstructor> {
    processors.map_values(|processor: ProcessorPlugin| kind_of(processor))
}

/// Builds the configured validators, in the order of the table. A plugin of
/// the table that the configuration does not name is left out. A configured
/// name that the table does not have builds nothing here: it is
/// `Config::validate_plugins` that stops the startup on such a name.
#[verifier::loop_isolation(false)]
pub fn build_validators(config: &Config) -> (outcome: Result<Vec<ValidatorPlugin>, PluginError>)
    ensures
        match validators_built(validation_registry(), config.validation.plugins@) {
            Ok(models) => outcome matches Ok(validators) && validator_models(validators@)
                == models,
            Err(reason) => outcome matches Err(error) && error@ == reason,
        },
{
    let factories = validation_plugins();
    let mut validators: Vec<ValidatorPlugin> = Vec::new();
    let mut i: usize = 0;
    proof {
        assert(factories@.take(0) =~= Seq::<ValidationPluginFactory>::empty());
        assert(validator_models(validators@) =~= Seq::<ValidatorModel>::empty());
    }
    while i < factories.len()
        invariant
            i <= factories.len(),
            factories@ == validation_registry(),
            validators_built(factories@.take(i as int), config.validation.plugins@) == Ok::<
                Seq<ValidatorModel>,
                PluginErrorView,
            >(validator_models(validators@)),
        decreases factories.len() - i,
    {
        proof {
            assert(factories@.take(i as int + 1).drop_last() =~= factories@.take(i as int));
            assert(factories@.take(i as int + 1).last() == factories@[i as int]);
        }
        let ghost before = validators@;
        match find_params(&config.validation.plugins, factories[i].name) {
            Some(params) => {
                match factories[i].constructor.construct(params) {
                    Ok(validator) => {
                        validators.push(validator);
                        proof {
                            assert(validator_models(validators@) =~= validator_models(before).push(
                                validator@,
                            ));
                        }
                    },
                    Err(error) => {
                        proof {
                            lemma_validators_fail_for_good(
                                factories@,
                                config.validation.plugins@,
                                i as int + 1,
                            );
                        }
                        return Err(error);
                    },
                }
            },
            None => {},
        }
        i += 1;
    }
    proof {
        assert(factories@.take(i as int) =~= factories@);
    }
    Ok(validators)
}

/// Once a validator could not be built, the error stands whatever follows in
/// the table.
proof fn lemma_validators_fail_for_good(
    factories: Seq<ValidationPluginFactory>,
    plugins: Seq<(String, ParamValue)>,
    upto: int,
)
    requires
        0 <= upto <= factories.len(),
        validators_built(factories.take(upto), plugins) is Err,
    ensures
        validators_built(factories, plugins) == validators_built(factories.take(upto), plugins),
    decreases factories.len(),
{
    if upto < factories.len() {
        assert(factories.drop_last().take(upto) =~= factories.take(upto));
        lemma_validators_fail_for_good(factories.drop_last(), plugins, upto);
    } else {
        assert(factories.take(upto) =~= factories);
    }
}

/// Builds the configured processors, in the order of the table. A plugin of
/// the table that the configuration does not name is left out. A configured
/// name that the table does not have builds nothing here: it is
/// `Config::validate_plugins` that stops the startup on such a name.
#[verifier::loop_isolation(false)]
pub fn build_processors(config: &Config) -> (outcome: Result<Vec<ProcessorPlugin>, PluginError>)
    ensures
        match processors_built(processing_registry(), config.processing.plugins@) {
            Ok(kinds) => outcome matches Ok(processors) && processor_kinds(processors@) == kinds,
            Err(reason) => outcome matches Err(error) && error@ == reason,
        },
{
    let factories = processing_plugins();
    let mut processors: Vec<ProcessorPlugin> = Vec::new();
    let mut i: usize = 0;
    proof {
        assert(factories@.take(0) =~= Seq::<ProcessingPluginFactory>::empty());
        assert(processor_kinds(processors@) =~= Seq::<ProcessorConstructor>::empty());
    }
    while i < factories.len()
        invariant
            i <= factories.len(),
            factories@ == processing_registry(),
            processors_built(factories@.take(i as int), config.processing.plugins@) == Ok::<
                Seq<ProcessorConstructor>,
                PluginErrorView,
            >(processor_kinds(processors@)),
        decreases factories.len() - i,
    {
        proof {
            assert(factories@.take(i as int + 1).drop_last() =~= factories@.take(i as int));
            assert(factories@.take(i as int + 1).last() == factories@[i as int]);
        }
        let ghost before = processors@;
        match find_params(&config.processing.plugins, factories[i].name) {
            Some(params) => {
                match factories[i].constructor.construct(params) {
                    Ok(processor) => {
                        processors.push(processor);
                        proof {
                            assert(processor_kinds(processors@) =~= processor_kinds(before).push(
                                kind_of(processor),
                            ));
                        }
                    },
                    Err(error) => {
                        proof {
                            lemma_processors_fail_for_good(
                                factories@,
                                config.processing.plugins@,
                                i as int + 1,
                            );
                        }
                        return Err(error);
                    },
                }
            },
            None => {},
        }
        i += 1;
    }
    proof {
        assert(factories@.take(i as int) =~= factories@);
    }
    Ok(processors)
}

/// Once a processor could not be built, the error stands whatever follows in
/// the table.
proof fn lemma_processors_fail_for_good(
    factories: Seq<ProcessingPluginFactory>,
    plugins: Seq<(String, ParamValue)>,
    upto: int,
)
    requires
        0 <= upto <= factories.len(),
        processors_built(factories.take(upto), plugins) is Err,
    ensures
        processors_built(factories, plugins) == processors_built(factories.take(upto), plugins),
    decreases factories.len(),
{
    if upto < factories.len() {
        assert(factories.drop_last().take(upto) =~= factories.take(upto));
        lemma_processors_fail_for_good(factories.drop_last(), plugins, upto);
    } else {
        assert(factories.take(upto) =~= factories);
    }
}

} // verus!
