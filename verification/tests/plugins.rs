use telemetron::config::{
    default_batch_size, default_batch_timeout, default_retry_attempts, default_retry_delay, Config,
    ConfigError, EventTypeValidationConfig, EventValidationConfig, HttpConfig,
    NoParamsValidationConfig, ProcessingConfig, ProcessorConfig, SourceIdValidationConfig,
};
use telemetron::event::EventType;
use telemetron::params::{ParamError, ParamValue};
use telemetron::plugins::{
    build_processors, build_validators, construct_event_type_validator,
    construct_source_id_validator, construct_storage_processor, find_params, processing_plugins,
    validation_plugins, PluginError, ProcessorConstructor, ProcessorPlugin, ValidatorConstructor,
    ValidatorPlugin,
};
use telemetron::processing::EventProcessor;
use telemetron::validation::EventValidator;

fn table(fields: Vec<(&str, ParamValue)>) -> ParamValue {
    ParamValue::Table(fields.into_iter().map(|(name, value)| (name.to_string(), value)).collect())
}

fn integers(values: &[i64]) -> ParamValue {
    ParamValue::Array(values.iter().map(|n| ParamValue::Integer(*n)).collect())
}

fn texts(values: &[&str]) -> ParamValue {
    ParamValue::Array(values.iter().map(|text| ParamValue::String(text.to_string())).collect())
}

fn config_with(
    validation: Vec<(&str, ParamValue)>,
    processing: Vec<(&str, ParamValue)>,
) -> Config {
    Config {
        http: HttpConfig { host: "127.0.0.1".to_string(), port: 8080 },
        processor: ProcessorConfig {
            channel_capacity: 16,
            batch_size: default_batch_size(),
            batch_timeout: default_batch_timeout(),
            retry_attempts: default_retry_attempts(),
            retry_delay: default_retry_delay(),
        },
        validation: EventValidationConfig {
            plugins: validation.into_iter().map(|(name, value)| (name.to_string(), value)).collect(),
        },
        processing: ProcessingConfig {
            plugins: processing.into_iter().map(|(name, value)| (name.to_string(), value)).collect(),
        },
    }
}

fn unknown_field(error: ParamError) -> String {
    match error {
        ParamError::UnknownField(field) => field,
        error => panic!("another error: {:?}", error),
    }
}

fn invalid_value(error: ParamError) -> String {
    match error {
        ParamError::InvalidValue(field) => field,
        error => panic!("another error: {:?}", error),
    }
}

fn refused(error: PluginError) -> (String, ParamError) {
    match error {
        PluginError::ParameterDeserialization { plugin_name, source } => (plugin_name, source),
    }
}

#[test]
fn defaults_of_the_processor_settings() {
    assert_eq!(default_batch_size(), 100);
    assert_eq!(default_batch_timeout(), 1000);
    assert_eq!(default_retry_attempts(), 3);
    assert_eq!(default_retry_delay(), 1000);
}

#[test]
fn source_ids_are_read_from_the_allowed_field() {
    let config = SourceIdValidationConfig::from_params(&table(vec![("allowed", integers(&[1, 2, 2, 0]))]))
        .unwrap();
    assert_eq!(config.allowed.len(), 3);
    assert!(config.allowed.contains(&0));
    assert!(config.allowed.contains(&1));
    assert!(config.allowed.contains(&2));

    let config = SourceIdValidationConfig::from_params(&table(vec![("allowed", integers(&[i64::MAX]))]))
        .unwrap();
    assert!(config.allowed.contains(&(i64::MAX as u64)));
}

#[test]
fn a_missing_allowed_field_allows_everything() {
    let ids = SourceIdValidationConfig::from_params(&table(vec![])).unwrap();
    assert!(ids.allowed.is_empty());
    let types = EventTypeValidationConfig::from_params(&table(vec![])).unwrap();
    assert!(types.allowed.is_empty());
    let types = EventTypeValidationConfig::from_params(&table(vec![("allowed", texts(&[]))])).unwrap();
    assert!(types.allowed.is_empty());
}

#[test]
fn unknown_fields_are_refused() {
    let block = table(vec![("alowed", integers(&[1]))]);
    assert_eq!(unknown_field(SourceIdValidationConfig::from_params(&block).unwrap_err()), "alowed");
    assert_eq!(unknown_field(EventTypeValidationConfig::from_params(&block).unwrap_err()), "alowed");
    assert_eq!(unknown_field(NoParamsValidationConfig::from_params(&block).unwrap_err()), "alowed");

    let block = table(vec![("allowed", integers(&[1])), ("extra", ParamValue::Boolean(true))]);
    assert_eq!(unknown_field(SourceIdValidationConfig::from_params(&block).unwrap_err()), "extra");
    let block = table(vec![("first", ParamValue::Float), ("second", ParamValue::Datetime)]);
    assert_eq!(unknown_field(NoParamsValidationConfig::from_params(&block).unwrap_err()), "first");
    assert_eq!(unknown_field(SourceIdValidationConfig::from_params(&block).unwrap_err()), "first");
}

#[test]
fn a_block_that_is_no_table_is_refused() {
    for block in [
        ParamValue::Integer(1),
        ParamValue::String("allowed".to_string()),
        ParamValue::Boolean(false),
        ParamValue::Float,
        ParamValue::Datetime,
        integers(&[1, 2]),
    ] {
        assert!(matches!(SourceIdValidationConfig::from_params(&block), Err(ParamError::NotATable)));
        assert!(matches!(EventTypeValidationConfig::from_params(&block), Err(ParamError::NotATable)));
        assert!(matches!(NoParamsValidationConfig::from_params(&block), Err(ParamError::NotATable)));
    }
}

#[test]
fn a_field_given_twice_is_refused() {
    let block = table(vec![("allowed", integers(&[1])), ("allowed", integers(&[2]))]);
    match SourceIdValidationConfig::from_params(&block).unwrap_err() {
        ParamError::DuplicateField(field) => assert_eq!(field, "allowed"),
        error => panic!("another error: {:?}", error),
    }
}

#[test]
fn values_of_the_wrong_kind_are_refused() {
    for value in [
        integers(&[1, -1]),
        texts(&["1"]),
        ParamValue::Integer(1),
        ParamValue::Array(vec![ParamValue::Integer(1), ParamValue::Boolean(true)]),
        table(vec![]),
    ] {
        let block = table(vec![("allowed", value)]);
        assert_eq!(invalid_value(SourceIdValidationConfig::from_params(&block).unwrap_err()), "allowed");
    }
    for value in [
        texts(&["Boot", ""]),
        integers(&[1]),
        ParamValue::String("Boot".to_string()),
        ParamValue::Array(vec![ParamValue::Float]),
    ] {
        let block = table(vec![("allowed", value)]);
        assert_eq!(invalid_value(EventTypeValidationConfig::from_params(&block).unwrap_err()), "allowed");
    }
}

#[test]
fn event_types_are_read_in_their_order() {
    let block = table(vec![("allowed", texts(&["Boot", "Heartbeat", "Boot"]))]);
    let config = EventTypeValidationConfig::from_params(&block).unwrap();
    assert_eq!(
        config.allowed,
        vec![EventType::Custom("Boot".to_string()), EventType::Heartbeat, EventType::Custom("Boot".to_string())]
    );
}

#[test]
fn no_parameters_means_an_empty_table() {
    assert!(NoParamsValidationConfig::from_params(&table(vec![])).is_ok());
    assert_eq!(NoParamsValidationConfig::default(), NoParamsValidationConfig {});
}

#[test]
fn param_errors_as_text() {
    assert_eq!(ParamError::NotATable.message(), "expected a table");
    assert_eq!(ParamError::UnknownField("x".to_string()).message(), "unknown field x");
    assert_eq!(ParamError::DuplicateField("x".to_string()).message(), "duplicate field x");
    assert_eq!(ParamError::InvalidValue("x".to_string()).message(), "invalid value of field x");
    let error = PluginError::ParameterDeserialization {
        plugin_name: "SourceIdValidator".to_string(),
        source: ParamError::UnknownField("alowed".to_string()),
    };
    assert_eq!(
        error.message(),
        "Failed to parse parameters for plugin 'SourceIdValidator': unknown field alowed"
    );
}

#[test]
fn constructors_attach_the_plugin_name() {
    let bad = table(vec![("typo", integers(&[]))]);
    let (name, source) = refused(construct_event_type_validator(&bad).unwrap_err());
    assert_eq!(name, "EventTypeValidator");
    assert_eq!(unknown_field(source), "typo");
    let (name, source) = refused(construct_source_id_validator(&bad).unwrap_err());
    assert_eq!(name, "SourceIdValidator");
    assert_eq!(unknown_field(source), "typo");
    let (name, source) = refused(construct_storage_processor(&bad).unwrap_err());
    assert_eq!(name, "StorageProcessor");
    assert_eq!(unknown_field(source), "typo");
    let (name, source) = refused(construct_storage_processor(&ParamValue::Integer(0)).unwrap_err());
    assert_eq!(name, "StorageProcessor");
    assert!(matches!(source, ParamError::NotATable));

    let validator = construct_source_id_validator(&table(vec![("allowed", integers(&[4]))])).unwrap();
    assert!(validator.allowed_ids.contains(&4));
    let validator = construct_event_type_validator(&table(vec![("allowed", texts(&["A"]))])).unwrap();
    assert_eq!(validator.allowed_types, vec![EventType::Custom("A".to_string())]);
    assert!(construct_storage_processor(&table(vec![])).is_ok());
}

#[test]
fn the_tables_of_plugins() {
    let validators = validation_plugins();
    assert_eq!(validators.len(), 2);
    assert_eq!(validators[0].name, "EventTypeValidator");
    assert_eq!(validators[0].constructor, ValidatorConstructor::EventType);
    assert_eq!(validators[1].name, "SourceIdValidator");
    assert_eq!(validators[1].constructor, ValidatorConstructor::SourceId);
    let processors = processing_plugins();
    assert_eq!(processors.len(), 1);
    assert_eq!(processors[0].name, "StorageProcessor");
    assert_eq!(processors[0].constructor, ProcessorConstructor::Storage);
}

#[test]
fn constructors_build_their_own_kind() {
    let block = table(vec![("allowed", integers(&[1]))]);
    match ValidatorConstructor::SourceId.construct(&block).unwrap() {
        ValidatorPlugin::SourceId(validator) => assert!(validator.allowed_ids.contains(&1)),
        ValidatorPlugin::EventType(_) => panic!("another kind"),
    }
    assert!(ValidatorConstructor::EventType.construct(&block).is_err());
    match ProcessorConstructor::Storage.construct(&table(vec![])).unwrap() {
        ProcessorPlugin::Storage(processor) => assert_eq!(processor.name(), "StorageProcessor"),
    }
}

#[test]
fn validators_are_built_in_the_order_of_the_table() {
    let config = config_with(
        vec![
            ("SourceIdValidator", table(vec![("allowed", integers(&[1, 2]))])),
            ("EventTypeValidator", table(vec![("allowed", texts(&["Heartbeat"]))])),
        ],
        vec![],
    );
    let validators = build_validators(&config).unwrap();
    assert_eq!(validators.len(), 2);
    assert_eq!(validators[0].name(), "EventTypeValidator");
    assert_eq!(validators[1].name(), "SourceIdValidator");
    match &validators[1] {
        ValidatorPlugin::SourceId(validator) => {
            assert_eq!(validator.allowed_ids.len(), 2);
            assert!(validator.allowed_ids.contains(&1) && validator.allowed_ids.contains(&2));
        }
        ValidatorPlugin::EventType(_) => panic!("another kind"),
    }
}

#[test]
fn plugins_that_are_not_configured_are_left_out() {
    let config = config_with(vec![("SourceIdValidator", table(vec![]))], vec![]);
    let validators = build_validators(&config).unwrap();
    assert_eq!(validators.len(), 1);
    assert_eq!(validators[0].name(), "SourceIdValidator");
    assert!(build_processors(&config).unwrap().is_empty());
    assert!(build_validators(&config_with(vec![], vec![])).unwrap().is_empty());

    let config = config_with(vec![], vec![("StorageProcessor", table(vec![]))]);
    let processors = build_processors(&config).unwrap();
    assert_eq!(processors.len(), 1);
    assert_eq!(processors[0].name(), "StorageProcessor");
}

#[test]
fn the_first_refused_block_fails_the_build() {
    let config = config_with(
        vec![
            ("SourceIdValidator", table(vec![("allowed", integers(&[-1]))])),
            ("EventTypeValidator", table(vec![("allowed", texts(&[""]))])),
        ],
        vec![("StorageProcessor", table(vec![("batch", ParamValue::Integer(1))]))],
    );
    let (name, source) = refused(build_validators(&config).unwrap_err());
    assert_eq!(name, "EventTypeValidator");
    assert_eq!(invalid_value(source), "allowed");
    let (name, source) = refused(build_processors(&config).unwrap_err());
    assert_eq!(name, "StorageProcessor");
    assert_eq!(unknown_field(source), "batch");

    let config = config_with(
        vec![
            ("SourceIdValidator", table(vec![("allowed", integers(&[-1]))])),
            ("EventTypeValidator", table(vec![])),
        ],
        vec![],
    );
    let (name, _) = refused(build_validators(&config).unwrap_err());
    assert_eq!(name, "SourceIdValidator");
}

#[test]
fn lookup_takes_the_first_entry_of_a_name() {
    let plugins = vec![
        ("A".to_string(), ParamValue::Integer(1)),
        ("B".to_string(), ParamValue::Integer(2)),
        ("A".to_string(), ParamValue::Integer(3)),
    ];
    assert!(matches!(find_params(&plugins, "A"), Some(ParamValue::Integer(1))));
    assert!(matches!(find_params(&plugins, "B"), Some(ParamValue::Integer(2))));
    assert!(find_params(&plugins, "C").is_none());
    assert!(find_params(&Vec::new(), "A").is_none());
}

#[test]
fn known_plugin_names_pass_the_startup_check() {
    let config = config_with(
        vec![("SourceIdValidator", table(vec![])), ("EventTypeValidator", table(vec![]))],
        vec![("StorageProcessor", table(vec![]))],
    );
    assert!(config.validate_plugins().is_ok());
    assert!(config_with(vec![], vec![]).validate_plugins().is_ok());
}

#[test]
fn unknown_validators_stop_the_startup() {
    let config = config_with(
        vec![
            ("Nope", table(vec![])),
            ("SourceIdValidator", table(vec![])),
            ("sourceidvalidator", table(vec![])),
        ],
        vec![("Missing", table(vec![]))],
    );
    match config.validate_plugins() {
        Err(ConfigError::UnknownValidationPlugin(names)) => {
            assert_eq!(names, vec!["Nope".to_string(), "sourceidvalidator".to_string()])
        }
        outcome => panic!("another outcome: {:?}", outcome),
    }
}

#[test]
fn unknown_processors_stop_the_startup() {
    let config = config_with(
        vec![("EventTypeValidator", table(vec![]))],
        vec![("StorageProcessor", table(vec![])), ("SourceIdValidator", table(vec![]))],
    );
    match config.validate_plugins() {
        Err(ConfigError::UnknownProcessingPlugin(names)) => {
            assert_eq!(names, vec!["SourceIdValidator".to_string()])
        }
        outcome => panic!("another outcome: {:?}", outcome),
    }
}
