//! Parameter blocks of plugins, and the strict schemas they are held to.
//!
//! A parameter block is a tree of plain values, as a configuration file gives
//! it. A schema names the fields that a plugin knows: a block with any other
//! field is refused, so that a misspelt field does not pass unnoticed.

use vstd::prelude::*;
use std::collections::HashSet;
use crate::config::{EventTypeValidationConfig, NoParamsValidationConfig, SourceIdValidationConfig};
use crate::event::{parse_event_type, EventType, EventTypeView};

verus! {

broadcast use vstd::std_specs::hash::group_hash_axioms;

/// A value of a parameter block.
#[derive(Debug)]
pub enum ParamValue {
    String(String),
    Integer(i64),
    /// A floating-point number. No schema takes one, so its value is not kept.
    Float,
    Boolean(bool),
    /// A date or time. No schema takes one, so its value is not kept.
    Datetime,
    Array(Vec<ParamValue>),
    /// A table: its fields with their values, in the order of the file.
    Table(Vec<(String, ParamValue)>),
}

/// Why a parameter block does not meet a schema.
#[derive(Debug)]
pub enum ParamError {
    /// The block is no table.
    NotATable,
    /// The table has a field that the plugin does not know.
    UnknownField(String),
    /// The table has a field twice.
    DuplicateField(String),
    /// The value of a field is not of the kind that the plugin takes.
    InvalidValue(String),
}

/// The mathematical value of a `ParamError`.
pub enum ParamErrorView {
    NotATable,
    UnknownField(Seq<char>),
    DuplicateField(Seq<char>),
    InvalidValue(Seq<char>),
}

impl ParamErrorView {
    /// The error as a line of text.
    pub open spec fn message(self) -> Seq<char> {
        match self {
            ParamErrorView::NotATable => "expected a table"@,
            ParamErrorView::UnknownField(field) => "unknown field "@ + field,
            ParamErrorView::DuplicateField(field) => "duplicate field "@ + field,
            ParamErrorView::InvalidValue(field) => "invalid value of field "@ + field,
        }
    }
}

impl ParamError {
    /// The error as a line of text.
    pub fn message(&self) -> (text: String)
        ensures
            text@ == self@.message(),
    {
        match self {
            ParamError::NotATable => "expected a table".to_owned(),
            ParamError::UnknownField(field) => "unknown field ".to_owned().concat(field.as_str()),
            ParamError::DuplicateField(field) => "duplicate field ".to_owned().concat(
                field.as_str(),
            ),
            ParamError::InvalidValue(field) => "invalid value of field ".to_owned().concat(
                field.as_str(),
            ),
        }
    }
}

impl View for ParamError {
    type V = ParamErrorView;

    open spec fn view(&self) -> ParamErrorView {
        match self {
            ParamError::NotATable => ParamErrorView::NotATable,
            ParamError::UnknownField(field) => ParamErrorView::UnknownField(field@),
            ParamError::DuplicateField(field) => ParamErrorView::DuplicateField(field@),
            ParamError::InvalidValue(field) => ParamErrorView::InvalidValue(field@),
        }
    }
}

/// The one field that the validators with an allow-list know.
pub const ALLOWED: &'static str = "allowed";

/// The value of the one field that a table may have, if the table has it. The
/// first field of another name, or the second field of this name, is an error.
pub open spec fn scan_fields(entries: Seq<(String, ParamValue)>, field: Seq<char>) -> Result<
    Option<ParamValue>,
    ParamErrorView,
>
    decreases entries.len(),
{
    if entries.len() == 0 {
        Ok(None)
    } else {
        match scan_fields(entries.drop_last(), field) {
            Err(error) => Err(error),
            Ok(found) => {
                let key = entries.last().0@;
                if key != field {
                    Err(ParamErrorView::UnknownField(key))
                } else if found is Some {
                    Err(ParamErrorView::DuplicateField(key))
                } else {
                    Ok(Some(entries.last().1))
                }
            },
        }
    }
}

/// A block held to the schema of a table with at most one field, of the given
/// name: the field's value, if the block has the field.
pub open spec fn only_field(params: ParamValue, field: Seq<char>) -> Result<
    Option<ParamValue>,
    ParamErrorView,
> {
    match params {
        ParamValue::Table(entries) => scan_fields(entries@, field),
        _ => Err(ParamErrorView::NotATable),
    }
}

/// A block held to the schema of a table without fields.
pub open spec fn no_fields(params: ParamValue) -> Result<(), ParamErrorView> {
    match params {
        ParamValue::Table(entries) => if entries@.len() == 0 {
            Ok(())
        } else {
            Err(ParamErrorView::UnknownField(entries@[0].0@))
        },
        _ => Err(ParamErrorView::NotATable),
    }
}

/// The source ids that a list names, if each of its items is an integer that
/// is not negative.
pub open spec fn ids_named(items: Seq<ParamValue>) -> Option<Set<u64>>
    decreases items.len(),
{
    if items.len() == 0 {
        Some(Set::empty())
    } else {
        match (ids_named(items.drop_last()), items.last()) {
            (Some(ids), ParamValue::Integer(n)) => if n >= 0 {
                Some(ids.insert(n as u64))
            } else {
                None
            },
            _ => None,
        }
    }
}

/// The event types that a list names, in its order, if each of its items is
/// the text of an event type.
pub open spec fn types_listed(items: Seq<ParamValue>) -> Option<Seq<EventTypeView>>
    decreases items.len(),
{
    if items.len() == 0 {
        Some(Seq::empty())
    } else {
        match (types_listed(items.drop_last()), items.last()) {
            (Some(types), ParamValue::String(text)) => match parse_event_type(text@) {
                Some(event_type) => Some(types.push(event_type)),
                None => None,
            },
            _ => None,
        }
    }
}

/// The allowed source ids that a block configures: those that its field
/// `allowed` lists, none where the block has no such field.
pub open spec fn source_id_params(params: ParamValue) -> Result<Set<u64>, ParamErrorView> {
    match only_field(params, ALLOWED@) {
        Err(error) => Err(error),
        Ok(None) => Ok(Set::empty()),
        Ok(Some(ParamValue::Array(items))) => match ids_named(items@) {
            Some(ids) => Ok(ids),
            None => Err(ParamErrorView::InvalidValue(ALLOWED@)),
        },
        Ok(Some(_)) => Err(ParamErrorView::InvalidValue(ALLOWED@)),
    }
}

/// The allowed event types that a block configures: those that its field
/// `allowed` lists, none where the block has no such field.
pub open spec fn event_type_params(params: ParamValue) -> Result<Seq<EventTypeView>, ParamErrorView> {
    match only_field(params, ALLOWED@) {
        Err(error) => Err(error),
        Ok(None) => Ok(Seq::empty()),
        Ok(Some(ParamValue::Array(items))) => match types_listed(items@) {
            Some(types) => Ok(types),
            None => Err(ParamErrorView::InvalidValue(ALLOWED@)),
        },
        Ok(Some(_)) => Err(ParamErrorView::InvalidValue(ALLOWED@)),
    }
}

/// The values of a list of event types.
pub open spec fn type_views(types: Seq<EventType>) -> Seq<EventTypeView> {
    types.map_values(|event_type: EventType| event_type@)
}

/// Holds a block to the schema of a table with at most one field.
#[verifier::loop_isolation(false)]
fn read_only_field<'a>(params: &'a ParamValue, field: &str) -> (outcome: Result<
    Option<&'a ParamValue>,
    ParamError,
>)
    ensures
        match only_field(*params, field@) {
            Ok(Some(value)) => outcome matches Ok(Some(found)) && *found == value,
            Ok(None) => outcome matches Ok(None),
            Err(reason) => outcome matches Err(error) && error@ == reason,
        },
{
    match params {
        ParamValue::Table(entries) => {
            let wanted = field.to_owned();
            let mut found: Option<&'a ParamValue> = None;
            let mut i: usize = 0;
            proof {
                assert(entries@.take(0) =~= Seq::<(String, ParamValue)>::empty());
            }
            while i < entries.len()
                invariant
                    i <= entries.len(),
                    wanted@ == field@,
                    match scan_fields(entries@.take(i as int), field@) {
                        Ok(Some(value)) => found matches Some(at) && *at == value,
                        Ok(None) => found is None,
                        Err(_) => false,
                    },
                decreases entries.len() - i,
            {
                proof {
                    assert(entries@.take(i as int + 1).drop_last() =~= entries@.take(i as int));
                    assert(entries@.take(i as int + 1).last() == entries@[i as int]);
                    assert(entries@.take(entries@.len() as int) =~= entries@);
                }
                if entries[i].0 != wanted {
                    proof {
                        lemma_scan_fails_for_good(entries@, field@, i as int + 1);
                    }
                    return Err(ParamError::UnknownField(entries[i].0.clone()));
                }
                if found.is_some() {
                    proof {
                        lemma_scan_fails_for_good(entries@, field@, i as int + 1);
                    }
                    return Err(ParamError::DuplicateField(entries[i].0.clone()));
                }
                found = Some(&entries[i].1);
                i += 1;
            }
            proof {
                assert(entries@.take(i as int) =~= entries@);
            }
            Ok(found)
        },
        _ => Err(ParamError::NotATable),
    }
}

/// Once the scan of a table has met an error, the error stands whatever
/// follows.
proof fn lemma_scan_fails_for_good(entries: Seq<(String, ParamValue)>, field: Seq<char>, upto: int)
    requires
        0 <= upto <= entries.len(),
        scan_fields(entries.take(upto), field) is Err,
    ensures
        scan_fields(entries, field) == scan_fields(entries.take(upto), field),
    decreases entries.len(),
{
    if upto < entries.len() {
        assert(entries.drop_last().take(upto) =~= entries.take(upto));
        lemma_scan_fails_for_good(entries.drop_last(), field, upto);
    } else {
        assert(entries.take(upto) =~= entries);
    }
}

impl NoParamsValidationConfig {
    /// Reads the parameters of a plugin that takes none: the block must be a
    /// table without fields.
    pub fn from_params(params: &ParamValue) -> (outcome: Result<
        NoParamsValidationConfig,
        ParamError,
    >)
        ensures
            match no_fields(*params) {
                Ok(()) => outcome is Ok,
                Err(reason) => outcome matches Err(error) && error@ == reason,
            },
    {
        match params {
            ParamValue::Table(entries) => {
                if entries.len() == 0 {
                    Ok(NoParamsValidationConfig {  })
                } else {
                    Err(ParamError::UnknownField(entries[0].0.clone()))
                }
            },
            _ => Err(ParamError::NotATable),
        }
    }
}

impl SourceIdValidationConfig {
    /// Reads the parameters of the source-id validator: a table whose only
    /// field, `allowed`, lists source ids.
    #[verifier::loop_isolation(false)]
    pub fn from_params(params: &ParamValue) -> (outcome: Result<
        SourceIdValidationConfig,
        ParamError,
    >)
        ensures
            match source_id_params(*params) {
                Ok(ids) => outcome matches Ok(config) && config.allowed@ == ids,
                Err(reason) => outcome matches Err(error) && error@ == reason,
            },
    {
        let mut allowed: HashSet<u64> = HashSet::new();
        match read_only_field(params, ALLOWED) {
            Err(error) => Err(error),
            Ok(None) => Ok(SourceIdValidationConfig { allowed }),
            Ok(Some(ParamValue::Array(items))) => {
                let mut i: usize = 0;
                proof {
                    assert(items@.take(0) =~= Seq::<ParamValue>::empty());
                }
                while i < items.len()
                    invariant
                        i <= items.len(),
                        ids_named(items@.take(i as int)) == Some(allowed@),
                    decreases items.len() - i,
                {
                    proof {
                        assert(items@.take(i as int + 1).drop_last() =~= items@.take(i as int));
                        assert(items@.take(i as int + 1).last() == items@[i as int]);
                    }
                    match &items[i] {
                        ParamValue::Integer(n) => {
                            if *n < 0 {
                                proof {
                                    lemma_ids_fail_for_good(items@, i as int + 1);
                                }
                                return Err(ParamError::InvalidValue(ALLOWED.to_owned()));
                            }
                            allowed.insert(*n as u64);
                        },
                        _ => {
                            proof {
                                lemma_ids_fail_for_good(items@, i as int + 1);
                            }
                            return Err(ParamError::InvalidValue(ALLOWED.to_owned()));
                        },
                    }
                    i += 1;
                }
                proof {
                    assert(items@.take(i as int) =~= items@);
                }
                Ok(SourceIdValidationConfig { allowed })
            },
            Ok(Some(_)) => Err(ParamError::InvalidValue(ALLOWED.to_owned())),
        }
    }
}

/// Once an item of a list is no source id, the list names no ids, whatever
/// follows.
proof fn lemma_ids_fail_for_good(items: Seq<ParamValue>, upto: int)
    requires
        0 <= upto <= items.len(),
        ids_named(items.take(upto)) is None,
    ensures
        ids_named(items) is None,
    decreases items.len(),
{
    if upto < items.len() {
        assert(items.drop_last().take(upto) =~= items.take(upto));
        lemma_ids_fail_for_good(items.drop_last(), upto);
    } else {
        assert(items.take(upto) =~= items);
    }
}

/// Once an item of a list is no event type, the list names no types, whatever
/// follows.
proof fn lemma_types_fail_for_good(items: Seq<ParamValue>, upto: int)
    requires
        0 <= upto <= items.len(),
        types_listed(items.take(upto)) is None,
    ensures
        types_listed(items) is None,
    decreases items.len(),
{
    if upto < items.len() {
        assert(items.drop_last().take(upto) =~= items.take(upto));
        lemma_types_fail_for_good(items.drop_last(), upto);
    } else {
        assert(items.take(upto) =~= items);
    }
}

impl EventTypeValidationConfig {
    /// Reads the parameters of the event-type validator: a table whose only
    /// field, `allowed`, lists the texts of event types.
    #[verifier::loop_isolation(false)]
    pub fn from_params(params: &ParamValue) -> (outcome: Result<
        EventTypeValidationConfig,
        ParamError,
    >)
        ensures
            match event_type_params(*params) {
                Ok(types) => outcome matches Ok(config) && type_views(config.allowed@) == types,
                Err(reason) => outcome matches Err(error) && error@ == reason,
            },
    {
        let mut allowed: Vec<EventType> = Vec::new();
        match read_only_field(params, ALLOWED) {
            Err(error) => Err(error),
            Ok(None) => {
                proof {
                    assert(type_views(allowed@) =~= Seq::<EventTypeView>::empty());
                }
                Ok(EventTypeValidationConfig { allowed })
            },
            Ok(Some(ParamValue::Array(items))) => {
                let mut i: usize = 0;
                proof {
                    assert(items@.take(0) =~= Seq::<ParamValue>::empty());
                    assert(type_views(allowed@) =~= Seq::<EventTypeView>::empty());
                }
                while i < items.len()
                    invariant
                        i <= items.len(),
                        types_listed(items@.take(i as int)) == Some(type_views(allowed@)),
                    decreases items.len() - i,
                {
                    proof {
                        assert(items@.take(i as int + 1).drop_last() =~= items@.take(i as int));
                        assert(items@.take(i as int + 1).last() == items@[i as int]);
                    }
                    let ghost before = allowed@;
                    match &items[i] {
                        ParamValue::String(text) => {
                            match EventType::from_str(text.as_str()) {
                                Ok(event_type) => {
                                    allowed.push(event_type);
                                    proof {
                                        assert(type_views(allowed@) =~= type_views(before).push(
                                            event_type@,
                                        ));
                                    }
                                },
                                Err(_) => {
                                    proof {
                                        lemma_types_fail_for_good(items@, i as int + 1);
                                    }
                                    return Err(ParamError::InvalidValue(ALLOWED.to_owned()));
                                },
                            }
                        },
                        _ => {
                            proof {
                                lemma_types_fail_for_good(items@, i as int + 1);
                            }
                            return Err(ParamError::InvalidValue(ALLOWED.to_owned()));
                        },
                    }
                    i += 1;
                }
                proof {
                    assert(items@.take(i as int) =~= items@);
                }
                Ok(EventTypeValidationConfig { allowed })
            },
            Ok(Some(_)) => Err(ParamError::InvalidValue(ALLOWED.to_owned())),
        }
    }
}

} // verus!
