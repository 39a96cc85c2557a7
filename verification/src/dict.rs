//! Validation of dictionaries: the validator's settings and name, and the
//! decisions taken for each item of the input and at the end.
//!
//! Validating one item takes the caller two validator calls, one for the key
//! and one for the value. `ValidateToDict` decides what each outcome does to
//! the output and to the errors, and which partial mode each call runs with;
//! `finish` decides the result.
use vstd::prelude::*;
use crate::errors::{
    line_errors_view, spec_with_outer_location, val_error_new, ErrorType, ErrorTypeView,
    LineErrorView, LocItem, LocItemView, ValError, ValErrorView, ValLineError,
};
use crate::json::PartialMode;
use crate::output_dict::{dict_set, DictKind, OutputDict};

verus! {

/// The type name a dict validator expects.
pub const EXPECTED_TYPE: &'static str = "dict";

/// The name of the validator used for keys or values that have no schema of
/// their own: it accepts anything.
pub const ANY_VALIDATOR_NAME: &'static str = "any";

/// The field type named in length errors.
pub const FIELD_TYPE: &'static str = "Dictionary";

/// The name of a dict validator whose key and value validators have the given
/// names: `dict[<key>,<value>]`.
pub open spec fn dict_validator_name(key_name: Seq<char>, value_name: Seq<char>) -> Seq<char> {
    EXPECTED_TYPE@ + "["@ + key_name + ","@ + value_name + "]"@
}

/// The settings of a dict validator.
pub struct DictValidator {
    strict: bool,
    min_length: Option<usize>,
    max_length: Option<usize>,
    name: String,
}

/// The mathematical value of a `DictValidator`.
pub struct DictValidatorView {
    pub strict: bool,
    pub min_length: Option<usize>,
    pub max_length: Option<usize>,
    pub name: Seq<char>,
}

impl View for DictValidator {
    type V = DictValidatorView;

    closed spec fn view(&self) -> DictValidatorView {
        DictValidatorView {
            strict: self.strict,
            min_length: self.min_length,
            max_length: self.max_length,
            name: self.name@,
        }
    }
}

/// The state of the validation of one dictionary input.
pub struct ValidateToDictView {
    /// The minimum and maximum number of output entries.
    pub min_length: Option<usize>,
    pub max_length: Option<usize>,
    /// The partial mode that the validation state had when validation began.
    pub allow_partial: PartialMode,
    /// The partial mode that the validation state holds now: the mode the next
    /// validator call runs with.
    pub partial_mode: PartialMode,
    /// The number that stands for the whole input.
    pub input_value: u64,
    /// The type of dictionary that is built.
    pub kind: DictKind,
    /// The output built so far.
    pub output: Seq<(u64, u64)>,
    /// The errors found so far, in the order found.
    pub errors: Seq<LineErrorView>,
}

/// What to do after a key has been validated.
#[derive(Debug, PartialEq, Eq)]
pub enum KeyStep {
    /// Validate the value; the validated key (none where the key failed).
    Proceed(Option<u64>),
    /// Leave the item out and go on with the next one.
    Skip,
    /// End validation with this error.
    Stop(ValError),
}

/// The mathematical value of a `KeyStep`.
pub enum KeyStepView {
    Proceed(Option<u64>),
    Skip,
    Stop(ValErrorView),
}

impl View for KeyStep {
    type V = KeyStepView;

    open spec fn view(&self) -> KeyStepView {
        match self {
            KeyStep::Proceed(k) => KeyStepView::Proceed(*k),
            KeyStep::Skip => KeyStepView::Skip,
            KeyStep::Stop(e) => KeyStepView::Stop(e@),
        }
    }
}

/// A dictionary that validation returns: its type and its entries in order.
#[derive(Debug, PartialEq, Eq)]
pub struct DictOutput {
    pub kind: DictKind,
    pub entries: Vec<(u64, u64)>,
}

/// The mathematical value of a `DictOutput`.
pub struct DictOutputView {
    pub kind: DictKind,
    pub entries: Seq<(u64, u64)>,
}

impl View for DictOutput {
    type V = DictOutputView;

    open spec fn view(&self) -> DictOutputView {
        DictOutputView { kind: self.kind, entries: self.entries@ }
    }
}

/// The view of a validator's outcome.
pub open spec fn outcome_view(outcome: Result<u64, ValError>) -> Result<u64, ValErrorView> {
    match outcome {
        Ok(v) => Ok(v),
        Err(e) => Err(e@),
    }
}

/// The view of the result of a dictionary validation.
pub open spec fn dict_result_view(r: Result<DictOutput, ValError>) -> Result<
    DictOutputView,
    ValErrorView,
> {
    match r {
        Ok(d) => Ok(d@),
        Err(e) => Err(e@),
    }
}

/// The item is the last one and partial validation is on.
pub open spec fn is_last_partial(allow_partial: PartialMode, is_last: bool) -> bool {
    allow_partial.spec_is_active() && is_last
}

/// The partial mode a value is validated with: the mode validation began with, for the last
/// item where partial validation is on, `Off` otherwise.
pub open spec fn value_partial_mode(allow_partial: PartialMode, is_last: bool) -> PartialMode {
    if is_last_partial(allow_partial, is_last) {
        allow_partial
    } else {
        PartialMode::Off
    }
}

/// An error of a key validator, placed under `[<key>, "[key]", ...]`.
pub open spec fn key_error(key: LocItemView, e: LineErrorView) -> LineErrorView {
    spec_with_outer_location(spec_with_outer_location(e, LocItemView::S("[key]"@)), key)
}

/// An error of a value validator, placed under `[<key>, ...]`.
pub open spec fn value_error(key: LocItemView, e: LineErrorView) -> LineErrorView {
    spec_with_outer_location(e, key)
}

/// A validator error placed under the item's key: a key's error under
/// `[key, "[key]"]`, a value's under `[key]`.
pub open spec fn placed_error(key: LocItemView, of_key: bool, e: LineErrorView) -> LineErrorView {
    if of_key {
        key_error(key, e)
    } else {
        value_error(key, e)
    }
}

/// The state at the start of a dictionary validation.
pub open spec fn initial_state(
    min_length: Option<usize>,
    max_length: Option<usize>,
    allow_partial: PartialMode,
    input_value: u64,
    kind: DictKind,
) -> ValidateToDictView {
    ValidateToDictView {
        min_length,
        max_length,
        allow_partial,
        partial_mode: allow_partial,
        input_value,
        kind,
        output: Seq::empty(),
        errors: Seq::empty(),
    }
}

/// The state when an item begins: its key is validated with partial mode off.
pub open spec fn begin_item_state(s: ValidateToDictView) -> ValidateToDictView {
    ValidateToDictView { partial_mode: PartialMode::Off, ..s }
}

/// What the outcome of a key validation does.
pub open spec fn key_transition(
    s: ValidateToDictView,
    key: LocItemView,
    is_last: bool,
    outcome: Result<u64, ValErrorView>,
) -> (ValidateToDictView, KeyStepView) {
    let mode = value_partial_mode(s.allow_partial, is_last);
    match outcome {
        Ok(k) => (ValidateToDictView { partial_mode: mode, ..s }, KeyStepView::Proceed(Some(k))),
        Err(ValErrorView::LineErrors(es)) => (
            ValidateToDictView {
                partial_mode: mode,
                errors: s.errors + es.map_values(|e: LineErrorView| key_error(key, e)),
                ..s
            },
            KeyStepView::Proceed(None),
        ),
        Err(ValErrorView::Omit) => (s, KeyStepView::Skip),
        Err(e) => (s, KeyStepView::Stop(e)),
    }
}

/// What the outcome of a value validation does; `Some` is the error that ends
/// validation.
pub open spec fn value_transition(
    s: ValidateToDictView,
    key: LocItemView,
    output_key: Option<u64>,
    is_last: bool,
    outcome: Result<u64, ValErrorView>,
) -> (ValidateToDictView, Option<ValErrorView>) {
    match outcome {
        Ok(v) => match output_key {
            Some(k) => (ValidateToDictView { output: dict_set(s.output, k, v), ..s }, None),
            None => (s, None),
        },
        Err(ValErrorView::LineErrors(es)) => if is_last_partial(s.allow_partial, is_last) {
            (s, None)
        } else {
            (
                ValidateToDictView {
                    errors: s.errors + es.map_values(|e: LineErrorView| value_error(key, e)),
                    ..s
                },
                None,
            )
        },
        Err(ValErrorView::Omit) => (s, None),
        Err(e) => (s, Some(e)),
    }
}

/// An error with no location on the whole input.
pub open spec fn input_error(error_type: ErrorTypeView, input_value: u64) -> ValErrorView {
    ValErrorView::LineErrors(
        seq![LineErrorView { error_type, location: Seq::empty(), input_value }],
    )
}

/// The error for an output of `actual` entries, if its length is out of
/// bounds (both bounds are inclusive); the minimum is checked first.
pub open spec fn length_check(
    min_length: Option<usize>,
    max_length: Option<usize>,
    actual: nat,
    input_value: u64,
) -> Option<ValErrorView> {
    if min_length is Some && actual < min_length->0 {
        Some(
            input_error(
                ErrorTypeView::TooShort {
                    field_type: FIELD_TYPE@,
                    min_length: min_length->0 as nat,
                    actual_length: actual,
                },
                input_value,
            ),
        )
    } else if max_length is Some && actual > max_length->0 {
        Some(
            input_error(
                ErrorTypeView::TooLong {
                    field_type: FIELD_TYPE@,
                    max_length: max_length->0 as nat,
                    actual_length: Some(actual),
                },
                input_value,
            ),
        )
    } else {
        None
    }
}

/// The result of a dictionary validation once every item is done: the errors
/// found, if any; else the length error, if any; else the output.
pub open spec fn finish_result(s: ValidateToDictView) -> Result<DictOutputView, ValErrorView> {
    if s.errors.len() > 0 {
        Err(ValErrorView::LineErrors(s.errors))
    } else {
        match length_check(s.min_length, s.max_length, s.output.len(), s.input_value) {
            Some(e) => Err(e),
            None => Ok(DictOutputView { kind: s.kind, entries: s.output }),
        }
    }
}

/// Checks the number of entries of the output against the bounds.
pub fn check_length(
    min_length: Option<usize>,
    max_length: Option<usize>,
    actual: usize,
    input_value: u64,
) -> (res: Result<(), ValError>)
    ensures
        match length_check(min_length, max_length, actual as nat, input_value) {
            Some(e) => res is Err && res->Err_0@ == e,
            None => res is Ok,
        },
{
    if let Some(min) = min_length {
        if actual < min {
            let field_type = String::from_str(FIELD_TYPE);
            return Err(
                val_error_new(
                    ErrorType::TooShort { field_type, min_length: min, actual_length: actual },
                    input_value,
                ),
            );
        }
    }
    if let Some(max) = max_length {
        if actual > max {
            let field_type = String::from_str(FIELD_TYPE);
            return Err(
                val_error_new(
                    ErrorType::TooLong { field_type, max_length: max, actual_length: Some(actual) },
                    input_value,
                ),
            );
        }
    }
    Ok(())
}

/// Whether a validator is strict: the schema's own setting, else the
/// configuration's, else not strict.
pub fn strict_setting(schema_strict: Option<bool>, config_strict: Option<bool>) -> (res: bool)
    ensures
        res == match (schema_strict, config_strict) {
            (Some(s), _) => s,
            (None, Some(c)) => c,
            (None, None) => false,
        },
{
    match schema_strict {
        Some(s) => s,
        None => match config_strict {
            Some(c) => c,
            None => false,
        },
    }
}

/// The name of the key or value validator: the one built from its schema,
/// or, where there is no schema, the validator that accepts anything.
pub fn sub_validator_name<'a>(built: Option<&'a str>) -> (res: &'a str)
    ensures
        res@ == match built {
            Some(n) => n@,
            None => ANY_VALIDATOR_NAME@,
        },
{
    match built {
        Some(n) => n,
        None => ANY_VALIDATOR_NAME,
    }
}

impl DictValidator {
    /// A dict validator with the given strictness and length bounds, whose key
    /// and value validators have the given names.
    pub fn build(
        strict: bool,
        key_validator_name: &str,
        value_validator_name: &str,
        min_length: Option<usize>,
        max_length: Option<usize>,
    ) -> (res: DictValidator)
        ensures
            res@ == (DictValidatorView {
                strict,
                min_length,
                max_length,
                name: dict_validator_name(key_validator_name@, value_validator_name@),
            }),
    {
        let mut name = String::from_str(EXPECTED_TYPE);
        name.append("[");
        name.append(key_validator_name);
        name.append(",");
        name.append(value_validator_name);
        name.append("]");
        DictValidator { strict, min_length, max_length, name }
    }

    /// The validator's name.
    pub fn get_name(&self) -> (res: &str)
        ensures
            res@ == self@.name,
    {
        self.name.as_str()
    }

    /// Whether validation is strict: the validation state's choice where it
    /// makes one, the validator's own otherwise.
    pub fn strict_mode(&self, state_strict: Option<bool>) -> (res: bool)
        ensures
            res == match state_strict {
                Some(s) => s,
                None => self@.strict,
            },
    {
        match state_strict {
            Some(s) => s,
            None => self.strict,
        }
    }

    /// Whether an input is validated as a dictionary: a `dict` always, any
    /// other mapping only in lax mode.
    pub fn accepts_input(strict: bool, is_dict: bool, is_mapping: bool) -> (res: bool)
        ensures
            res == (is_dict || (!strict && is_mapping)),
    {
        is_dict || (!strict && is_mapping)
    }

    /// Checks that an input is validated as a dictionary: a `dict` always,
    /// any other mapping only in lax mode; any other input is refused with
    /// one `DictType` error on the whole input, and no item is validated.
    pub fn check_input(strict: bool, is_dict: bool, is_mapping: bool, input_value: u64) -> (res:
        Result<(), ValError>)
        ensures
            (res is Ok) == (is_dict || (!strict && is_mapping)),
            res is Err ==> res->Err_0@ == input_error(ErrorTypeView::DictType, input_value),
    {
        if Self::accepts_input(strict, is_dict, is_mapping) {
            Ok(())
        } else {
            Err(val_error_new(ErrorType::DictType, input_value))
        }
    }

    /// Begins the validation of one dictionary input. The output is an
    /// `OrderedDict` exactly when the input is one.
    pub fn start(&self, input_value: u64, input_is_ordered_dict: bool, allow_partial: PartialMode) -> (res:
        ValidateToDict)
        ensures
            res@ == initial_state(
                self@.min_length,
                self@.max_length,
                allow_partial,
                input_value,
                if input_is_ordered_dict {
                    DictKind::OrderedDict
                } else {
                    DictKind::Dict
                },
            ),
    {
        let kind = if input_is_ordered_dict {
            DictKind::OrderedDict
        } else {
            DictKind::Dict
        };
        ValidateToDict::new(self.min_length, self.max_length, allow_partial, input_value, kind)
    }
}

/// The validation of one dictionary input, item by item.
pub struct ValidateToDict {
    min_length: Option<usize>,
    max_length: Option<usize>,
    allow_partial: PartialMode,
    partial_mode: PartialMode,
    input_value: u64,
    kind: DictKind,
    output: OutputDict,
    errors: Vec<ValLineError>,
}

impl View for ValidateToDict {
    type V = ValidateToDictView;

    closed spec fn view(&self) -> ValidateToDictView {
        ValidateToDictView {
            min_length: self.min_length,
            max_length: self.max_length,
            allow_partial: self.allow_partial,
            partial_mode: self.partial_mode,
            input_value: self.input_value,
            kind: self.kind,
            output: self.output@,
            errors: line_errors_view(self.errors@),
        }
    }
}

impl ValidateToDict {
    /// A validation with no items done yet.
    pub fn new(
        min_length: Option<usize>,
        max_length: Option<usize>,
        allow_partial: PartialMode,
        input_value: u64,
        kind: DictKind,
    ) -> (res: ValidateToDict)
        ensures
            res@ == initial_state(min_length, max_length, allow_partial, input_value, kind),
    {
        let res = ValidateToDict {
            min_length,
            max_length,
            allow_partial,
            partial_mode: allow_partial,
            input_value,
            kind,
            output: OutputDict::new(),
            errors: Vec::new(),
        };
        assert(line_errors_view(res.errors@) =~= Seq::<LineErrorView>::empty());
        res
    }

    /// The partial mode the next validator call runs with.
    pub fn partial_mode(&self) -> (res: PartialMode)
        ensures
            res == self@.partial_mode,
    {
        self.partial_mode
    }

    /// Begins an item, given what reading it gave: its key is validated with
    /// partial mode off, and an error in reading the item (`Err`) ends
    /// validation with that error (`Some`).
    pub fn begin_item(&mut self, read: Result<(), ValError>) -> (res: Option<ValError>)
        ensures
            final(self)@ == begin_item_state(old(self)@),
            match read {
                Ok(()) => res is None,
                Err(e) => res is Some && res->0@ == e@,
            },
    {
        self.partial_mode = PartialMode::from_bool(false);
        match read {
            Ok(()) => None,
            Err(e) => Some(e),
        }
    }

    /// Takes the outcome of validating the key `key` of an item (`is_last`
    /// where it is the last item) and says what comes next.
    pub fn on_key(&mut self, key: &LocItem, is_last: bool, outcome: Result<u64, ValError>) -> (res:
        KeyStep)
        ensures
            (final(self)@, res@) == key_transition(old(self)@, key@, is_last, outcome_view(outcome)),
    {
        let mode = if self.allow_partial.is_active() && is_last {
            self.allow_partial
        } else {
            PartialMode::Off
        };
        match outcome {
            Ok(k) => {
                self.partial_mode = mode;
                KeyStep::Proceed(Some(k))
            },
            Err(ValError::LineErrors(line_errors)) => {
                let ghost es = line_errors_view(line_errors@);
                self.add_errors(key, true, line_errors);
                assert(es.map_values(|e: LineErrorView| placed_error(key@, true, e)) =~= es.map_values(
                    |e: LineErrorView| key_error(key@, e),
                ));
                self.partial_mode = mode;
                KeyStep::Proceed(None)
            },
            Err(ValError::Omit) => KeyStep::Skip,
            Err(e) => KeyStep::Stop(e),
        }
    }

    /// Takes the outcome of validating the value of the item with key `key`
    /// (`output_key`: the validated key, if the key passed); `Some` is the
    /// error that ends validation.
    pub fn on_value(
        &mut self,
        key: &LocItem,
        output_key: Option<u64>,
        is_last: bool,
        outcome: Result<u64, ValError>,
    ) -> (res: Option<ValError>)
        ensures
            (final(self)@, match res {
                Some(e) => Some(e@),
                None => None,
            }) == value_transition(old(self)@, key@, output_key, is_last, outcome_view(outcome)),
    {
        match outcome {
            Ok(v) => {
                if let Some(k) = output_key {
                    self.output.set_item(k, v);
                }
                None
            },
            Err(ValError::LineErrors(line_errors)) => {
                if !(self.allow_partial.is_active() && is_last) {
                    let ghost es = line_errors_view(line_errors@);
                    self.add_errors(key, false, line_errors);
                    assert(es.map_values(|e: LineErrorView| placed_error(key@, false, e))
                        =~= es.map_values(|e: LineErrorView| value_error(key@, e)));
                }
                None
            },
            Err(ValError::Omit) => None,
            Err(e) => Some(e),
        }
    }

    /// The result, once every item is done.
    pub fn finish(self) -> (res: Result<DictOutput, ValError>)
        ensures
            dict_result_view(res) == finish_result(self@),
    {
        if self.errors.len() > 0 {
            return Err(ValError::LineErrors(self.errors));
        }
        let actual = self.output.len();
        match check_length(self.min_length, self.max_length, actual, self.input_value) {
            Err(e) => Err(e),
            Ok(()) => Ok(DictOutput { kind: self.kind, entries: self.output.into_entries() }),
        }
    }

    /// Appends validator errors placed under the item's key: under
    /// `[key, "[key]"]` for the key's own errors, under `[key]` for the
    /// value's.
    fn add_errors(&mut self, key: &LocItem, of_key: bool, line_errors: Vec<ValLineError>)
        ensures
            final(self)@ == (ValidateToDictView {
                errors: old(self)@.errors + line_errors_view(line_errors@).map_values(
                    |e: LineErrorView| placed_error(key@, of_key, e),
                ),
                ..old(self)@
            }),
    {
        let ghost added = line_errors_view(line_errors@).map_values(
            |e: LineErrorView| placed_error(key@, of_key, e),
        );
        let ghost start = line_errors_view(self.errors@);
        let n = line_errors.len();
        let mut rest = line_errors;
        let mut i: usize = 0;
        while i < n
            invariant
                i <= n,
                n == added.len(),
                rest@.len() == n - i,
                forall|j: int|
                    0 <= j < rest@.len() ==> #[trigger] placed_error(key@, of_key, rest@[j]@)
                        == added[i + j],
                line_errors_view(self.errors@) =~= start + added.take(i as int),
                self.min_length == old(self).min_length,
                self.max_length == old(self).max_length,
                self.allow_partial == old(self).allow_partial,
                self.partial_mode == old(self).partial_mode,
                self.input_value == old(self).input_value,
                self.kind == old(self).kind,
                self.output@ == old(self).output@,
            decreases n - i,
        {
            let e = rest.remove(0);
            assert(placed_error(key@, of_key, e@) == added[i as int]);
            let placed = if of_key {
                let marker = LocItem::S(String::from_str("[key]"));
                e.with_outer_location(marker).with_outer_location(key.duplicate())
            } else {
                e.with_outer_location(key.duplicate())
            };
            let ghost before = self.errors@;
            self.errors.push(placed);
            assert(line_errors_view(self.errors@) =~= line_errors_view(before).push(placed@));
            assert(added.take(i + 1) =~= added.take(i as int).push(added[i as int]));
            i = i + 1;
        }
        assert(added.take(n as int) =~= added);
    }
}

} // verus!
