//! What holds of every dictionary validation, whatever the validators return.
use vstd::prelude::*;
use crate::dict::{
    begin_item_state, finish_result, initial_state, is_last_partial, key_transition,
    length_check, input_error, value_transition, value_error, key_error, KeyStepView,
    ValidateToDictView, DictOutputView, FIELD_TYPE,
};
use crate::errors::{ErrorTypeView, LineErrorView, LocItemView, ValErrorView};
use crate::json::PartialMode;
use crate::output_dict::{dict_set, keys_unique, lemma_dict_set_get, DictKind};

verus! {

/// The parts of a validation state that no item changes.
pub open spec fn same_settings(a: ValidateToDictView, b: ValidateToDictView) -> bool {
    &&& a.min_length == b.min_length
    &&& a.max_length == b.max_length
    &&& a.allow_partial == b.allow_partial
    &&& a.input_value == b.input_value
    &&& a.kind == b.kind
}

/// Errors are only ever added: each step keeps the errors found before it, in
/// their order, and keeps the settings (the type of dictionary built among
/// them).
pub proof fn law_errors_kept(
    s: ValidateToDictView,
    key: LocItemView,
    output_key: Option<u64>,
    is_last: bool,
    outcome: Result<u64, ValErrorView>,
)
    ensures
        s.errors.is_prefix_of(begin_item_state(s).errors),
        same_settings(s, begin_item_state(s)),
        s.errors.is_prefix_of(key_transition(s, key, is_last, outcome).0.errors),
        same_settings(s, key_transition(s, key, is_last, outcome).0),
        s.errors.is_prefix_of(value_transition(s, key, output_key, is_last, outcome).0.errors),
        same_settings(s, value_transition(s, key, output_key, is_last, outcome).0),
{
    let k = key_transition(s, key, is_last, outcome).0;
    let v = value_transition(s, key, output_key, is_last, outcome).0;
    assert(s.errors =~= k.errors.subrange(0, s.errors.len() as int));
    assert(s.errors =~= v.errors.subrange(0, s.errors.len() as int));
    assert(s.errors =~= begin_item_state(s).errors.subrange(0, s.errors.len() as int));
}

/// A validator that asks for the item to be omitted leaves the output and
/// the errors as they were.
pub proof fn law_omit_skips_item(
    s: ValidateToDictView,
    key: LocItemView,
    output_key: Option<u64>,
    is_last: bool,
)
    ensures
        key_transition(s, key, is_last, Err(ValErrorView::Omit)) == (s, KeyStepView::Skip),
        value_transition(s, key, output_key, is_last, Err(ValErrorView::Omit)) == (s, None::<
            ValErrorView,
        >),
{
}

/// Key validation never changes the output; value validation changes it only
/// by setting the validated key to the validated value.
pub proof fn law_output_changes_only_by_set(
    s: ValidateToDictView,
    key: LocItemView,
    output_key: Option<u64>,
    is_last: bool,
    outcome: Result<u64, ValErrorView>,
)
    ensures
        key_transition(s, key, is_last, outcome).0.output == s.output,
        value_transition(s, key, output_key, is_last, outcome).0.output == match (
            outcome,
            output_key,
        ) {
            (Ok(v), Some(k)) => dict_set(s.output, k, v),
            _ => s.output,
        },
{
}

/// The output never holds a key twice: validation starts from an empty
/// output and every step keeps the keys unique.
pub proof fn law_output_keys_unique(
    s: ValidateToDictView,
    key: LocItemView,
    output_key: Option<u64>,
    is_last: bool,
    outcome: Result<u64, ValErrorView>,
    min_length: Option<usize>,
    max_length: Option<usize>,
    allow_partial: PartialMode,
    input_value: u64,
    kind: DictKind,
)
    requires
        keys_unique(s.output),
    ensures
        keys_unique(initial_state(min_length, max_length, allow_partial, input_value, kind).output),
        keys_unique(begin_item_state(s).output),
        keys_unique(key_transition(s, key, is_last, outcome).0.output),
        keys_unique(value_transition(s, key, output_key, is_last, outcome).0.output),
{
    if let (Ok(v), Some(k)) = (outcome, output_key) {
        lemma_dict_set_get(s.output, k, v, k);
    }
}

/// An error other than line errors and omission ends validation at once, from
/// the key or the value, and changes nothing.
pub proof fn law_other_errors_stop(
    s: ValidateToDictView,
    key: LocItemView,
    output_key: Option<u64>,
    is_last: bool,
    e: ValErrorView,
)
    requires
        !(e is LineErrors),
        !(e is Omit),
    ensures
        key_transition(s, key, is_last, Err(e)) == (s, KeyStepView::Stop(e)),
        value_transition(s, key, output_key, is_last, Err(e)) == (s, Some(e)),
{
}

/// Line errors of a key are always kept; line errors of a value are dropped
/// exactly for the last item under partial validation.
pub proof fn law_partial_drops_only_last_value_errors(
    s: ValidateToDictView,
    key: LocItemView,
    output_key: Option<u64>,
    is_last: bool,
    es: Seq<crate::errors::LineErrorView>,
)
    ensures
        key_transition(s, key, is_last, Err(ValErrorView::LineErrors(es))).0.errors.len() == s.errors.len()
            + es.len(),
        value_transition(s, key, output_key, is_last, Err(ValErrorView::LineErrors(es))).0.errors.len()
            == if is_last_partial(s.allow_partial, is_last) {
            s.errors.len()
        } else {
            s.errors.len() + es.len()
        },
{
}

/// Validation succeeds exactly when no error was found and the number of
/// output entries is within the bounds; it then returns the output, as a
/// dictionary of the type chosen at the start. When errors were found, they
/// are the result, and the length is not checked.
pub proof fn law_finish(s: ValidateToDictView)
    ensures
        (finish_result(s) is Ok) <==> (s.errors.len() == 0 && (s.min_length is Some
            ==> s.output.len() >= s.min_length->0) && (s.max_length is Some ==> s.output.len()
            <= s.max_length->0)),
        finish_result(s) is Ok ==> finish_result(s)->Ok_0 == (DictOutputView {
            kind: s.kind,
            entries: s.output,
        }),
        s.errors.len() > 0 ==> finish_result(s) == Err::<DictOutputView, ValErrorView>(
            ValErrorView::LineErrors(s.errors),
        ),
        s.errors.len() == 0 && s.min_length is Some && s.output.len() < s.min_length->0
            ==> finish_result(s) == Err::<DictOutputView, ValErrorView>(
            input_error(
                ErrorTypeView::TooShort {
                    field_type: FIELD_TYPE@,
                    min_length: s.min_length->0 as nat,
                    actual_length: s.output.len(),
                },
                s.input_value,
            ),
        ),
        s.errors.len() == 0 && (s.min_length is Some ==> s.output.len() >= s.min_length->0)
            && s.max_length is Some && s.output.len() > s.max_length->0 ==> finish_result(s)
            == Err::<DictOutputView, ValErrorView>(
            input_error(
                ErrorTypeView::TooLong {
                    field_type: FIELD_TYPE@,
                    max_length: s.max_length->0 as nat,
                    actual_length: Some(s.output.len()),
                },
                s.input_value,
            ),
        ),
{
}

/// The minimum is checked before the maximum: an output shorter than its
/// minimum gets the too-short error, whatever the maximum.
pub proof fn law_too_short_first(
    min_length: usize,
    max_length: Option<usize>,
    actual: usize,
    input_value: u64,
)
    requires
        actual < min_length,
    ensures
        length_check(Some(min_length), max_length, actual as nat, input_value) == length_check(
            Some(min_length),
            None,
            actual as nat,
            input_value,
        ),
{
}

/// What reading one item of the input and validating it gave: the error in
/// reading the item, if any; the key's location item; whether the item is the
/// last one; and the outcomes of the key validator and of the value validator
/// (each not consulted where an earlier outcome ends the item).
pub struct ItemOutcomes {
    pub read_error: Option<ValErrorView>,
    pub key: LocItemView,
    pub is_last: bool,
    pub key_outcome: Result<u64, ValErrorView>,
    pub value_outcome: Result<u64, ValErrorView>,
}

/// One item: it begins; an error in reading it ends validation; otherwise its
/// key is decided, then, where the key lets it, its value; `Some` is the error
/// that ends validation.
pub open spec fn item_step(s: ValidateToDictView, item: ItemOutcomes) -> (
    ValidateToDictView,
    Option<ValErrorView>,
) {
    if item.read_error is Some {
        (begin_item_state(s), item.read_error)
    } else {
        item_step_read(s, item)
    }
}

/// One item that was read: its key is decided, then, where the key lets it,
/// its value.
pub open spec fn item_step_read(s: ValidateToDictView, item: ItemOutcomes) -> (
    ValidateToDictView,
    Option<ValErrorView>,
) {
    let (s1, step) = key_transition(begin_item_state(s), item.key, item.is_last, item.key_outcome);
    match step {
        KeyStepView::Proceed(output_key) => value_transition(
            s1,
            item.key,
            output_key,
            item.is_last,
            item.value_outcome,
        ),
        KeyStepView::Skip => (s1, None),
        KeyStepView::Stop(e) => (s1, Some(e)),
    }
}

/// The items, one after the other, until one ends validation.
pub open spec fn run_items(s: ValidateToDictView, items: Seq<ItemOutcomes>) -> (
    ValidateToDictView,
    Option<ValErrorView>,
)
    decreases items.len(),
{
    if items.len() == 0 {
        (s, None)
    } else {
        let (s1, stop) = item_step(s, items[0]);
        if stop is Some {
            (s1, stop)
        } else {
            run_items(s1, items.drop_first())
        }
    }
}

/// The result of validating the items from the state `s`.
pub open spec fn validation_result(s: ValidateToDictView, items: Seq<ItemOutcomes>) -> Result<
    DictOutputView,
    ValErrorView,
> {
    let (end, stop) = run_items(s, items);
    match stop {
        Some(e) => Err(e),
        None => finish_result(end),
    }
}

/// Every item was read, and every key and every value passed validation.
pub open spec fn all_pass(items: Seq<ItemOutcomes>) -> bool {
    forall|i: int|
        0 <= i < items.len() ==> (#[trigger] items[i]).read_error is None
            && items[i].key_outcome is Ok && items[i].value_outcome is Ok
}

/// The validated keys and values set one after the other into `out`.
pub open spec fn set_all(out: Seq<(u64, u64)>, items: Seq<ItemOutcomes>) -> Seq<(u64, u64)>
    decreases items.len(),
{
    if items.len() == 0 {
        out
    } else {
        set_all(
            dict_set(out, items[0].key_outcome->Ok_0, items[0].value_outcome->Ok_0),
            items.drop_first(),
        )
    }
}

/// Where every key and value passes, no error is found and the output is
/// every validated key set to its validated value, in order.
pub proof fn law_all_pass_run(s: ValidateToDictView, items: Seq<ItemOutcomes>)
    requires
        all_pass(items),
    ensures
        run_items(s, items).1 is None,
        run_items(s, items).0.errors == s.errors,
        run_items(s, items).0.output == set_all(s.output, items),
        same_settings(s, run_items(s, items).0),
    decreases items.len(),
{
    if items.len() > 0 {
        let (s1, stop) = item_step(s, items[0]);
        assert(items[0].read_error is None && items[0].key_outcome is Ok
            && items[0].value_outcome is Ok);
        let rest = items.drop_first();
        assert forall|i: int| 0 <= i < rest.len() implies (#[trigger] rest[i]).read_error is None
            && rest[i].key_outcome is Ok && rest[i].value_outcome is Ok by {
            assert(rest[i] == items[i + 1]);
        }
        law_all_pass_run(s1, rest);
    }
}

/// A dictionary whose keys and values all pass validation gives back the
/// validated keys and values, as a dictionary of the input's type, exactly
/// when their number is within the bounds; otherwise the length error.
pub proof fn law_all_pass_result(
    min_length: Option<usize>,
    max_length: Option<usize>,
    allow_partial: PartialMode,
    input_value: u64,
    kind: DictKind,
    items: Seq<ItemOutcomes>,
)
    requires
        all_pass(items),
    ensures
        validation_result(
            initial_state(min_length, max_length, allow_partial, input_value, kind),
            items,
        ) == match length_check(
            min_length,
            max_length,
            set_all(Seq::empty(), items).len(),
            input_value,
        ) {
            Some(e) => Err(e),
            None => Ok(DictOutputView { kind, entries: set_all(Seq::empty(), items) }),
        },
{
    let s = initial_state(min_length, max_length, allow_partial, input_value, kind);
    law_all_pass_run(s, items);
}

/// Where the key of an item fails with line errors, validation fails: the
/// item adds errors, and errors once found are the result unless another
/// error ends validation first.
pub proof fn law_key_errors_fail(s: ValidateToDictView, items: Seq<ItemOutcomes>, i: int)
    requires
        0 <= i < items.len(),
        items[i].key_outcome matches Err(ValErrorView::LineErrors(es)) && es.len() > 0,
    ensures
        validation_result(s, items) is Err,
    decreases items.len(),
{
    if items.len() > 0 {
        let (s1, stop) = item_step(s, items[0]);
        if stop is None {
            if i == 0 {
                lemma_errors_stay(s1, items.drop_first());
            } else {
                assert(items.drop_first()[i - 1] == items[i]);
                law_key_errors_fail(s1, items.drop_first(), i - 1);
            }
        }
    }
}

/// Once an error has been found, validation fails.
pub proof fn lemma_errors_stay(s: ValidateToDictView, items: Seq<ItemOutcomes>)
    requires
        s.errors.len() > 0,
    ensures
        validation_result(s, items) is Err,
    decreases items.len(),
{
    if items.len() > 0 {
        let (s1, stop) = item_step(s, items[0]);
        let b = begin_item_state(s);
        law_errors_kept(s, items[0].key, None, items[0].is_last, items[0].key_outcome);
        let (s2, step) = key_transition(b, items[0].key, items[0].is_last, items[0].key_outcome);
        law_errors_kept(b, items[0].key, None, items[0].is_last, items[0].key_outcome);
        if let KeyStepView::Proceed(ok) = step {
            law_errors_kept(s2, items[0].key, ok, items[0].is_last, items[0].value_outcome);
        }
        assert(s1.errors.len() >= s.errors.len());
        if stop is None {
            lemma_errors_stay(s1, items.drop_first());
        }
    }
}

/// No item changes the settings.
pub proof fn lemma_run_keeps_settings(s: ValidateToDictView, items: Seq<ItemOutcomes>)
    ensures
        same_settings(s, run_items(s, items).0),
    decreases items.len(),
{
    if items.len() > 0 {
        let b = begin_item_state(s);
        let it = items[0];
        law_errors_kept(s, it.key, None, it.is_last, it.key_outcome);
        let (s2, step) = key_transition(b, it.key, it.is_last, it.key_outcome);
        law_errors_kept(b, it.key, None, it.is_last, it.key_outcome);
        if let KeyStepView::Proceed(ok) = step {
            law_errors_kept(s2, it.key, ok, it.is_last, it.value_outcome);
        }
        let (s1, stop) = item_step(s, it);
        if stop is None {
            lemma_run_keeps_settings(s1, items.drop_first());
        }
    }
}

/// The output is an `OrderedDict` exactly when the input was one: a
/// successful validation returns a dictionary of the type chosen at the
/// start, whatever the items.
pub proof fn law_dict_kind_preserved(
    min_length: Option<usize>,
    max_length: Option<usize>,
    allow_partial: PartialMode,
    input_value: u64,
    kind: DictKind,
    items: Seq<ItemOutcomes>,
)
    ensures
        validation_result(
            initial_state(min_length, max_length, allow_partial, input_value, kind),
            items,
        ) matches Ok(out) ==> out.kind == kind,
{
    lemma_run_keeps_settings(initial_state(min_length, max_length, allow_partial, input_value, kind), items);
}

/// The item ends validation: reading it fails, or its key fails with an
/// error other than line errors and omission, or its key lets the value be
/// validated and the value fails with such an error.
pub open spec fn item_stops(item: ItemOutcomes) -> bool {
    item.read_error is Some || match item.key_outcome {
        Err(ValErrorView::Omit) => false,
        Err(ValErrorView::LineErrors(_)) | Ok(_) => match item.value_outcome {
            Err(ValErrorView::LineErrors(_)) | Err(ValErrorView::Omit) | Ok(_) => false,
            Err(_) => true,
        },
        Err(_) => true,
    }
}

/// The error with which an item that ends validation ends it: the error in
/// reading it, else its key's, else its value's.
pub open spec fn stop_error(item: ItemOutcomes) -> ValErrorView {
    match item.read_error {
        Some(e) => e,
        None => match item.key_outcome {
            Err(ValErrorView::LineErrors(_)) | Ok(_) => item.value_outcome->Err_0,
            Err(e) => e,
        },
    }
}

/// An item ends validation exactly when `item_stops` says so, and with
/// `stop_error`.
pub proof fn lemma_item_step_stop(s: ValidateToDictView, item: ItemOutcomes)
    ensures
        item_stops(item) ==> item_step(s, item).1 == Some(stop_error(item)),
        !item_stops(item) ==> item_step(s, item).1 is None,
{
}

/// The first item that ends validation decides the result: it is that item's
/// error, unchanged; the line errors of the items before it are dropped, and
/// the items after it play no part.
pub proof fn law_first_stop_is_the_result(s: ValidateToDictView, items: Seq<ItemOutcomes>, j: int)
    requires
        0 <= j < items.len(),
        forall|i: int| 0 <= i < j ==> !item_stops(#[trigger] items[i]),
        item_stops(items[j]),
    ensures
        run_items(s, items).1 == Some(stop_error(items[j])),
        validation_result(s, items) == Err::<DictOutputView, ValErrorView>(stop_error(items[j])),
    decreases j,
{
    lemma_item_step_stop(s, items[0]);
    if j > 0 {
        assert(!item_stops(items[0]));
        let (s1, stop) = item_step(s, items[0]);
        let rest = items.drop_first();
        assert forall|i: int| 0 <= i < j - 1 implies !item_stops(#[trigger] rest[i]) by {
            assert(rest[i] == items[i + 1]);
        }
        assert(rest[j - 1] == items[j]);
        law_first_stop_is_the_result(s1, rest, j - 1);
    }
}

/// The line errors one item adds: its key's, under `[key, "[key]"]`, then,
/// where the key lets the value be validated, its value's, under `[key]`,
/// unless it is the last item under partial validation.
pub open spec fn item_errors(allow_partial: PartialMode, item: ItemOutcomes) -> Seq<LineErrorView> {
    let key_part = match item.key_outcome {
        Err(ValErrorView::LineErrors(es)) => es.map_values(|e: LineErrorView| key_error(item.key, e)),
        _ => Seq::empty(),
    };
    let value_part = match item.key_outcome {
        Err(ValErrorView::LineErrors(_)) | Ok(_) => match item.value_outcome {
            Err(ValErrorView::LineErrors(es)) => if is_last_partial(allow_partial, item.is_last) {
                Seq::empty()
            } else {
                es.map_values(|e: LineErrorView| value_error(item.key, e))
            },
            _ => Seq::empty(),
        },
        _ => Seq::empty(),
    };
    key_part + value_part
}

/// The line errors of all the items, item after item.
pub open spec fn all_item_errors(allow_partial: PartialMode, items: Seq<ItemOutcomes>) -> Seq<
    LineErrorView,
>
    decreases items.len(),
{
    if items.len() == 0 {
        Seq::empty()
    } else {
        item_errors(allow_partial, items[0]) + all_item_errors(allow_partial, items.drop_first())
    }
}

/// Where no item ends validation, every line error of every item is
/// collected, in the order of the items, after the errors found before.
pub proof fn law_run_collects_errors(s: ValidateToDictView, items: Seq<ItemOutcomes>)
    requires
        forall|i: int| 0 <= i < items.len() ==> !item_stops(#[trigger] items[i]),
    ensures
        run_items(s, items).1 is None,
        run_items(s, items).0.errors == s.errors + all_item_errors(s.allow_partial, items),
        same_settings(s, run_items(s, items).0),
    decreases items.len(),
{
    if items.len() == 0 {
        assert(s.errors + Seq::<LineErrorView>::empty() =~= s.errors);
    } else {
        let it = items[0];
        assert(!item_stops(it));
        let (s1, stop) = item_step(s, it);
        assert(s1.errors =~= s.errors + item_errors(s.allow_partial, it));
        assert(stop is None);
        let rest = items.drop_first();
        assert forall|i: int| 0 <= i < rest.len() implies !item_stops(#[trigger] rest[i]) by {
            assert(rest[i] == items[i + 1]);
        }
        law_run_collects_errors(s1, rest);
        assert(s.errors + all_item_errors(s.allow_partial, items) =~= s.errors + item_errors(
            s.allow_partial,
            it,
        ) + all_item_errors(s.allow_partial, rest));
    }
}

/// Where no item ends validation and some item has line errors, the result is
/// exactly all the items' line errors, in order, whatever the length bounds.
pub proof fn law_errors_are_the_result(
    min_length: Option<usize>,
    max_length: Option<usize>,
    allow_partial: PartialMode,
    input_value: u64,
    kind: DictKind,
    items: Seq<ItemOutcomes>,
)
    requires
        forall|i: int| 0 <= i < items.len() ==> !item_stops(#[trigger] items[i]),
        all_item_errors(allow_partial, items).len() > 0,
    ensures
        validation_result(
            initial_state(min_length, max_length, allow_partial, input_value, kind),
            items,
        ) == Err::<DictOutputView, ValErrorView>(
            ValErrorView::LineErrors(all_item_errors(allow_partial, items)),
        ),
{
    let s = initial_state(min_length, max_length, allow_partial, input_value, kind);
    law_run_collects_errors(s, items);
    assert(s.errors + all_item_errors(allow_partial, items) =~= all_item_errors(allow_partial, items));
}

/// A line error moved under the given location items: they come first, in
/// order, then the error's own location, unchanged.
pub open spec fn under(prefix: Seq<LocItemView>, e: LineErrorView) -> LineErrorView {
    LineErrorView { error_type: e.error_type, location: prefix + e.location, input_value: e.input_value }
}

/// A key's line errors are kept, whatever the partial mode and whether the
/// item is the last, each placed under `[key, "[key]"]` followed by its own
/// location; the value is then validated.
pub proof fn law_key_line_errors_placed(
    s: ValidateToDictView,
    key: LocItemView,
    is_last: bool,
    es: Seq<LineErrorView>,
)
    ensures
        key_transition(s, key, is_last, Err(ValErrorView::LineErrors(es))).0.errors == s.errors
            + es.map_values(|e: LineErrorView| under(seq![key, LocItemView::S("[key]"@)], e)),
        key_transition(s, key, is_last, Err(ValErrorView::LineErrors(es))).0.output == s.output,
        key_transition(s, key, is_last, Err(ValErrorView::LineErrors(es))).1 == KeyStepView::Proceed(
            None,
        ),
{
    let a = key_transition(s, key, is_last, Err(ValErrorView::LineErrors(es))).0.errors;
    let b = s.errors + es.map_values(|e: LineErrorView| under(seq![key, LocItemView::S("[key]"@)], e));
    assert forall|i: int| 0 <= i < a.len() implies a[i] == b[i] by {
        if i >= s.errors.len() {
            let e = es[i - s.errors.len()];
            assert(seq![key] + (seq![LocItemView::S("[key]"@)] + e.location) =~= seq![
                key,
                LocItemView::S("[key]"@),
            ] + e.location);
        }
    }
    assert(a =~= b);
}

/// The value of an item that is not the last one keeps its line errors under
/// every partial mode: each is placed under `[key]` followed by its own
/// location, and validation then fails if there was any.
pub proof fn law_non_last_value_errors_kept(
    s: ValidateToDictView,
    key: LocItemView,
    output_key: Option<u64>,
    es: Seq<LineErrorView>,
)
    ensures
        value_transition(s, key, output_key, false, Err(ValErrorView::LineErrors(es))).0.errors
            == s.errors + es.map_values(|e: LineErrorView| under(seq![key], e)),
        value_transition(s, key, output_key, false, Err(ValErrorView::LineErrors(es))).0.output
            == s.output,
        value_transition(s, key, output_key, false, Err(ValErrorView::LineErrors(es))).1 is None,
        es.len() > 0 ==> finish_result(
            value_transition(s, key, output_key, false, Err(ValErrorView::LineErrors(es))).0,
        ) is Err,
{
    let a = value_transition(s, key, output_key, false, Err(ValErrorView::LineErrors(es))).0.errors;
    let b = s.errors + es.map_values(|e: LineErrorView| under(seq![key], e));
    assert forall|i: int| 0 <= i < a.len() implies a[i] == b[i] by {}
    assert(a =~= b);
}

/// The value of the last item: under an active partial mode (`On` or
/// `TrailingStrings`) its line errors add nothing and change nothing; with
/// partial mode `Off` they are kept, each under `[key]` followed by its own
/// location.
pub proof fn law_last_value_errors(
    s: ValidateToDictView,
    key: LocItemView,
    output_key: Option<u64>,
    es: Seq<LineErrorView>,
)
    ensures
        (s.allow_partial == PartialMode::On || s.allow_partial == PartialMode::TrailingStrings)
            ==> value_transition(s, key, output_key, true, Err(ValErrorView::LineErrors(es))) == (
            s,
            None::<ValErrorView>,
        ),
        s.allow_partial == PartialMode::Off ==> value_transition(
            s,
            key,
            output_key,
            true,
            Err(ValErrorView::LineErrors(es)),
        ).0.errors == s.errors + es.map_values(|e: LineErrorView| under(seq![key], e)),
{
    if s.allow_partial == PartialMode::Off {
        let a = value_transition(s, key, output_key, true, Err(ValErrorView::LineErrors(es))).0.errors;
        let b = s.errors + es.map_values(|e: LineErrorView| under(seq![key], e));
        assert forall|i: int| 0 <= i < a.len() implies a[i] == b[i] by {}
        assert(a =~= b);
    }
}

/// The partial mode a value runs with: after the key of an item that is not
/// the last one (passing or failing with line errors) it is `Off`, whatever
/// mode validation began with; after the key of the last item it is the mode
/// validation began with. A key always runs with `Off`.
pub proof fn law_value_partial_mode(
    s: ValidateToDictView,
    key: LocItemView,
    is_last: bool,
    outcome: Result<u64, ValErrorView>,
)
    requires
        outcome is Ok || outcome matches Err(ValErrorView::LineErrors(_)),
    ensures
        begin_item_state(s).partial_mode == PartialMode::Off,
        !is_last ==> key_transition(s, key, is_last, outcome).0.partial_mode == PartialMode::Off,
        is_last ==> key_transition(s, key, is_last, outcome).0.partial_mode == s.allow_partial,
{
}

} // verus!
