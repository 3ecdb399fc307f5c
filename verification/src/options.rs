//! Decoding of the loosely typed options of an invocation into typed values,
//! position by position, against the declared options of a command.

use crate::error::{fails_with, outcome, yields, CommandError, ErrorView};
use crate::schema::{OptionSchema, OptionSchemaView, OptionValue, ValueView};
use crate::service::{parsed_search_type, SearchType};
use crate::text::{decimal, push_decimal};
use vstd::prelude::*;

verus! {

/// One option as the transport delivers it: its name and, where the
/// transport could resolve it, its value.
#[derive(Debug, PartialEq, Eq)]
pub struct RawOption {
    pub name: String,
    pub value: Option<OptionValue>,
}

/// The mathematical content of a [`RawOption`].
pub struct RawOptionView {
    pub name: Seq<char>,
    pub value: Option<ValueView>,
}

impl View for RawOption {
    type V = RawOptionView;

    open spec fn view(&self) -> RawOptionView {
        RawOptionView { name: self.name@, value: self.value.deep_view() }
    }
}

impl DeepView for RawOption {
    type V = RawOptionView;

    open spec fn deep_view(&self) -> RawOptionView {
        self@
    }
}

impl RawOption {
    /// An option called `name` whose value is `value`.
    pub fn new(name: &str, value: OptionValue) -> (o: RawOption)
        ensures
            o@ == (RawOptionView { name: name@, value: Some(value@) }),
    {
        RawOption { name: String::from_str(name), value: Some(value) }
    }

    /// An option called `name` whose value the transport could not resolve.
    pub fn unresolved(name: &str) -> (o: RawOption)
        ensures
            o@ == (RawOptionView { name: name@, value: None }),
    {
        RawOption { name: String::from_str(name), value: None }
    }
}

/// The decoded options of one invocation: one slot for each declared option,
/// empty where the option is optional, has no default and was not supplied.
pub type DecodedOptions = Vec<Option<OptionValue>>;

/// The error for an option whose value the transport did not resolve.
pub open spec fn unresolved_error() -> ErrorView {
    ErrorView::InvalidArgument("Failed to resolve value"@)
}

/// The error for more values than the command declares options.
pub open spec fn surplus_error() -> ErrorView {
    ErrorView::InvalidArgument("too many arguments"@)
}

/// The error for a value of another type than the option at `index` declares.
pub open spec fn mismatch_error(index: nat) -> ErrorView {
    ErrorView::InvalidArgument("type mismatch at position "@ + decimal(index))
}

/// The error for a string outside the enumerated set of its option.
pub open spec fn not_allowed_error() -> ErrorView {
    ErrorView::InvalidArgument("value not in allowed set"@)
}

/// The error for an integer outside the range of its option.
pub open spec fn out_of_range_error() -> ErrorView {
    ErrorView::InvalidArgument("value out of range"@)
}

/// Whether each option of `raw` carries a value.
pub open spec fn all_resolved(raw: Seq<RawOptionView>) -> bool {
    forall|i: int| 0 <= i < raw.len() ==> (#[trigger] raw[i]).value is Some
}

/// The values of `raw` in order, one slot for each, or the error where one
/// of them is missing.
pub open spec fn resolved_values(raw: Seq<RawOptionView>) -> Result<
    Seq<Option<ValueView>>,
    ErrorView,
> {
    if all_resolved(raw) {
        Ok(Seq::new(raw.len(), |i: int| raw[i].value))
    } else {
        Err(unresolved_error())
    }
}

/// The slot at `index`; positions behind the last slot are empty.
pub open spec fn slot_at(values: Seq<Option<ValueView>>, index: int) -> Option<ValueView> {
    if 0 <= index < values.len() {
        values[index]
    } else {
        None
    }
}

/// What the slot at `index` decodes to, given the value supplied for it (if
/// any) and its declaration. Positions behind the last supplied value are
/// the trailing options the caller left out.
pub open spec fn slot(supplied: Option<ValueView>, option: OptionSchemaView, index: nat) -> Result<
    Option<ValueView>,
    ErrorView,
> {
    match supplied {
        Some(v) => if v.tag() != option.kind {
            Err(mismatch_error(index))
        } else if !option.in_allowed_set(v) {
            Err(not_allowed_error())
        } else if !option.in_allowed_range(v) {
            Err(out_of_range_error())
        } else {
            Ok(Some(v))
        },
        None => match option.default {
            Some(d) => Ok(Some(d)),
            None => if option.required {
                Err(ErrorView::MissingArgument(index))
            } else {
                Ok(None)
            },
        },
    }
}

/// The outcome of decoding the first `n` slots: the slots in order, or the
/// error of the lowest position that fails.
pub open spec fn decode_prefix(values: Seq<Option<ValueView>>, schema: Seq<OptionSchemaView>, n: nat)
    -> Result<Seq<Option<ValueView>>, ErrorView>
    decreases n,
{
    if n == 0 {
        Ok(Seq::empty())
    } else {
        match decode_prefix(values, schema, (n - 1) as nat) {
            Err(e) => Err(e),
            Ok(done) => match slot(slot_at(values, n - 1), schema[n - 1], (n - 1) as nat) {
                Err(e) => Err(e),
                Ok(v) => Ok(done.push(v)),
            },
        }
    }
}

/// What decoding `raw` against `schema` yields: the error where a value is
/// unresolved or there are more values than declared options, else the
/// slots of all positions or the error of the lowest position that fails.
pub open spec fn decoded(raw: Seq<RawOptionView>, schema: Seq<OptionSchemaView>) -> Result<
    Seq<Option<ValueView>>,
    ErrorView,
> {
    match resolved_values(raw) {
        Err(e) => Err(e),
        Ok(values) => if values.len() > schema.len() {
            Err(surplus_error())
        } else {
            decode_prefix(values, schema, schema.len())
        },
    }
}

/// The values of the options in order, one slot for each. Fails with
/// `InvalidArgument` where the transport left one of them unresolved.
pub fn values_from_options(options: &Vec<RawOption>) -> (r: Result<DecodedOptions, CommandError>)
    ensures
        outcome(r) == resolved_values(options.deep_view()),
{
    let mut values: Vec<Option<OptionValue>> = Vec::new();
    let mut i: usize = 0;
    while i < options.len()
        invariant
            i <= options.len(),
            all_resolved(options.deep_view().take(i as int)),
            values.deep_view() == Seq::new(i as nat, |j: int| options.deep_view()[j].value),
        decreases options.len() - i,
    {
        match &options[i].value {
            Some(value) => {
                let copy = Some(value.duplicate());
                let ghost before = values.deep_view();
                values.push(copy);
                assert(values.deep_view() =~= before.push(copy.deep_view()));
                assert(options.deep_view()[i as int].value == copy.deep_view());
            },
            None => {
                assert(options.deep_view()[i as int].value is None);
                return Err(CommandError::invalid("Failed to resolve value"));
            },
        }
        i += 1;
    }
    assert(options.deep_view().take(i as int) =~= options.deep_view());
    Ok(values)
}

/// The error for a value of another type than the option at `index` declares.
fn mismatch(index: usize) -> (e: CommandError)
    ensures
        e@ == mismatch_error(index as nat),
{
    let mut reason = String::from_str("type mismatch at position ");
    push_decimal(&mut reason, index as u64);
    CommandError::InvalidArgument(reason)
}

/// Decodes one slot: checks the supplied value against the declaration, or
/// falls back on the default where none was supplied.
pub fn decode_slot(supplied: Option<&OptionValue>, option: &OptionSchema, index: usize) -> (r:
    Result<Option<OptionValue>, CommandError>)
    ensures
        outcome(r) == slot(supplied.deep_view(), option@, index as nat),
{
    match supplied {
        Some(value) => {
            if value.kind() != option.kind {
                Err(mismatch(index))
            } else if !option.in_allowed_set(value) {
                Err(CommandError::invalid("value not in allowed set"))
            } else if !option.in_allowed_range(value) {
                Err(CommandError::invalid("value out of range"))
            } else {
                Ok(Some(value.duplicate()))
            }
        },
        None => match &option.default {
            Some(default) => Ok(Some(default.duplicate())),
            None => if option.required {
                Err(CommandError::MissingArgument(index))
            } else {
                Ok(None)
            },
        },
    }
}

/// Once a prefix fails, every longer prefix fails with the same error.
pub proof fn failure_is_final(
    values: Seq<Option<ValueView>>,
    schema: Seq<OptionSchemaView>,
    n: nat,
    m: nat,
)
    requires
        n <= m,
        decode_prefix(values, schema, n) is Err,
    ensures
        decode_prefix(values, schema, m) == decode_prefix(values, schema, n),
    decreases m,
{
    if n < m {
        failure_is_final(values, schema, n, (m - 1) as nat);
    }
}

/// What a successful prefix holds: slot after slot, exactly what each
/// position decodes to.
pub proof fn successful_prefix(values: Seq<Option<ValueView>>, schema: Seq<OptionSchemaView>, n: nat)
    requires
        decode_prefix(values, schema, n) is Ok,
    ensures
        decode_prefix(values, schema, n)->Ok_0.len() == n,
        forall|j: int|
            0 <= j < n ==> yields(
                slot(slot_at(values, j), #[trigger] schema[j], j as nat),
                decode_prefix(values, schema, n)->Ok_0[j],
            ),
    decreases n,
{
    if n > 0 {
        successful_prefix(values, schema, (n - 1) as nat);
    }
}

/// Where a prefix fails, its error is that of the lowest failing position.
pub proof fn failed_prefix(values: Seq<Option<ValueView>>, schema: Seq<OptionSchemaView>, n: nat) -> (at:
    nat)
    requires
        decode_prefix(values, schema, n) is Err,
    ensures
        at < n,
        fails_with(
            slot(slot_at(values, at as int), schema[at as int], at),
            decode_prefix(values, schema, n)->Err_0,
        ),
        forall|j: int|
            0 <= j < at ==> slot(slot_at(values, j), #[trigger] schema[j], j as nat) is Ok,
    decreases n,
{
    if decode_prefix(values, schema, (n - 1) as nat) is Err {
        failed_prefix(values, schema, (n - 1) as nat)
    } else {
        successful_prefix(values, schema, (n - 1) as nat);
        (n - 1) as nat
    }
}

/// Fail-fast, lowest position first: where every position below `i` decodes
/// and position `i` does not, the error of position `i` is the outcome.
pub proof fn lowest_failure_decides(raw: Seq<RawOptionView>, schema: Seq<OptionSchemaView>, i: int)
    requires
        resolved_values(raw) is Ok,
        raw.len() <= schema.len(),
        0 <= i < schema.len(),
        forall|j: int|
            0 <= j < i ==> slot(
                slot_at(resolved_values(raw)->Ok_0, j),
                #[trigger] schema[j],
                j as nat,
            ) is Ok,
        slot(slot_at(resolved_values(raw)->Ok_0, i), schema[i], i as nat) is Err,
    ensures
        fails_with(
            decoded(raw, schema),
            slot(slot_at(resolved_values(raw)->Ok_0, i), schema[i], i as nat)->Err_0,
        ),
{
    let values = resolved_values(raw)->Ok_0;
    if decode_prefix(values, schema, schema.len()) is Ok {
        successful_prefix(values, schema, schema.len());
        assert(slot(slot_at(values, i), schema[i], i as nat) is Ok);
    } else {
        let at = failed_prefix(values, schema, schema.len());
        if at < i {
            assert(slot(slot_at(values, at as int), schema[at as int], at) is Ok);
        } else if at > i {
            assert(slot(slot_at(values, i), schema[i], i as nat) is Ok);
        }
    }
}

/// A supplied value of another type than its option declares makes decoding
/// fail with `InvalidArgument`, whatever the other arguments are.
pub proof fn wrong_type_is_invalid_argument(
    raw: Seq<RawOptionView>,
    schema: Seq<OptionSchemaView>,
    i: int,
)
    requires
        0 <= i < raw.len(),
        i < schema.len(),
        raw[i].value is Some,
        raw[i].value->0.tag() != schema[i].kind,
    ensures
        decoded(raw, schema) is Err,
        decoded(raw, schema)->Err_0 is InvalidArgument,
{
    if all_resolved(raw) {
        let values = resolved_values(raw)->Ok_0;
        if values.len() <= schema.len() {
            assert(slot_at(values, i) == raw[i].value);
            if decode_prefix(values, schema, schema.len()) is Ok {
                successful_prefix(values, schema, schema.len());
                assert(slot(slot_at(values, i), schema[i], i as nat) is Ok);
            } else {
                let at = failed_prefix(values, schema, schema.len());
                if at > i {
                    assert(slot(slot_at(values, i), schema[i], i as nat) is Ok);
                }
                assert(slot_at(values, at as int) is Some);
            }
        }
    }
}

/// A required option without default that the caller leaves out makes
/// decoding fail.
pub proof fn omitted_required_fails(raw: Seq<RawOptionView>, schema: Seq<OptionSchemaView>, i: int)
    requires
        raw.len() <= i < schema.len(),
        schema[i].required,
        schema[i].default is None,
    ensures
        decoded(raw, schema) is Err,
{
    if all_resolved(raw) {
        let values = resolved_values(raw)->Ok_0;
        if decode_prefix(values, schema, schema.len()) is Ok {
            successful_prefix(values, schema, schema.len());
            assert(slot(slot_at(values, i), schema[i], i as nat) is Ok);
        }
    }
}

/// A required option without default that the caller leaves out makes
/// decoding fail with `MissingArgument` of its position, where no lower
/// position fails before it.
pub proof fn omitted_required_is_missing(
    raw: Seq<RawOptionView>,
    schema: Seq<OptionSchemaView>,
    i: int,
)
    requires
        raw.len() <= i < schema.len(),
        schema[i].required,
        schema[i].default is None,
        resolved_values(raw) is Ok,
        forall|j: int|
            0 <= j < i ==> slot(
                slot_at(resolved_values(raw)->Ok_0, j),
                #[trigger] schema[j],
                j as nat,
            ) is Ok,
    ensures
        fails_with(decoded(raw, schema), ErrorView::MissingArgument(i as nat)),
{
    lowest_failure_decides(raw, schema, i);
}

/// Where decoding succeeds, an option that the caller leaves out and that has
/// a default decodes to that default.
pub proof fn omitted_takes_default(raw: Seq<RawOptionView>, schema: Seq<OptionSchemaView>, i: int)
    requires
        raw.len() <= i < schema.len(),
        schema[i].default is Some,
        decoded(raw, schema) is Ok,
    ensures
        decoded(raw, schema)->Ok_0.len() == schema.len(),
        decoded(raw, schema)->Ok_0[i] == schema[i].default,
{
    let values = resolved_values(raw)->Ok_0;
    successful_prefix(values, schema, schema.len());
    assert(yields(
        slot(slot_at(values, i), schema[i], i as nat),
        decoded(raw, schema)->Ok_0[i],
    ));
}

/// Where decoding succeeds there is one slot for each declared option; a
/// supplied value stands in its slot unchanged and is of the declared type,
/// inside the enumerated set and inside the range; with well-formed
/// declarations the same holds of every value that stands in for a default;
/// and a slot is empty only for an optional option.
pub proof fn decoded_values_fit(raw: Seq<RawOptionView>, schema: Seq<OptionSchemaView>)
    requires
        decoded(raw, schema) is Ok,
    ensures
        decoded(raw, schema)->Ok_0.len() == schema.len(),
        raw.len() <= schema.len(),
        forall|i: int|
            0 <= i < raw.len() ==> (#[trigger] decoded(raw, schema)->Ok_0[i]) == raw[i].value
                && raw[i].value is Some && schema[i].admits(raw[i].value->0),
        forall|i: int|
            0 <= i < schema.len() && schema[i].well_formed() && (#[trigger] decoded(
                raw,
                schema,
            )->Ok_0[i]) is Some ==> schema[i].admits(decoded(raw, schema)->Ok_0[i]->0),
        forall|i: int|
            0 <= i < schema.len() && (#[trigger] decoded(raw, schema)->Ok_0[i]) is None
                ==> !schema[i].required && schema[i].default is None && raw.len() <= i,
{
    let values = resolved_values(raw)->Ok_0;
    let slots = decoded(raw, schema)->Ok_0;
    successful_prefix(values, schema, schema.len());
    assert forall|i: int| 0 <= i < schema.len() implies yields(
        slot(slot_at(values, i), schema[i], i as nat),
        #[trigger] slots[i],
    ) by {
        assert(yields(slot(slot_at(values, i), schema[i], i as nat), slots[i]));
    }
    assert forall|i: int| 0 <= i < raw.len() implies (#[trigger] slots[i]) == raw[i].value
        && raw[i].value is Some && schema[i].admits(raw[i].value->0) by {
        assert(raw[i].value is Some);
        assert(slot_at(values, i) == raw[i].value);
    }
}

/// Decoding is deterministic: whatever `decode` returns on inputs of the same
/// content is the same, the decoded values or the error.
pub proof fn decode_is_deterministic(
    raw1: Vec<RawOption>,
    schema1: Vec<OptionSchema>,
    r1: Result<DecodedOptions, CommandError>,
    raw2: Vec<RawOption>,
    schema2: Vec<OptionSchema>,
    r2: Result<DecodedOptions, CommandError>,
)
    requires
        raw1.deep_view() == raw2.deep_view(),
        schema1.deep_view() == schema2.deep_view(),
        outcome(r1) == decoded(raw1.deep_view(), schema1.deep_view()),
        outcome(r2) == decoded(raw2.deep_view(), schema2.deep_view()),
    ensures
        r1 is Ok <==> r2 is Ok,
        r1 is Ok ==> r1->Ok_0.deep_view() == r2->Ok_0.deep_view(),
        r1 is Err ==> r1->Err_0@ == r2->Err_0@,
{
}

/// Decodes the options of an invocation against the declared options of the
/// command. An invocation with an unresolved value, or with more values than
/// the command declares options, is refused as a whole. Then, position by
/// position, a supplied value is checked for its type, the enumerated set
/// and the range; the default stands in for a trailing option that was left
/// out; a required option without default that was left out is missing; and
/// the lowest position that fails decides the error.
pub fn decode(raw: &Vec<RawOption>, schema: &Vec<OptionSchema>) -> (r: Result<
    DecodedOptions,
    CommandError,
>)
    ensures
        outcome(r) == decoded(raw.deep_view(), schema.deep_view()),
{
    let values = match values_from_options(raw) {
        Ok(values) => values,
        Err(e) => {
            return Err(e);
        },
    };
    if values.len() > schema.len() {
        return Err(CommandError::invalid("too many arguments"));
    }
    let mut slots: Vec<Option<OptionValue>> = Vec::new();
    let mut i: usize = 0;
    assert(slots.deep_view() =~= Seq::empty());
    while i < schema.len()
        invariant
            i <= schema.len(),
            values.len() <= schema.len(),
            resolved_values(raw.deep_view()) is Ok,
            resolved_values(raw.deep_view())->Ok_0 == values.deep_view(),
            decode_prefix(values.deep_view(), schema.deep_view(), i as nat) is Ok,
            decode_prefix(values.deep_view(), schema.deep_view(), i as nat)->Ok_0
                == slots.deep_view(),
        decreases schema.len() - i,
    {
        let supplied = value_at(&values, i);
        assert(schema.deep_view()[i as int] == schema[i as int]@);
        match decode_slot(supplied, &schema[i], i) {
            Ok(v) => {
                let ghost before = slots.deep_view();
                slots.push(v);
                assert(slots.deep_view() =~= before.push(v.deep_view()));
            },
            Err(e) => {
                proof {
                    failure_is_final(
                        values.deep_view(),
                        schema.deep_view(),
                        (i + 1) as nat,
                        schema.deep_view().len(),
                    );
                }
                return Err(e);
            },
        }
        i += 1;
    }
    Ok(slots)
}

/// The string in the slot at `index`, or `default` where the slot is empty.
pub open spec fn text_at(values: Seq<Option<ValueView>>, index: nat, default: Option<Seq<char>>)
    -> Result<Seq<char>, ErrorView> {
    match slot_at(values, index as int) {
        Some(ValueView::String(text)) => Ok(text),
        Some(_) => Err(mismatch_error(index)),
        None => match default {
            Some(d) => Ok(d),
            None => Err(ErrorView::MissingArgument(index)),
        },
    }
}

/// The string in the slot at `index`, if the slot holds one; an empty slot
/// stays empty, and a value of another type is an error.
pub open spec fn optional_text_at(values: Seq<Option<ValueView>>, index: nat) -> Result<
    Option<Seq<char>>,
    ErrorView,
> {
    match slot_at(values, index as int) {
        Some(ValueView::String(text)) => Ok(Some(text)),
        Some(_) => Err(mismatch_error(index)),
        None => Ok(None),
    }
}

/// The integer in the slot at `index`, or `default` where the slot is empty.
pub open spec fn int_at(values: Seq<Option<ValueView>>, index: nat, default: Option<int>) -> Result<
    int,
    ErrorView,
> {
    match slot_at(values, index as int) {
        Some(ValueView::Integer(number)) => Ok(number),
        Some(_) => Err(mismatch_error(index)),
        None => match default {
            Some(d) => Ok(d),
            None => Err(ErrorView::MissingArgument(index)),
        },
    }
}

/// The boolean in the slot at `index`, or `default` where the slot is empty.
pub open spec fn bool_at(values: Seq<Option<ValueView>>, index: nat, default: Option<bool>)
    -> Result<bool, ErrorView> {
    match slot_at(values, index as int) {
        Some(ValueView::Boolean(flag)) => Ok(flag),
        Some(_) => Err(mismatch_error(index)),
        None => match default {
            Some(d) => Ok(d),
            None => Err(ErrorView::MissingArgument(index)),
        },
    }
}

/// The search category named in the slot at `index`; an empty slot stands
/// for the category of tracks.
pub open spec fn search_type_at(values: Seq<Option<ValueView>>, index: nat) -> Result<
    SearchType,
    ErrorView,
> {
    match slot_at(values, index as int) {
        Some(ValueView::String(text)) => match parsed_search_type(text) {
            Some(category) => Ok(category),
            None => Err(not_allowed_error()),
        },
        Some(_) => Err(mismatch_error(index)),
        None => Ok(SearchType::Track),
    }
}

/// The default of an integer accessor as a mathematical integer.
pub open spec fn int_default(default: Option<i64>) -> Option<int> {
    match default {
        Some(d) => Some(d as int),
        None => None,
    }
}

/// The slot at `index`, empty where `index` is behind the last slot.
fn value_at(values: &Vec<Option<OptionValue>>, index: usize) -> (v: Option<&OptionValue>)
    ensures
        v.deep_view() == slot_at(values.deep_view(), index as int),
{
    if index < values.len() {
        values[index].as_ref()
    } else {
        None
    }
}

/// Reads the string in the slot at `index`. An empty slot gives `default`,
/// or `MissingArgument` where there is none; a value of another type is an
/// `InvalidArgument`.
pub fn str_from_value<'a>(
    values: &'a Vec<Option<OptionValue>>,
    index: usize,
    default: Option<&'a str>,
) -> (r: Result<&'a str, CommandError>)
    ensures
        outcome(r) == text_at(values.deep_view(), index as nat, default.deep_view()),
{
    match (value_at(values, index), default) {
        (Some(OptionValue::String(text)), _) => Ok(text.as_str()),
        (Some(_), _) => Err(mismatch(index)),
        (None, Some(d)) => Ok(d),
        (None, None) => Err(CommandError::MissingArgument(index)),
    }
}

/// Reads the string in the slot at `index` where there is one. An empty
/// slot gives nothing; a value of another type is an `InvalidArgument`, and
/// is never taken for an empty slot.
pub fn optional_str_from_value<'a>(values: &'a Vec<Option<OptionValue>>, index: usize) -> (r:
    Result<Option<&'a str>, CommandError>)
    ensures
        outcome(r) == optional_text_at(values.deep_view(), index as nat),
{
    match value_at(values, index) {
        Some(OptionValue::String(text)) => Ok(Some(text.as_str())),
        Some(_) => Err(mismatch(index)),
        None => Ok(None),
    }
}

/// Reads the integer in the slot at `index`. An empty slot gives `default`,
/// or `MissingArgument` where there is none; a value of another type is an
/// `InvalidArgument`.
pub fn int_from_value(values: &Vec<Option<OptionValue>>, index: usize, default: Option<i64>) -> (r:
    Result<i64, CommandError>)
    ensures
        r matches Ok(n) ==> yields(
            int_at(values.deep_view(), index as nat, int_default(default)),
            n as int,
        ),
        r matches Err(e) ==> fails_with(
            int_at(values.deep_view(), index as nat, int_default(default)),
            e@,
        ),
{
    match (value_at(values, index), default) {
        (Some(OptionValue::Integer(number)), _) => Ok(*number),
        (Some(_), _) => Err(mismatch(index)),
        (None, Some(d)) => Ok(d),
        (None, None) => Err(CommandError::MissingArgument(index)),
    }
}

/// Reads the boolean in the slot at `index`. An empty slot gives `default`,
/// or `MissingArgument` where there is none; a value of another type is an
/// `InvalidArgument`.
pub fn bool_from_value(values: &Vec<Option<OptionValue>>, index: usize, default: Option<bool>)
    -> (r: Result<bool, CommandError>)
    ensures
        outcome(r) == bool_at(values.deep_view(), index as nat, default),
{
    match (value_at(values, index), default) {
        (Some(OptionValue::Boolean(flag)), _) => Ok(*flag),
        (Some(_), _) => Err(mismatch(index)),
        (None, Some(d)) => Ok(d),
        (None, None) => Err(CommandError::MissingArgument(index)),
    }
}

/// Reads the search category named in the slot at `index`. An empty slot
/// stands for the category of tracks. A string that names no category is an
/// `InvalidArgument` with the wording for a value outside its allowed set; a
/// value of another type is an `InvalidArgument` for the type mismatch.
pub fn search_type_from_value(values: &Vec<Option<OptionValue>>, index: usize) -> (r: Result<
    SearchType,
    CommandError,
>)
    ensures
        r matches Ok(category) ==> yields(
            search_type_at(values.deep_view(), index as nat),
            category,
        ),
        r matches Err(e) ==> fails_with(search_type_at(values.deep_view(), index as nat), e@),
{
    match value_at(values, index) {
        Some(OptionValue::String(text)) => SearchType::parse(text.as_str()),
        Some(_) => Err(mismatch(index)),
        None => Ok(SearchType::Track),
    }
}

} // verus!
