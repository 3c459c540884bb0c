use vstd::prelude::*;
use crate::form::{last_value, lookup, parse_pairs, form_pairs};
use crate::models::TimeRange;
use vstd::string::StringSliceAdditionalSpecFns;
use crate::text::{NumberError, parse_i64, parse_int, number_error_text};

verus! {

/// The query fields that bound a time range.
#[derive(Debug, Clone, Copy, PartialEq, Eq, Structural)]
pub enum TimeField {
    Before,
    After,
}

/// The name of a time field in a query string.
pub open spec fn field_name(f: TimeField) -> Seq<char> {
    match f {
        TimeField::Before => "before"@,
        TimeField::After => "after"@,
    }
}

impl TimeField {
    /// The name of the field in a query string.
    pub fn name(&self) -> (r: &'static str)
        ensures
            r@ == field_name(*self),
    {
        match self {
            TimeField::Before => "before",
            TimeField::After => "after",
        }
    }
}

/// A query string whose time bound is not an integer.
#[derive(Debug, Clone)]
pub enum QueryError {
    InvalidNumber { field: TimeField, raw: String, reason: NumberError },
}

/// The text of a query error on `field` for `reason`.
pub open spec fn query_error_text(field: TimeField, reason: NumberError) -> Seq<char> {
    "Error parsing '"@ + field_name(field) + "': "@ + number_error_text(reason)
}

impl QueryError {
    /// The field that failed.
    pub fn field(&self) -> (r: TimeField)
        ensures
            *self matches QueryError::InvalidNumber { field, .. } && r == field,
    {
        match self {
            QueryError::InvalidNumber { field, .. } => *field,
        }
    }

    /// The text that describes the error, naming the field.
    pub fn message(&self) -> (r: String)
        ensures
            *self matches QueryError::InvalidNumber { field, reason, .. } && r@ == query_error_text(
                field,
                reason,
            ),
    {
        match self {
            QueryError::InvalidNumber { field, reason, .. } => {
                let mut r = String::from_str("Error parsing '");
                r.append(field.name());
                r.append("': ");
                r.append(reason.message());
                r
            },
        }
    }
}

/// What a bound field yields: absent, a number, or the text and the error.
pub open spec fn bound_of(pairs: Seq<(Seq<char>, Seq<char>)>, f: TimeField) -> Result<
    Option<int>,
    (Seq<char>, NumberError),
> {
    match last_value(pairs, field_name(f)) {
        None => Ok(None),
        Some(raw) => match parse_int(raw) {
            Ok(v) => Ok(Some(v)),
            Err(e) => Err((raw, e)),
        },
    }
}

/// The time range that query pairs describe, `before` checked first:
/// `Ok((before, after))`, or the failing field with its text and error.
pub open spec fn range_of(pairs: Seq<(Seq<char>, Seq<char>)>) -> Result<
    (Option<int>, Option<int>),
    (TimeField, Seq<char>, NumberError),
> {
    match bound_of(pairs, TimeField::Before) {
        Err((raw, e)) => Err((TimeField::Before, raw, e)),
        Ok(before) => match bound_of(pairs, TimeField::After) {
            Err((raw, e)) => Err((TimeField::After, raw, e)),
            Ok(after) => Ok((before, after)),
        },
    }
}

/// Whether a range and an error match what `range_of` gives.
pub open spec fn range_result_is(
    r: Result<TimeRange, QueryError>,
    spec: Result<(Option<int>, Option<int>), (TimeField, Seq<char>, NumberError)>,
) -> bool {
    match spec {
        Ok((before, after)) => r matches Ok(t) && (match before {
            Some(b) => t.before matches Some(x) && x == b,
            None => t.before is None,
        }) && (match after {
            Some(a) => t.after matches Some(x) && x == a,
            None => t.after is None,
        }),
        Err((field, raw, reason)) => r matches Err(QueryError::InvalidNumber { field: f, raw: s, reason: e })
            && f == field && s@ == raw && e == reason,
    }
}

/// The value of one bound field of a list of query pairs, if present.
fn bound_from_pairs(pairs: &Vec<(String, String)>, field: TimeField) -> (r: Result<
    Option<i64>,
    QueryError,
>)
    ensures
        match bound_of(pairs.deep_view(), field) {
            Ok(None) => r matches Ok(None),
            Ok(Some(v)) => r matches Ok(Some(x)) && x == v,
            Err((raw, e)) => r matches Err(QueryError::InvalidNumber { field: f, raw: s, reason: g })
                && f == field && s@ == raw && g == e,
        },
{
    match lookup(pairs, &String::from_str(field.name())) {
        None => Ok(None),
        Some(raw) => match parse_i64(raw.as_str()) {
            Ok(v) => Ok(Some(v)),
            Err(reason) => Err(QueryError::InvalidNumber { field, raw, reason }),
        },
    }
}

/// Builds the time range that a list of query pairs describes.
pub fn range_from_pairs(pairs: &Vec<(String, String)>) -> (r: Result<TimeRange, QueryError>)
    ensures
        range_result_is(r, range_of(pairs.deep_view())),
{
    let before = match bound_from_pairs(pairs, TimeField::Before) {
        Ok(b) => b,
        Err(e) => {
            return Err(e);
        },
    };
    let after = match bound_from_pairs(pairs, TimeField::After) {
        Ok(a) => a,
        Err(e) => {
            return Err(e);
        },
    };
    Ok(TimeRange { before, after })
}

/// Parses the `before` and `after` bounds of a query string.
pub fn parse_query(query: &str) -> (r: Result<TimeRange, QueryError>)
    ensures
        range_result_is(r, range_of(form_pairs(query.spec_bytes()))),
{
    let pairs = parse_pairs(query.as_bytes());
    range_from_pairs(&pairs)
}

/// A query whose `before` field is not an integer fails, naming `before`
/// and its text.
pub proof fn law_bad_before_named(query: Seq<u8>, raw: Seq<char>)
    requires
        last_value(form_pairs(query), "before"@) == Some(raw),
        parse_int(raw) is Err,
    ensures
        range_of(form_pairs(query)) matches Err((f, s, _)) && f == TimeField::Before && s == raw,
{
}

/// A query whose `after` field is not an integer fails, naming `after` and
/// its text, unless its `before` field has failed first.
pub proof fn law_bad_after_named(query: Seq<u8>, raw: Seq<char>)
    requires
        last_value(form_pairs(query), "after"@) == Some(raw),
        parse_int(raw) is Err,
        bound_of(form_pairs(query), TimeField::Before) is Ok,
    ensures
        range_of(form_pairs(query)) matches Err((f, s, _)) && f == TimeField::After && s == raw,
{
}

/// One condition of a filtered select on the timestamp.
#[derive(Debug, Clone, Copy, PartialEq, Eq, Structural)]
pub enum Condition {
    /// `timestamp < bound`
    Below(i64),
    /// `timestamp > bound`
    Above(i64),
}

impl Condition {
    /// True when a message with this timestamp meets the condition.
    pub open spec fn holds_for(self, timestamp: int) -> bool {
        match self {
            Condition::Below(b) => timestamp < b,
            Condition::Above(a) => timestamp > a,
        }
    }

    /// Whether a message with this timestamp meets the condition.
    pub fn holds(&self, timestamp: i64) -> (r: bool)
        ensures
            r == self.holds_for(timestamp as int),
    {
        match self {
            Condition::Below(b) => timestamp < *b,
            Condition::Above(a) => timestamp > *a,
        }
    }
}

/// The conditions of the select for a time range: one per bound.
pub open spec fn conditions_of(range: TimeRange) -> Seq<Condition> {
    (match range.before {
        Some(b) => seq![Condition::Below(b)],
        None => Seq::empty(),
    }) + (match range.after {
        Some(a) => seq![Condition::Above(a)],
        None => Seq::empty(),
    })
}

/// Whether a timestamp meets every condition of a list.
pub open spec fn all_hold(conds: Seq<Condition>, timestamp: int) -> bool {
    forall|i: int| 0 <= i < conds.len() ==> (#[trigger] conds[i]).holds_for(timestamp)
}

/// The conditions that a select for this time range applies, together.
pub fn query_conditions(range: &TimeRange) -> (r: Vec<Condition>)
    ensures
        r@ == conditions_of(*range),
{
    let mut r: Vec<Condition> = Vec::new();
    if let Some(b) = range.before {
        r.push(Condition::Below(b));
    }
    if let Some(a) = range.after {
        r.push(Condition::Above(a));
    }
    assert(r@ =~= conditions_of(*range));
    r
}

/// A message meets the conditions of a select exactly when its timestamp
/// lies in the range: below `before` and above `after`, each where set.
pub proof fn law_conditions_select_range(range: TimeRange, timestamp: int)
    ensures
        all_hold(conditions_of(range), timestamp) <==> range.admits(timestamp),
{
    let c = conditions_of(range);
    match (range.before, range.after) {
        (Some(b), Some(a)) => {
            assert(c =~= seq![Condition::Below(b), Condition::Above(a)]);
            if all_hold(c, timestamp) {
                assert(c[0].holds_for(timestamp) && c[1].holds_for(timestamp));
            }
        },
        (Some(b), None) => {
            assert(c =~= seq![Condition::Below(b)]);
            if all_hold(c, timestamp) {
                assert(c[0].holds_for(timestamp));
            }
        },
        (None, Some(a)) => {
            assert(c =~= seq![Condition::Above(a)]);
            if all_hold(c, timestamp) {
                assert(c[0].holds_for(timestamp));
            }
        },
        (None, None) => {
            assert(c =~= Seq::<Condition>::empty());
        },
    }
}

/// A range with neither bound puts no condition on the select, so every
/// stored message, whatever its timestamp, is listed.
pub proof fn law_unbounded_selects_all(range: TimeRange, timestamp: int)
    requires
        range.before is None,
        range.after is None,
    ensures
        conditions_of(range).len() == 0,
        all_hold(conditions_of(range), timestamp),
        range.admits(timestamp),
{
    assert(conditions_of(range) =~= Seq::<Condition>::empty());
}

} // verus!
