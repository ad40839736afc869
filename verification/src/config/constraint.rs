//! Values that may only change within a set of allowed values.
use vstd::prelude::*;

use crate::text::{extend_chars, extend_str, from_chars, join, join_spec, signed_decimal,
    signed_decimal_spec, to_chars, vviews};

verus! {

/// Where a configuration requirement originated from.
#[derive(Debug, Clone, PartialEq, Eq)]
pub enum RequirementSource {
    Unknown,
    CloudRequirements,
    SystemRequirementsToml { file: String },
}

/// Rendering of a requirement source, as shown in error messages.
pub open spec fn source_display(s: RequirementSource) -> Seq<char> {
    match s {
        RequirementSource::Unknown => "<unspecified>"@,
        RequirementSource::CloudRequirements => "cloud requirements"@,
        RequirementSource::SystemRequirementsToml { file } => file@,
    }
}

impl RequirementSource {
    /// Rendering of a requirement source, as shown in error messages.
    pub fn to_display_string(&self) -> (r: String)
        ensures
            r@ == source_display(*self),
    {
        match self {
            RequirementSource::Unknown => "<unspecified>".to_owned(),
            RequirementSource::CloudRequirements => "cloud requirements".to_owned(),
            RequirementSource::SystemRequirementsToml { file } => file.clone(),
        }
    }

    /// A copy of this source.
    pub fn duplicate(&self) -> (r: Self)
        ensures
            r == *self,
    {
        match self {
            RequirementSource::Unknown => RequirementSource::Unknown,
            RequirementSource::CloudRequirements => RequirementSource::CloudRequirements,
            RequirementSource::SystemRequirementsToml { file } => {
                RequirementSource::SystemRequirementsToml { file: file.clone() }
            },
        }
    }
}

/// Why a value was refused.
#[derive(Debug, Clone, PartialEq, Eq)]
pub enum ConstraintError {
    InvalidValue {
        field_name: String,
        candidate: String,
        allowed: String,
        requirement_source: RequirementSource,
    },
    EmptyField { field_name: String },
    ExecPolicyParse { requirement_source: RequirementSource, reason: String },
}

/// Message of a constraint error, as its `Display` renders it.
pub open spec fn constraint_error_message(e: ConstraintError) -> Seq<char> {
    match e {
        ConstraintError::InvalidValue { field_name, candidate, allowed, requirement_source } =>
            "invalid value for `"@ + field_name@ + "`: `"@ + candidate@
            + "` is not in the allowed set "@ + allowed@ + " (set by "@ + source_display(
            requirement_source,
        ) + ")"@,
        ConstraintError::EmptyField { field_name } => "field `"@ + field_name@ + "` cannot be empty"@,
        ConstraintError::ExecPolicyParse { requirement_source, reason } =>
            "invalid rules in requirements (set by "@ + source_display(requirement_source) + "): "@
            + reason@,
    }
}

impl ConstraintError {
    /// The error for a required list that was given empty.
    pub fn empty_field(field_name: String) -> (r: Self)
        ensures
            r == (ConstraintError::EmptyField { field_name }),
    {
        ConstraintError::EmptyField { field_name }
    }

    /// Message of this error, as its `Display` renders it.
    pub fn to_message(&self) -> (r: String)
        ensures
            r@ == constraint_error_message(*self),
    {
        let mut out: Vec<char>;
        match self {
            ConstraintError::InvalidValue { field_name, candidate, allowed, requirement_source } => {
                out = to_chars("invalid value for `");
                extend_str(&mut out, field_name.as_str());
                extend_str(&mut out, "`: `");
                extend_str(&mut out, candidate.as_str());
                extend_str(&mut out, "` is not in the allowed set ");
                extend_str(&mut out, allowed.as_str());
                extend_str(&mut out, " (set by ");
                let src = requirement_source.to_display_string();
                extend_str(&mut out, src.as_str());
                extend_str(&mut out, ")");
            },
            ConstraintError::EmptyField { field_name } => {
                out = to_chars("field `");
                extend_str(&mut out, field_name.as_str());
                extend_str(&mut out, "` cannot be empty");
            },
            ConstraintError::ExecPolicyParse { requirement_source, reason } => {
                out = to_chars("invalid rules in requirements (set by ");
                let src = requirement_source.to_display_string();
                extend_str(&mut out, src.as_str());
                extend_str(&mut out, "): ");
                extend_str(&mut out, reason.as_str());
            },
        }
        from_chars(out.as_slice())
    }
}

/// Values that a [`Constrained`] can hold: comparable, ordered and printable.
pub trait ConstraintValue: Sized + Copy {
    /// The `Debug` rendering of the value.
    spec fn debug_spec(self) -> Seq<char>;

    /// A rank that orders values (used by lower bounds).
    spec fn rank(self) -> int;

    /// The `Debug` rendering of the value.
    fn debug_repr(&self) -> (r: Vec<char>)
        ensures
            r@ == self.debug_spec(),
    ;

    /// Equality of two values.
    fn same(&self, other: &Self) -> (r: bool)
        ensures
            r == (*self == *other),
    ;

    /// Order of two values by rank.
    fn rank_le(&self, other: &Self) -> (r: bool)
        ensures
            r == (self.rank() <= other.rank()),
    ;
}

impl ConstraintValue for i64 {
    open spec fn debug_spec(self) -> Seq<char> {
        signed_decimal_spec(self as int)
    }

    open spec fn rank(self) -> int {
        self as int
    }

    fn debug_repr(&self) -> (r: Vec<char>) {
        signed_decimal(*self)
    }

    fn same(&self, other: &Self) -> (r: bool) {
        *self == *other
    }

    fn rank_le(&self, other: &Self) -> (r: bool) {
        *self <= *other
    }
}

impl ConstraintValue for i32 {
    open spec fn debug_spec(self) -> Seq<char> {
        signed_decimal_spec(self as int)
    }

    open spec fn rank(self) -> int {
        self as int
    }

    fn debug_repr(&self) -> (r: Vec<char>) {
        signed_decimal(*self as i64)
    }

    fn same(&self, other: &Self) -> (r: bool) {
        *self == *other
    }

    fn rank_le(&self, other: &Self) -> (r: bool) {
        *self <= *other
    }
}

/// `Debug` rendering of a list of values: `[a, b, c]`.
pub open spec fn list_debug<T: ConstraintValue>(v: Seq<T>) -> Seq<char> {
    "["@ + join_spec(Seq::new(v.len(), |i: int| v[i].debug_spec()), ", "@) + "]"@
}

/// `Debug` rendering of a list of values.
pub fn list_debug_exec<T: ConstraintValue>(v: &Vec<T>) -> (r: Vec<char>)
    ensures
        r@ == list_debug(v@),
{
    let mut parts: Vec<Vec<char>> = Vec::new();
    let mut i: usize = 0;
    while i < v.len()
        invariant
            i <= v.len(),
            vviews(parts@) =~= Seq::new(i as nat, |k: int| v@[k].debug_spec()),
        decreases v.len() - i,
    {
        let d = v[i].debug_repr();
        let ghost old_parts = vviews(parts@);
        parts.push(d);
        assert(vviews(parts@) =~= old_parts.push(d@));
        i = i + 1;
    }
    let mut out = to_chars("[");
    let sep = to_chars(", ");
    let body = join(&parts, sep.as_slice());
    extend_chars(&mut out, body.as_slice());
    extend_str(&mut out, "]");
    out
}

/// `v` occurs in the list.
pub open spec fn list_contains<T>(v: Seq<T>, x: T) -> bool {
    exists|i: int| 0 <= i < v.len() && v[i] == x
}

/// Membership of a value in a list.
pub fn list_contains_exec<T: ConstraintValue>(v: &Vec<T>, x: &T) -> (r: bool)
    ensures
        r == list_contains(v@, *x),
{
    let mut i: usize = 0;
    while i < v.len()
        invariant
            i <= v.len(),
            forall|k: int| 0 <= k < i ==> v@[k] != *x,
        decreases v.len() - i,
    {
        if v[i].same(x) {
            return true;
        }
        i = i + 1;
    }
    false
}

/// The rule a [`Constrained`] value must satisfy.
#[derive(Debug, Clone)]
pub enum Validator<T> {
    /// Every value is accepted.
    Any,
    /// Only this value is accepted.
    Only(T),
    /// Only values in the list are accepted; errors name the field and source.
    OneOf { field_name: String, allowed: Vec<T>, source: RequirementSource },
    /// Values of at least this rank are accepted; errors describe the rule.
    AtLeast { bound: T, description: String },
}

/// How a value is adjusted before it is checked and stored.
#[derive(Debug, Clone, Copy)]
pub enum Normalizer<T> {
    /// Values below the bound are raised to it.
    ClampMin(T),
}

/// The value that a normalizer makes of `v`.
pub open spec fn normalize_spec<T: ConstraintValue>(n: Option<Normalizer<T>>, v: T) -> T {
    match n {
        Some(Normalizer::ClampMin(b)) => if v.rank() < b.rank() { b } else { v },
        None => v,
    }
}

/// The validator accepts `v`.
pub open spec fn accepts<T: ConstraintValue>(val: Validator<T>, v: T) -> bool {
    match val {
        Validator::Any => true,
        Validator::Only(x) => v == x,
        Validator::OneOf { allowed, .. } => list_contains(allowed@, v),
        Validator::AtLeast { bound, .. } => bound.rank() <= v.rank(),
    }
}

/// `e` is the error that the validator reports for the refused value `v`.
pub open spec fn rejection<T: ConstraintValue>(val: Validator<T>, v: T, e: ConstraintError) -> bool {
    match e {
        ConstraintError::InvalidValue { field_name, candidate, allowed, requirement_source } => {
            &&& candidate@ == v.debug_spec()
            &&& match val {
                Validator::Any => false,
                Validator::Only(x) => field_name@ == "<unknown>"@ && allowed@ == "["@
                    + x.debug_spec() + "]"@ && requirement_source == RequirementSource::Unknown,
                Validator::OneOf { field_name: f, allowed: list, source } => field_name@ == f@
                    && allowed@ == list_debug(list@) && requirement_source == source,
                Validator::AtLeast { description, .. } => field_name@ == "<unknown>"@ && allowed@
                    == description@ && requirement_source == RequirementSource::Unknown,
            }
        },
        _ => false,
    }
}

/// The outcome of checking `v` against the validator.
pub open spec fn check_outcome<T: ConstraintValue>(
    val: Validator<T>,
    v: T,
    r: Result<(), ConstraintError>,
) -> bool {
    match r {
        Ok(()) => accepts(val, v),
        Err(e) => !accepts(val, v) && rejection(val, v, e),
    }
}

/// Checks a value against a validator.
pub fn check_value<T: ConstraintValue>(val: &Validator<T>, v: &T) -> (r: Result<(), ConstraintError>)
    ensures
        check_outcome(*val, *v, r),
        r is Ok <==> accepts(*val, *v),
{
    let ok = match val {
        Validator::Any => true,
        Validator::Only(x) => v.same(x),
        Validator::OneOf { allowed, .. } => list_contains_exec(allowed, v),
        Validator::AtLeast { bound, .. } => bound.rank_le(v),
    };
    if ok {
        return Ok(());
    }
    let cand = v.debug_repr();
    let candidate = from_chars(cand.as_slice());
    match val {
        Validator::Any => Ok(()),
        Validator::Only(x) => {
            let mut a = to_chars("[");
            let d = x.debug_repr();
            extend_chars(&mut a, d.as_slice());
            extend_str(&mut a, "]");
            Err(ConstraintError::InvalidValue {
                field_name: "<unknown>".to_owned(),
                candidate,
                allowed: from_chars(a.as_slice()),
                requirement_source: RequirementSource::Unknown,
            })
        },
        Validator::OneOf { field_name, allowed, source } => {
            let a = list_debug_exec(allowed);
            Err(ConstraintError::InvalidValue {
                field_name: field_name.clone(),
                candidate,
                allowed: from_chars(a.as_slice()),
                requirement_source: source.duplicate(),
            })
        },
        Validator::AtLeast { description, .. } => Err(ConstraintError::InvalidValue {
            field_name: "<unknown>".to_owned(),
            candidate,
            allowed: description.clone(),
            requirement_source: RequirementSource::Unknown,
        }),
    }
}

/// A value together with the rule it must keep satisfying.
#[derive(Debug)]
pub struct Constrained<T: ConstraintValue> {
    value: T,
    validator: Validator<T>,
    normalizer: Option<Normalizer<T>>,
}

impl<T: ConstraintValue> Constrained<T> {
    /// The held value always satisfies the rule.
    #[verifier::type_invariant]
    spec fn inv(self) -> bool {
        accepts(self.validator, self.value)
    }

    /// The held value.
    pub closed spec fn spec_value(self) -> T {
        self.value
    }

    /// The rule the value must satisfy.
    pub closed spec fn spec_validator(self) -> Validator<T> {
        self.validator
    }

    /// The adjustment applied to new values.
    pub closed spec fn spec_normalizer(self) -> Option<Normalizer<T>> {
        self.normalizer
    }

    /// A value checked by `validator`; refused initial values give the validator's error.
    pub fn new(initial_value: T, validator: Validator<T>) -> (r: Result<Self, ConstraintError>)
        ensures
            check_outcome(validator, initial_value, match r {
                Ok(_) => Ok(()),
                Err(e) => Err(e),
            }),
            r matches Ok(c) ==> c.spec_value() == initial_value && c.spec_validator() == validator
                && c.spec_normalizer() is None,
    {
        match check_value(&validator, &initial_value) {
            Ok(()) => Ok(Constrained { value: initial_value, validator, normalizer: None }),
            Err(e) => Err(e),
        }
    }

    /// A value that accepts everything but is adjusted by `normalizer` first.
    pub fn normalized(initial_value: T, normalizer: Normalizer<T>) -> (r: Result<
        Self,
        ConstraintError,
    >)
        ensures
            r matches Ok(c) && c.spec_value() == normalize_spec(Some(normalizer), initial_value)
                && c.spec_validator() == Validator::<T>::Any && c.spec_normalizer() == Some(
                normalizer,
            ),
    {
        let value = apply_normalizer(&Some(normalizer), initial_value);
        Ok(Constrained { value, validator: Validator::Any, normalizer: Some(normalizer) })
    }

    /// A value that accepts everything.
    pub fn allow_any(initial_value: T) -> (r: Self)
        ensures
            r.spec_value() == initial_value,
            r.spec_validator() == Validator::<T>::Any,
            r.spec_normalizer() is None,
    {
        Constrained { value: initial_value, validator: Validator::Any, normalizer: None }
    }

    /// A value that can only ever be `only_value`.
    pub fn allow_only(only_value: T) -> (r: Self)
        ensures
            r.spec_value() == only_value,
            r.spec_validator() == Validator::Only(only_value),
            r.spec_normalizer() is None,
    {
        Constrained { value: only_value, validator: Validator::Only(only_value), normalizer: None }
    }

    /// The held value.
    pub fn get(&self) -> (r: &T)
        ensures
            *r == self.spec_value(),
            accepts(self.spec_validator(), *r),
    {
        proof { use_type_invariant(self); }
        &self.value
    }

    /// The held value, by copy.
    pub fn value(&self) -> (r: T)
        ensures
            r == self.spec_value(),
            accepts(self.spec_validator(), r),
    {
        proof { use_type_invariant(self); }
        self.value
    }

    /// Whether `candidate` could be set, without setting it.
    pub fn can_set(&self, candidate: &T) -> (r: Result<(), ConstraintError>)
        ensures
            check_outcome(self.spec_validator(), *candidate, r),
    {
        check_value(&self.validator, candidate)
    }

    /// Sets the normalized `value` if the rule accepts it; otherwise nothing changes.
    pub fn set(&mut self, value: T) -> (r: Result<(), ConstraintError>)
        ensures
            check_outcome(old(self).spec_validator(), normalize_spec(old(self).spec_normalizer(), value), r),
            final(self).spec_validator() == old(self).spec_validator(),
            final(self).spec_normalizer() == old(self).spec_normalizer(),
            r is Ok ==> final(self).spec_value() == normalize_spec(old(self).spec_normalizer(), value),
            r is Err ==> final(self).spec_value() == old(self).spec_value(),
    {
        let v = apply_normalizer(&self.normalizer, value);
        match check_value(&self.validator, &v) {
            Ok(()) => {
                self.value = v;
                Ok(())
            },
            Err(e) => Err(e),
        }
    }
}

impl<T: ConstraintValue + Default> Constrained<T> {
    /// A value that accepts everything, starting from the type's default.
    pub fn allow_any_from_default() -> (r: Self)
        ensures
            r.spec_validator() == Validator::<T>::Any,
            r.spec_normalizer() is None,
    {
        Self::allow_any(T::default())
    }
}

/// Applies a normalizer.
pub fn apply_normalizer<T: ConstraintValue>(n: &Option<Normalizer<T>>, v: T) -> (r: T)
    ensures
        r == normalize_spec(*n, v),
{
    match n {
        Some(Normalizer::ClampMin(b)) => if v.rank_le(b) && !b.rank_le(&v) {
            *b
        } else {
            v
        },
        None => v,
    }
}

} // verus!
