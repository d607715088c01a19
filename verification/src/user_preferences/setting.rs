//! A single user preference: its value, its default and the constraints that
//! new values must meet; and the messages that carry settings between
//! services.

use crate::float_bits::{f32_bits_ge, f32_bits_le, f32_ge, f32_le};
use crate::keyed::ViewClone;
use vstd::prelude::*;

verus! {

/// The value of a setting. `Float` holds the IEEE-754 binary32 bit pattern
/// of the number.
#[derive(Debug)]
pub enum SettingValue {
    Bool(bool),
    Int32(i32),
    Int64(i64),
    Float(u32),
    Enum(i32),
    Blob(Vec<u8>),
}

/// The value of a setting, with a blob by its bytes.
pub enum SettingValueView {
    Bool(bool),
    Int32(i32),
    Int64(i64),
    Float(u32),
    Enum(i32),
    Blob(Seq<u8>),
}

impl View for SettingValue {
    type V = SettingValueView;

    open spec fn view(&self) -> SettingValueView {
        match self {
            SettingValue::Bool(b) => SettingValueView::Bool(*b),
            SettingValue::Int32(x) => SettingValueView::Int32(*x),
            SettingValue::Int64(x) => SettingValueView::Int64(*x),
            SettingValue::Float(x) => SettingValueView::Float(*x),
            SettingValue::Enum(x) => SettingValueView::Enum(*x),
            SettingValue::Blob(b) => SettingValueView::Blob(b@),
        }
    }
}

/// Copies a byte vector.
pub fn copy_bytes(v: &Vec<u8>) -> (r: Vec<u8>)
    ensures
        r@ == v@,
{
    let mut r: Vec<u8> = Vec::new();
    let n = v.len();
    let mut i: usize = 0;
    while i < n
        invariant
            n == v@.len(),
            i <= n,
            r@ == v@.subrange(0, i as int),
        decreases n - i,
    {
        r.push(v[i]);
        i = i + 1;
        assert(r@ =~= v@.subrange(0, i as int));
    }
    assert(r@ =~= v@);
    r
}

/// Copies a vector of 32-bit integers.
pub fn copy_i32s(v: &Vec<i32>) -> (r: Vec<i32>)
    ensures
        r@ == v@,
{
    let mut r: Vec<i32> = Vec::new();
    let n = v.len();
    let mut i: usize = 0;
    while i < n
        invariant
            n == v@.len(),
            i <= n,
            r@ == v@.subrange(0, i as int),
        decreases n - i,
    {
        r.push(v[i]);
        i = i + 1;
        assert(r@ =~= v@.subrange(0, i as int));
    }
    assert(r@ =~= v@);
    r
}

impl ViewClone for SettingValue {
    fn view_clone(&self) -> (r: Self) {
        match self {
            SettingValue::Bool(b) => SettingValue::Bool(*b),
            SettingValue::Int32(x) => SettingValue::Int32(*x),
            SettingValue::Int64(x) => SettingValue::Int64(*x),
            SettingValue::Float(x) => SettingValue::Float(*x),
            SettingValue::Enum(x) => SettingValue::Enum(*x),
            SettingValue::Blob(b) => SettingValue::Blob(copy_bytes(b)),
        }
    }
}

impl Clone for SettingValue {
    fn clone(&self) -> (r: Self)
        ensures
            r@ == self@,
    {
        self.view_clone()
    }
}

/// Whether two values are of the same kind (the same variant).
pub open spec fn same_kind(a: SettingValueView, b: SettingValueView) -> bool {
    match (a, b) {
        (SettingValueView::Bool(_), SettingValueView::Bool(_)) => true,
        (SettingValueView::Int32(_), SettingValueView::Int32(_)) => true,
        (SettingValueView::Int64(_), SettingValueView::Int64(_)) => true,
        (SettingValueView::Float(_), SettingValueView::Float(_)) => true,
        (SettingValueView::Enum(_), SettingValueView::Enum(_)) => true,
        (SettingValueView::Blob(_), SettingValueView::Blob(_)) => true,
        _ => false,
    }
}

/// Whether two values are of the same kind.
pub fn same_kind_exec(a: &SettingValue, b: &SettingValue) -> (r: bool)
    ensures
        r == same_kind(a@, b@),
{
    match (a, b) {
        (SettingValue::Bool(_), SettingValue::Bool(_)) => true,
        (SettingValue::Int32(_), SettingValue::Int32(_)) => true,
        (SettingValue::Int64(_), SettingValue::Int64(_)) => true,
        (SettingValue::Float(_), SettingValue::Float(_)) => true,
        (SettingValue::Enum(_), SettingValue::Enum(_)) => true,
        (SettingValue::Blob(_), SettingValue::Blob(_)) => true,
        _ => false,
    }
}

/// Bounds on a float setting (binary32 bit patterns).
#[derive(Clone, Copy, Debug)]
pub struct FloatConstraints {
    pub min_value: Option<u32>,
    pub max_value: Option<u32>,
}

/// Bounds on a 32-bit integer setting.
#[derive(Clone, Copy, Debug)]
pub struct Int32Constraints {
    pub min_value: Option<i32>,
    pub max_value: Option<i32>,
}

/// Bounds on a 64-bit integer setting.
#[derive(Clone, Copy, Debug)]
pub struct Int64Constraints {
    pub min_value: Option<i64>,
    pub max_value: Option<i64>,
}

/// The values an enum setting may take.
#[derive(Debug)]
pub struct EnumConstraints {
    pub possible_values: Vec<i32>,
}

/// The constraints of a setting.
#[derive(Debug)]
pub enum Constraints {
    FloatConstraints(FloatConstraints),
    Int32Constraints(Int32Constraints),
    Int64Constraints(Int64Constraints),
    EnumConstraints(EnumConstraints),
}

/// The constraints of a setting, with the enum values as a sequence.
pub enum ConstraintsView {
    FloatConstraints(FloatConstraints),
    Int32Constraints(Int32Constraints),
    Int64Constraints(Int64Constraints),
    EnumConstraints(Seq<i32>),
}

impl View for Constraints {
    type V = ConstraintsView;

    open spec fn view(&self) -> ConstraintsView {
        match self {
            Constraints::FloatConstraints(x) => ConstraintsView::FloatConstraints(*x),
            Constraints::Int32Constraints(x) => ConstraintsView::Int32Constraints(*x),
            Constraints::Int64Constraints(x) => ConstraintsView::Int64Constraints(*x),
            Constraints::EnumConstraints(x) => ConstraintsView::EnumConstraints(
                x.possible_values@,
            ),
        }
    }
}

impl ViewClone for Constraints {
    fn view_clone(&self) -> (r: Self) {
        match self {
            Constraints::FloatConstraints(x) => Constraints::FloatConstraints(*x),
            Constraints::Int32Constraints(x) => Constraints::Int32Constraints(*x),
            Constraints::Int64Constraints(x) => Constraints::Int64Constraints(*x),
            Constraints::EnumConstraints(x) => Constraints::EnumConstraints(
                EnumConstraints { possible_values: copy_i32s(&x.possible_values) },
            ),
        }
    }
}

impl Clone for Constraints {
    fn clone(&self) -> (r: Self)
        ensures
            r@ == self@,
    {
        self.view_clone()
    }
}

/// The view of optional constraints.
pub open spec fn constraints_view(c: Option<Constraints>) -> Option<ConstraintsView> {
    match c {
        Some(x) => Some(x@),
        None => None,
    }
}

/// The view of an optional value.
pub open spec fn value_view(v: Option<SettingValue>) -> Option<SettingValueView> {
    match v {
        Some(x) => Some(x@),
        None => None,
    }
}

fn clone_constraints(c: &Option<Constraints>) -> (r: Option<Constraints>)
    ensures
        constraints_view(r) == constraints_view(*c),
{
    match c {
        Some(x) => Some(x.view_clone()),
        None => None,
    }
}

fn clone_value(v: &Option<SettingValue>) -> (r: Option<SettingValue>)
    ensures
        value_view(r) == value_view(*v),
{
    match v {
        Some(x) => Some(x.view_clone()),
        None => None,
    }
}

/// Whether `v` meets the constraints `c`: integer and float values must lie
/// within the bounds that are given (inclusive), enum values must be among
/// the possible values, and a value of another kind than the constraints
/// never meets them.
pub open spec fn meets_constraints(c: ConstraintsView, v: SettingValueView) -> bool {
    match (c, v) {
        (ConstraintsView::FloatConstraints(x), SettingValueView::Float(val)) => (match x.min_value {
            Some(min) => f32_ge(val, min),
            None => true,
        }) && (match x.max_value {
            Some(max) => f32_le(val, max),
            None => true,
        }),
        (ConstraintsView::Int32Constraints(x), SettingValueView::Int32(val)) => (match x.min_value {
            Some(min) => val >= min,
            None => true,
        }) && (match x.max_value {
            Some(max) => val <= max,
            None => true,
        }),
        (ConstraintsView::Int64Constraints(x), SettingValueView::Int64(val)) => (match x.min_value {
            Some(min) => val >= min,
            None => true,
        }) && (match x.max_value {
            Some(max) => val <= max,
            None => true,
        }),
        (ConstraintsView::EnumConstraints(values), SettingValueView::Enum(val)) => values.contains(
            val,
        ),
        _ => false,
    }
}

fn enum_values_contain(values: &Vec<i32>, val: i32) -> (r: bool)
    ensures
        r == values@.contains(val),
{
    let n = values.len();
    let mut i: usize = 0;
    while i < n
        invariant
            n == values@.len(),
            i <= n,
            forall|j: int| 0 <= j < i ==> values@[j] != val,
        decreases n - i,
    {
        if values[i] == val {
            assert(values@[i as int] == val);
            return true;
        }
        i = i + 1;
    }
    false
}

/// Whether `v` meets the constraints `c`.
pub fn meets_constraints_exec(c: &Constraints, v: &SettingValue) -> (r: bool)
    ensures
        r == meets_constraints(c@, v@),
{
    match (c, v) {
        (Constraints::FloatConstraints(x), SettingValue::Float(val)) => (match x.min_value {
            Some(min) => f32_bits_ge(*val, min),
            None => true,
        }) && (match x.max_value {
            Some(max) => f32_bits_le(*val, max),
            None => true,
        }),
        (Constraints::Int32Constraints(x), SettingValue::Int32(val)) => (match x.min_value {
            Some(min) => *val >= min,
            None => true,
        }) && (match x.max_value {
            Some(max) => *val <= max,
            None => true,
        }),
        (Constraints::Int64Constraints(x), SettingValue::Int64(val)) => (match x.min_value {
            Some(min) => *val >= min,
            None => true,
        }) && (match x.max_value {
            Some(max) => *val <= max,
            None => true,
        }),
        (Constraints::EnumConstraints(x), SettingValue::Enum(val)) => enum_values_contain(
            &x.possible_values,
            *val,
        ),
        _ => false,
    }
}

/// Whether a setting applies to each user separately or to the vehicle.
#[derive(Clone, Copy, PartialEq, Eq, Structural, Debug)]
pub enum SettingKind {
    PerUser,
    Global,
}

/// A registered setting: its current value, the value it is reset to and the
/// constraints that new values must meet.
#[derive(Debug)]
pub struct Setting {
    pub name: String,
    pub value: SettingValue,
    pub kind: SettingKind,
    pub default_value: SettingValue,
    pub constraints: Option<Constraints>,
}

/// A setting, by view.
pub struct SettingView {
    pub name: Seq<char>,
    pub value: SettingValueView,
    pub kind: SettingKind,
    pub default_value: SettingValueView,
    pub constraints: Option<ConstraintsView>,
}

impl View for Setting {
    type V = SettingView;

    open spec fn view(&self) -> SettingView {
        SettingView {
            name: self.name@,
            value: self.value@,
            kind: self.kind,
            default_value: self.default_value@,
            constraints: constraints_view(self.constraints),
        }
    }
}

impl ViewClone for Setting {
    fn view_clone(&self) -> (r: Self) {
        Setting {
            name: self.name.clone(),
            value: self.value.view_clone(),
            kind: self.kind,
            default_value: self.default_value.view_clone(),
            constraints: clone_constraints(&self.constraints),
        }
    }
}

impl Clone for Setting {
    fn clone(&self) -> (r: Self)
        ensures
            r@ == self@,
    {
        self.view_clone()
    }
}

/// Whether `v` is a valid new value for the setting `s`: it is of the kind of
/// the current value, and it meets the constraints if there are any.
pub open spec fn valid_value(s: SettingView, v: SettingValueView) -> bool {
    same_kind(v, s.value) && match s.constraints {
        Some(c) => meets_constraints(c, v),
        None => true,
    }
}

/// A setting with its value reset to the default.
pub open spec fn reset_view(s: SettingView) -> SettingView {
    SettingView { value: s.default_value, ..s }
}

/// A rejected value: what the setting held and its constraints, for the
/// message that reports the rejection.
#[derive(Debug)]
pub struct SettingRejected {
    pub value: SettingValue,
    pub constraints: Option<Constraints>,
}

impl Setting {
    /// Sets the value if it is valid; otherwise leaves the setting as it was
    /// and reports the current value and the constraints.
    pub fn set_value(&mut self, value: SettingValue) -> (r: Result<(), SettingRejected>)
        ensures
            r is Ok <==> valid_value(old(self)@, value@),
            r is Ok ==> final(self)@ == (SettingView { value: value@, ..old(self)@ }),
            match r {
                Ok(_) => true,
                Err(e) => final(self)@ == old(self)@ && e.value@ == old(self)@.value
                    && constraints_view(e.constraints) == old(self)@.constraints,
            },
    {
        if !self.is_valid_value(&value) {
            return Err(
                SettingRejected {
                    value: self.value.view_clone(),
                    constraints: clone_constraints(&self.constraints),
                },
            );
        }
        self.value = value;
        Ok(())
    }

    /// Resets the value to the default.
    pub fn reset(&mut self)
        ensures
            final(self)@ == reset_view(old(self)@),
    {
        self.value = self.default_value.view_clone();
    }

    /// Whether `value` is a valid new value for this setting.
    pub fn is_valid_value(&self, value: &SettingValue) -> (r: bool)
        ensures
            r == valid_value(self@, value@),
    {
        if !same_kind_exec(value, &self.value) {
            return false;
        }
        match &self.constraints {
            Some(c) => meets_constraints_exec(c, value),
            None => true,
        }
    }

    /// The setting as a message: its name and current value.
    pub fn to_proto(&self) -> (p: SettingProto)
        ensures
            p.key@ == self.name@,
            value_view(p.value) == Some(self.value@),
    {
        SettingProto { key: self.name.clone(), value: Some(self.value.view_clone()) }
    }

    /// The setting as a message with its constraints.
    pub fn to_setting_and_constraints(&self) -> (p: SettingAndConstraints)
        ensures
            p.setting matches Some(s) && s.key@ == self.name@ && value_view(s.value) == Some(
                self.value@,
            ),
            constraints_view(p.constraints) == constraints_view(self.constraints),
    {
        SettingAndConstraints {
            setting: Some(self.to_proto()),
            constraints: clone_constraints(&self.constraints),
        }
    }

    /// The setting that a definition registers: current and default value are
    /// the value of the definition.
    pub fn from_definition(def: &SettingDefinition) -> (s: Setting)
        requires
            def.is_complete(),
        ensures
            s@ == definition_setting(*def),
    {
        let sc = def.setting_and_constraints.as_ref().unwrap();
        let setting = sc.setting.as_ref().unwrap();
        let value = setting.value.as_ref().unwrap();
        Setting {
            name: setting.key.clone(),
            value: value.view_clone(),
            kind: def.kind,
            default_value: value.view_clone(),
            constraints: clone_constraints(&sc.constraints),
        }
    }
}

/// A setting as carried in messages.
#[derive(Debug)]
pub struct SettingProto {
    pub key: String,
    pub value: Option<SettingValue>,
}

impl ViewClone for SettingProto {
    fn view_clone(&self) -> (r: Self) {
        SettingProto { key: self.key.clone(), value: clone_value(&self.value) }
    }
}

impl Clone for SettingProto {
    fn clone(&self) -> (r: Self)
        ensures
            r@ == self@,
    {
        self.view_clone()
    }
}

/// A setting message, by view.
pub struct SettingProtoView {
    pub key: Seq<char>,
    pub value: Option<SettingValueView>,
}

impl View for SettingProto {
    type V = SettingProtoView;

    open spec fn view(&self) -> SettingProtoView {
        SettingProtoView { key: self.key@, value: value_view(self.value) }
    }
}

/// A setting message together with the constraints of the setting.
#[derive(Debug)]
pub struct SettingAndConstraints {
    pub setting: Option<SettingProto>,
    pub constraints: Option<Constraints>,
}

/// The definition by which a service registers one of its settings.
#[derive(Debug)]
pub struct SettingDefinition {
    pub kind: SettingKind,
    pub setting_and_constraints: Option<SettingAndConstraints>,
}

impl SettingDefinition {
    /// The definition carries a setting with a value.
    pub open spec fn is_complete(&self) -> bool {
        self.setting_and_constraints matches Some(sc) && sc.setting matches Some(s)
            && s.value is Some
    }
}

/// Whether the definition carries a setting with a value.
pub fn definition_is_complete(def: &SettingDefinition) -> (r: bool)
    ensures
        r == def.is_complete(),
{
    match &def.setting_and_constraints {
        Some(sc) => match &sc.setting {
            Some(s) => s.value.is_some(),
            None => false,
        },
        None => false,
    }
}

/// The setting that a complete definition registers.
pub open spec fn definition_setting(def: SettingDefinition) -> SettingView {
    let sc = def.setting_and_constraints.unwrap();
    let s = sc.setting.unwrap();
    SettingView {
        name: s.key@,
        value: s.value.unwrap()@,
        kind: def.kind,
        default_value: s.value.unwrap()@,
        constraints: constraints_view(sc.constraints),
    }
}

impl ViewClone for SettingDefinition {
    fn view_clone(&self) -> (r: Self) {
        SettingDefinition {
            kind: self.kind,
            setting_and_constraints: match &self.setting_and_constraints {
                Some(sc) => Some(
                    SettingAndConstraints {
                        setting: match &sc.setting {
                            Some(s) => Some(s.view_clone()),
                            None => None,
                        },
                        constraints: clone_constraints(&sc.constraints),
                    },
                ),
                None => None,
            },
        }
    }
}

/// A definition, by view.
pub struct SettingDefinitionView {
    pub kind: SettingKind,
    pub setting: Option<Option<SettingProtoView>>,
    pub constraints: Option<Option<ConstraintsView>>,
}

impl View for SettingDefinition {
    type V = SettingDefinitionView;

    open spec fn view(&self) -> SettingDefinitionView {
        SettingDefinitionView {
            kind: self.kind,
            setting: match self.setting_and_constraints {
                Some(sc) => Some(
                    match sc.setting {
                        Some(s) => Some(s@),
                        None => None,
                    },
                ),
                None => None,
            },
            constraints: match self.setting_and_constraints {
                Some(sc) => Some(constraints_view(sc.constraints)),
                None => None,
            },
        }
    }
}

} // verus!
