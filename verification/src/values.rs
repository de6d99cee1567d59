//! What the generated items do with field values.
//!
//! A value of a struct is a [`Record`]: its fields' names and values in declaration
//! order. A [`Plan`] holds, for each field of the input struct, everything the
//! generated items do with it; [`Plan::new_composite`], [`Plan::into_composite`] and
//! [`Plan::from_composite`] carry out what the generated constructor and conversions
//! do.
use vstd::prelude::*;
use crate::syntax::{DeriveInput, Flavor};
use crate::text::{texts, unraw, unraw_text};
use crate::parse::{enum_rejected, parse_input, parse_spec, Failure, FailureModel, FieldModel, FieldOpts, ParsedModel};
use crate::fields::{base_type, field_name, original_name};
use crate::generate::{check, first_failure, first_problem, lemma_no_failure, Check};

verus! {

/// A field value.
#[derive(Debug, PartialEq)]
pub enum Value {
    Unit,
    Bool(bool),
    Int(i128),
    /// A number with a fractional part, by its decimal text.
    Decimal(String),
    Str(String),
    /// The empty list.
    Nil,
    /// A list: its first element and the rest.
    Cons(Box<Value>, Box<Value>),
    /// An `Option`.
    Opt(Option<Box<Value>>),
    /// A value converted with `.into()` by a conversion that the standard library does
    /// not define.
    Converted(Box<Value>),
}

/// A value of a struct: its fields' names and values, in declaration order.
#[derive(Debug, PartialEq)]
pub struct Record {
    pub fields: Vec<(String, Value)>,
}

/// The list holding `items` in order.
pub open spec fn list_value(items: Seq<Value>) -> Value
    decreases items.len(),
{
    if items.len() == 0 {
        Value::Nil
    } else {
        Value::Cons(Box::new(items[0]), Box::new(list_value(items.drop_first())))
    }
}

impl Value {
    /// The list holding `items` in order.
    pub fn list(items: Vec<Value>) -> (r: Value)
        ensures
            r == list_value(items@),
    {
        let ghost all = items@;
        let mut rest = items;
        let mut r = Value::Nil;
        assert(all.skip(all.len() as int) =~= Seq::<Value>::empty());
        while rest.len() > 0
            invariant
                rest@ == all.take(rest@.len() as int),
                rest@.len() <= all.len(),
                r == list_value(all.skip(rest@.len() as int)),
            decreases rest@.len(),
        {
            let n = rest.len();
            let x = rest.pop().unwrap();
            proof {
                let s = all.skip(n - 1);
                assert(s.drop_first() =~= all.skip(n as int));
                assert(s[0] == x);
                assert(rest@ =~= all.take(n - 1));
            }
            r = Value::Cons(Box::new(x), Box::new(r));
        }
        assert(all.skip(0) =~= all);
        r
    }

    /// A copy of the value.
    pub fn duplicate(&self) -> (r: Value)
        ensures
            r == *self,
        decreases self,
    {
        match self {
            Value::Unit => Value::Unit,
            Value::Bool(b) => Value::Bool(*b),
            Value::Int(i) => Value::Int(*i),
            Value::Decimal(s) => Value::Decimal(s.clone()),
            Value::Str(s) => Value::Str(s.clone()),
            Value::Nil => Value::Nil,
            Value::Cons(h, t) => Value::Cons(Box::new((**h).duplicate()), Box::new((**t).duplicate())),
            Value::Opt(None) => Value::Opt(None),
            Value::Opt(Some(b)) => Value::Opt(Some(Box::new((**b).duplicate()))),
            Value::Converted(b) => Value::Converted(Box::new((**b).duplicate())),
        }
    }
}

/// What the generated items do with one field of the input struct.
pub struct FieldPlan {
    /// The field's name in the input struct.
    pub original: String,
    /// The field's name in the generated struct.
    pub name: String,
    /// The field's type in the input struct.
    pub ty: String,
    /// The field's type in the generated struct before `Option` wrapping.
    pub target: String,
    /// Left out of the generated struct.
    pub skip: bool,
    /// Wrapped in `Option` in the generated struct.
    pub option: bool,
    /// Converted with `.into()` on the way into the generated struct.
    pub converted: bool,
}

/// What the generated items do with the fields of the input struct.
pub struct Plan {
    pub original_name: String,
    pub composite_name: String,
    /// The name of the struct holding the fields that the generated struct cannot give back.
    pub missing_name: String,
    pub fields: Vec<FieldPlan>,
}

/// Whether the field's value must be supplied separately when the input struct is rebuilt.
pub open spec fn is_extra(f: FieldPlan) -> bool {
    f.skip || f.option || f.converted
}

/// The fields of the input struct.
pub open spec fn original_names(fps: Seq<FieldPlan>) -> Seq<Seq<char>> {
    fps.map_values(|f: FieldPlan| f.original@)
}

/// The fields of the generated struct.
pub open spec fn composite_names(fps: Seq<FieldPlan>) -> Seq<Seq<char>>
    decreases fps.len(),
{
    if fps.len() == 0 {
        Seq::empty()
    } else {
        composite_names(fps.drop_last()) + if fps.last().skip { Seq::empty() } else { seq![fps.last().name@] }
    }
}

/// The fields of the `Missing` struct.
pub open spec fn missing_names(fps: Seq<FieldPlan>) -> Seq<Seq<char>>
    decreases fps.len(),
{
    if fps.len() == 0 {
        Seq::empty()
    } else {
        missing_names(fps.drop_last()) + if is_extra(fps.last()) { seq![fps.last().original@] } else { Seq::empty() }
    }
}

/// Whether a record is a value of the struct whose fields are `names`.
pub open spec fn conforms(r: Seq<(String, Value)>, names: Seq<Seq<char>>) -> bool {
    r.len() == names.len() && forall|i: int| 0 <= i < r.len() ==> (#[trigger] r[i]).0@ == names[i]
}

/// `v.into()` from type `from` to type `to`, by the conversions that the standard
/// library defines (`T` into `T`, `T` into `Option<T>`).
pub open spec fn convert(v: Value, from: Seq<char>, to: Seq<char>) -> Value {
    if to == from {
        v
    } else if to == "Option < "@ + from + " >"@ {
        Value::Opt(Some(Box::new(v)))
    } else {
        Value::Converted(Box::new(v))
    }
}

/// The value that a field of the input struct has in the generated struct.
pub open spec fn carried(f: FieldPlan, v: Value) -> Value {
    let c = if f.converted { convert(v, f.ty@, f.target@) } else { v };
    if f.option { Value::Opt(Some(Box::new(c))) } else { c }
}

/// The fields of the generated struct made from the fields `vals` of the input struct.
pub open spec fn into_fields(fps: Seq<FieldPlan>, vals: Seq<(String, Value)>) -> Seq<(String, Value)>
    decreases fps.len(),
{
    if fps.len() == 0 || vals.len() == 0 {
        Seq::empty()
    } else {
        into_fields(fps.drop_last(), vals.drop_last()) + if fps.last().skip {
            Seq::empty()
        } else {
            seq![(fps.last().name, carried(fps.last(), vals.last().1))]
        }
    }
}

/// The fields of the `Missing` struct taken from the fields `vals` of the input struct.
pub open spec fn missing_fields(fps: Seq<FieldPlan>, vals: Seq<(String, Value)>) -> Seq<(String, Value)>
    decreases fps.len(),
{
    if fps.len() == 0 || vals.len() == 0 {
        Seq::empty()
    } else {
        missing_fields(fps.drop_last(), vals.drop_last()) + if is_extra(fps.last()) {
            seq![vals.last()]
        } else {
            Seq::empty()
        }
    }
}

/// The fields of the generated struct made by the constructor from its arguments.
pub open spec fn new_fields(fps: Seq<FieldPlan>, args: Seq<Value>) -> Seq<(String, Value)>
    decreases fps.len(),
{
    if fps.len() == 0 {
        Seq::empty()
    } else if fps.last().skip {
        new_fields(fps.drop_last(), args)
    } else {
        new_fields(fps.drop_last(), args.drop_last()).push((fps.last().name, args.last()))
    }
}

/// The fields of the input struct rebuilt from the generated struct's fields `cs`
/// and the `Missing` struct's fields `ms`.
pub open spec fn from_fields(fps: Seq<FieldPlan>, cs: Seq<(String, Value)>, ms: Seq<(String, Value)>) -> Seq<(String, Value)>
    decreases fps.len(),
{
    if fps.len() == 0 {
        Seq::empty()
    } else {
        let f = fps.last();
        let cs2 = if f.skip { cs } else { cs.drop_last() };
        let ms2 = if is_extra(f) { ms.drop_last() } else { ms };
        let v = if is_extra(f) { ms.last().1 } else { cs.last().1 };
        from_fields(fps.drop_last(), cs2, ms2).push((f.original, v))
    }
}

/// The plan for one field.
pub open spec fn field_plan_of(f: FieldModel, fp: FieldPlan) -> bool {
    &&& fp.original@ == original_name(f)
    &&& !f.skip ==> fp.name@ == field_name(f)
    &&& fp.ty@ == f.ty
    &&& !f.skip ==> fp.target@ == base_type(f)
    &&& f.skip ==> fp.name@ == Seq::<char>::empty() && fp.target@ == Seq::<char>::empty()
    &&& fp.skip == f.skip
    &&& fp.option == f.option
    &&& fp.converted == (f.ty_override is Some)
}

/// Whether `plan` is the plan for the parsed input `p`.
pub open spec fn plan_of(p: ParsedModel, plan: Plan) -> bool {
    &&& plan.original_name@ == p.original_name
    &&& plan.composite_name@ == p.composite_name
    &&& plan.missing_name@ == unraw(p.composite_name) + "Missing"@
    &&& plan.fields@.len() == p.fields.len()
    &&& forall|i: int| 0 <= i < p.fields.len() ==> field_plan_of(p.fields[i], #[trigger] plan.fields@[i])
}

/// What planning the input of the derives gives.
pub open spec fn plan_result(input: DeriveInput, fl: Flavor, r: Result<Plan, Failure>) -> bool {
    match parse_spec(input, fl) {
        Err(e) => r matches Err(x) && x@ == e,
        Ok(p) => match first_failure(Check::Plan, p.fields) {
            Some(e) => r matches Err(x) && x@ == e,
            None => r matches Ok(plan) && plan_of(p, plan),
        },
    }
}

fn field_plan(f: &FieldOpts) -> (r: FieldPlan)
    requires
        check(Check::Plan, f@) is None,
    ensures
        field_plan_of(f@, r),
{
    let original = f.original_name();
    let (name, target) = if f.skip {
        (String::new(), String::new())
    } else {
        let name = f.composite_name();
        let target = match &f.ty_override {
            Some(t) => match crate::outside::parse_type_text(t.as_str()) {
                Some(x) => x,
                None => String::new(),
            },
            None => f.ty.clone(),
        };
        (name, target)
    };
    FieldPlan {
        original,
        name,
        ty: f.ty.clone(),
        target,
        skip: f.skip,
        option: f.option,
        converted: f.ty_override.is_some(),
    }
}

/// The plan for the input of the derives: what the generated items do with each field.
/// There is none when the input is rejected, or when some field lacks what one of the
/// derives needs (a name, a valid `rename`, a valid `ty_override`).
pub fn plan_for(input: &DeriveInput, fl: Flavor) -> (r: Result<Plan, Failure>)
    requires
        !enum_rejected(*input, fl),
    ensures
        plan_result(*input, fl, r),
{
    let p = match parse_input(input, fl) {
        Ok(p) => p,
        Err(e) => return Err(e),
    };
    if let Some(x) = first_problem(Check::Plan, &p.fields) {
        return Err(x);
    }
    proof { lemma_no_failure(Check::Plan, p@.fields); }
    let mut fields: Vec<FieldPlan> = Vec::new();
    let mut i: usize = 0;
    while i < p.fields.len()
        invariant
            i <= p.fields.len(),
            fields@.len() == i,
            forall|k: int| 0 <= k < p.fields@.len() ==> check(Check::Plan, #[trigger] p@.fields[k]) is None,
            forall|k: int| 0 <= k < i ==> field_plan_of(p@.fields[k], #[trigger] fields@[k]),
        decreases p.fields.len() - i,
    {
        assert(p@.fields[i as int] == p.fields@[i as int]@);
        let fp = field_plan(&p.fields[i]);
        fields.push(fp);
        i = i + 1;
    }
    let mut missing_name = unraw_text(&p.composite_name);
    missing_name.append("Missing");
    Ok(Plan {
        original_name: p.original_name.clone(),
        composite_name: p.composite_name.clone(),
        missing_name,
        fields,
    })
}

// ---------------------------------------------------------------------------
// Records
// ---------------------------------------------------------------------------

/// The position of the first field named `name`, searching from `i`.
pub open spec fn find_field_from(r: Seq<(String, Value)>, name: Seq<char>, i: int) -> Option<int>
    decreases r.len() - i,
{
    if i < 0 || i >= r.len() {
        None
    } else if r[i].0@ == name {
        Some(i)
    } else {
        find_field_from(r, name, i + 1)
    }
}

impl Record {
    /// The value of the field named `name`.
    pub fn get(&self, name: &str) -> (r: Option<&Value>)
        ensures
            r matches Some(v) ==> find_field_from(self.fields@, name@, 0) matches Some(k) && *v == self.fields@[k].1,
            r is None ==> find_field_from(self.fields@, name@, 0) is None,
    {
        let mut i: usize = 0;
        while i < self.fields.len()
            invariant
                i <= self.fields.len(),
                find_field_from(self.fields@, name@, 0) == find_field_from(self.fields@, name@, i as int),
            decreases self.fields.len() - i,
        {
            if crate::text::same_text(self.fields[i].0.as_str(), name) {
                return Some(&self.fields[i].1);
            }
            i = i + 1;
        }
        None
    }

    /// Whether the record is a value of the struct whose fields are `names`: its fields
    /// are exactly those, in that order.
    pub fn conforms(&self, names: &Vec<String>) -> (r: bool)
        ensures
            r == conforms(self.fields@, texts(names@)),
    {
        if self.fields.len() != names.len() {
            return false;
        }
        let mut i: usize = 0;
        while i < names.len()
            invariant
                i <= names.len(),
                self.fields@.len() == names@.len(),
                forall|k: int| 0 <= k < i ==> (#[trigger] self.fields@[k]).0@ == texts(names@)[k],
            decreases names.len() - i,
        {
            if !self.fields[i].0.eq(&names[i]) {
                return false;
            }
            i = i + 1;
        }
        true
    }
}


impl Plan {
    /// The fields of the input struct, in order.
    pub fn original_layout(&self) -> (r: Vec<String>)
        ensures
            texts(r@) == original_names(self.fields@),
    {
        let mut r: Vec<String> = Vec::new();
        let mut i: usize = 0;
        while i < self.fields.len()
            invariant
                i <= self.fields.len(),
                texts(r@) == original_names(self.fields@.take(i as int)),
            decreases self.fields.len() - i,
        {
            let ghost before = r@;
            r.push(self.fields[i].original.clone());
            i = i + 1;
            assert(texts(r@) =~= texts(before).push(self.fields@[i - 1].original@));
            assert(original_names(self.fields@.take(i as int)) =~= original_names(self.fields@.take(i - 1)).push(self.fields@[i - 1].original@));
        }
        assert(self.fields@.take(self.fields.len() as int) =~= self.fields@);
        r
    }

    /// The fields of the generated struct, in order.
    pub fn composite_layout(&self) -> (r: Vec<String>)
        ensures
            texts(r@) == composite_names(self.fields@),
    {
        let mut r: Vec<String> = Vec::new();
        let mut i: usize = 0;
        assert(self.fields@.take(0) =~= Seq::<FieldPlan>::empty());
        assert(texts(r@) =~= Seq::<Seq<char>>::empty());
        while i < self.fields.len()
            invariant
                i <= self.fields.len(),
                texts(r@) == composite_names(self.fields@.take(i as int)),
            decreases self.fields.len() - i,
        {
            let ghost before = r@;
            if !self.fields[i].skip {
                r.push(self.fields[i].name.clone());
                assert(texts(r@) =~= texts(before).push(self.fields@[i as int].name@));
            }
            i = i + 1;
            assert(self.fields@.take(i as int).drop_last() =~= self.fields@.take(i - 1));
        }
        assert(self.fields@.take(self.fields.len() as int) =~= self.fields@);
        r
    }

    /// The fields of the `Missing` struct, in order.
    pub fn missing_layout(&self) -> (r: Vec<String>)
        ensures
            texts(r@) == missing_names(self.fields@),
    {
        let mut r: Vec<String> = Vec::new();
        let mut i: usize = 0;
        assert(self.fields@.take(0) =~= Seq::<FieldPlan>::empty());
        assert(texts(r@) =~= Seq::<Seq<char>>::empty());
        while i < self.fields.len()
            invariant
                i <= self.fields.len(),
                texts(r@) == missing_names(self.fields@.take(i as int)),
            decreases self.fields.len() - i,
        {
            let ghost before = r@;
            let f = &self.fields[i];
            if f.skip || f.option || f.converted {
                r.push(f.original.clone());
                assert(texts(r@) =~= texts(before).push(self.fields@[i as int].original@));
            }
            i = i + 1;
            assert(self.fields@.take(i as int).drop_last() =~= self.fields@.take(i - 1));
        }
        assert(self.fields@.take(self.fields.len() as int) =~= self.fields@);
        r
    }

    /// What the generated constructor returns for the arguments `args` (one per field of
    /// the generated struct, in order).
    pub fn new_composite(&self, args: &Vec<Value>) -> (r: Record)
        requires
            args@.len() == composite_names(self.fields@).len(),
        ensures
            r.fields@ == new_fields(self.fields@, args@),
    {
        let ghost fps = self.fields@;
        let mut out: Vec<(String, Value)> = Vec::new();
        let mut i: usize = 0;
        let mut j: usize = 0;
        let alen = args.len();
        assert(fps.take(0) =~= Seq::<FieldPlan>::empty());
        assert(args@.take(0) =~= Seq::<Value>::empty());
        while i < self.fields.len()
            invariant
                i <= self.fields.len(),
                alen == args@.len(),
                fps == self.fields@,
                args@.len() == composite_names(fps).len(),
                j == composite_names(fps.take(i as int)).len(),
                j <= args@.len(),
                out@ == new_fields(fps.take(i as int), args@.take(j as int)),
            decreases self.fields.len() - i,
        {
            proof { lemma_composite_names_prefix(fps, i as int + 1); }
            let f = &self.fields[i];
            assert(fps.take(i as int + 1).drop_last() =~= fps.take(i as int));
            if !f.skip {
                let v = args[j].duplicate();
                out.push((f.name.clone(), v));
                j = j + 1;
                assert(args@.take(j as int).drop_last() =~= args@.take(j - 1));
            }
            i = i + 1;
        }
        assert(fps.take(fps.len() as int) =~= fps);
        assert(args@.take(j as int) =~= args@);
        Record { fields: out }
    }

    /// What the generated conversion into the generated struct returns for `original`.
    pub fn into_composite(&self, original: &Record) -> (r: Record)
        requires
            conforms(original.fields@, original_names(self.fields@)),
        ensures
            r.fields@ == into_fields(self.fields@, original.fields@),
    {
        let ghost fps = self.fields@;
        let ghost vals = original.fields@;
        let mut out: Vec<(String, Value)> = Vec::new();
        let mut i: usize = 0;
        assert(fps.take(0) =~= Seq::<FieldPlan>::empty());
        while i < self.fields.len()
            invariant
                i <= self.fields.len(),
                fps == self.fields@,
                vals == original.fields@,
                vals.len() == fps.len(),
                out@ == into_fields(fps.take(i as int), vals.take(i as int)),
            decreases self.fields.len() - i,
        {
            let f = &self.fields[i];
            assert(fps.take(i as int + 1).drop_last() =~= fps.take(i as int));
            assert(vals.take(i as int + 1).drop_last() =~= vals.take(i as int));
            if !f.skip {
                let v = original.fields[i].1.duplicate();
                let c = if f.converted { convert_value(v, &f.ty, &f.target) } else { v };
                let c = if f.option { Value::Opt(Some(Box::new(c))) } else { c };
                out.push((f.name.clone(), c));
            }
            i = i + 1;
        }
        assert(fps.take(fps.len() as int) =~= fps);
        assert(vals.take(vals.len() as int) =~= vals);
        Record { fields: out }
    }

    /// What the generated conversion from the generated struct returns for `composite`
    /// and the separately supplied fields `missing`.
    pub fn from_composite(&self, composite: &Record, missing: &Record) -> (r: Record)
        requires
            conforms(composite.fields@, composite_names(self.fields@)),
            conforms(missing.fields@, missing_names(self.fields@)),
        ensures
            r.fields@ == from_fields(self.fields@, composite.fields@, missing.fields@),
    {
        let ghost fps = self.fields@;
        let ghost cs = composite.fields@;
        let ghost ms = missing.fields@;
        let mut out: Vec<(String, Value)> = Vec::new();
        let mut i: usize = 0;
        let mut ci: usize = 0;
        let mut mi: usize = 0;
        let clen = composite.fields.len();
        let mlen = missing.fields.len();
        assert(fps.take(0) =~= Seq::<FieldPlan>::empty());
        while i < self.fields.len()
            invariant
                i <= self.fields.len(),
                clen == cs.len(),
                mlen == ms.len(),
                fps == self.fields@,
                cs == composite.fields@,
                ms == missing.fields@,
                cs.len() == composite_names(fps).len(),
                ms.len() == missing_names(fps).len(),
                ci == composite_names(fps.take(i as int)).len(),
                mi == missing_names(fps.take(i as int)).len(),
                ci <= cs.len(),
                mi <= ms.len(),
                out@ == from_fields(fps.take(i as int), cs.take(ci as int), ms.take(mi as int)),
            decreases self.fields.len() - i,
        {
            proof {
                lemma_composite_names_prefix(fps, i as int + 1);
                lemma_missing_names_prefix(fps, i as int + 1);
            }
            let f = &self.fields[i];
            assert(fps.take(i as int + 1).drop_last() =~= fps.take(i as int));
            let ghost ci0 = ci;
            let ghost mi0 = mi;
            let extra = f.skip || f.option || f.converted;
            if !f.skip {
                ci = ci + 1;
            }
            if extra {
                mi = mi + 1;
            }
            let v = if extra { missing.fields[mi - 1].1.duplicate() } else { composite.fields[ci - 1].1.duplicate() };
            out.push((f.original.clone(), v));
            proof {
                if !f.skip {
                    assert(cs.take(ci as int).drop_last() =~= cs.take(ci0 as int));
                }
                if extra {
                    assert(ms.take(mi as int).drop_last() =~= ms.take(mi0 as int));
                }
            }
            i = i + 1;
        }
        assert(fps.take(fps.len() as int) =~= fps);
        assert(cs.take(ci as int) =~= cs);
        assert(ms.take(mi as int) =~= ms);
        Record { fields: out }
    }
}

/// `v.into()` from type `from` to type `to` (see [`convert`]).
fn convert_value(v: Value, from: &String, to: &String) -> (r: Value)
    ensures
        r == convert(v, from@, to@),
{
    if to.eq(from) {
        v
    } else {
        let mut wrapped = String::from_str("Option < ");
        wrapped.append(from.as_str());
        wrapped.append(" >");
        if to.eq(&wrapped) {
            Value::Opt(Some(Box::new(v)))
        } else {
            Value::Converted(Box::new(v))
        }
    }
}

/// The generated struct's fields only grow along the input struct's fields.
pub proof fn lemma_composite_names_prefix(fps: Seq<FieldPlan>, n: int)
    requires
        0 <= n <= fps.len(),
    ensures
        composite_names(fps.take(n)).len() <= composite_names(fps).len(),
        n > 0 ==> composite_names(fps.take(n)).len() == composite_names(fps.take(n - 1)).len()
            + if fps[n - 1].skip { 0int } else { 1int },
    decreases fps.len() - n,
{
    if n > 0 {
        assert(fps.take(n).drop_last() =~= fps.take(n - 1));
    }
    if n < fps.len() {
        lemma_composite_names_prefix(fps, n + 1);
        assert(fps.take(n + 1).drop_last() =~= fps.take(n));
    } else {
        assert(fps.take(n) =~= fps);
    }
}

/// The `Missing` struct's fields only grow along the input struct's fields.
pub proof fn lemma_missing_names_prefix(fps: Seq<FieldPlan>, n: int)
    requires
        0 <= n <= fps.len(),
    ensures
        missing_names(fps.take(n)).len() <= missing_names(fps).len(),
        n > 0 ==> missing_names(fps.take(n)).len() == missing_names(fps.take(n - 1)).len()
            + if is_extra(fps[n - 1]) { 1int } else { 0int },
    decreases fps.len() - n,
{
    if n > 0 {
        assert(fps.take(n).drop_last() =~= fps.take(n - 1));
    }
    if n < fps.len() {
        lemma_missing_names_prefix(fps, n + 1);
        assert(fps.take(n + 1).drop_last() =~= fps.take(n));
    } else {
        assert(fps.take(n) =~= fps);
    }
}

} // verus!
