//! The attribute grammar of the derives: how the items of `#[composite(..)]`
//! (or `#[partial(..)]`) attributes become option values, and the errors that
//! malformed attributes produce.
//!
//! Each attribute level (the struct, or one field) has a schema: a list of keys,
//! each with the kind of value it takes. The items of all matching attributes are
//! read in order; the first occurrence of a key sets it, a later one is reported
//! as a duplicate, and every problem is collected rather than stopping the read.
use vstd::prelude::*;
use crate::syntax::{Attribute, Expr, Flavor, Lit, Meta, MetaList, NestedMeta, SynPath};
use crate::text::{join, join_texts, opt_text, same_text, texts};
use crate::outside::{parse_ident_text, syn_ident_text};

verus! {

/// What is wrong with an attribute.
pub enum Problem {
    /// A message of its own.
    Custom(String),
    /// A key given twice.
    DuplicateField(String),
    /// A key that the schema does not know, with the keys it does know.
    UnknownField(String, Vec<String>),
    /// An item of the wrong form (`word`, `list`, `literal`).
    UnexpectedFormat(String),
    /// A value of the wrong kind, by the kind's name.
    UnexpectedType(String),
    /// A string whose content is not an accepted value.
    UnknownValue(String),
}

/// A problem, with the path of keys that leads to it (outermost first).
pub struct AttrError {
    pub problem: Problem,
    pub locations: Vec<String>,
}

/// The meaning of a [`Problem`].
pub enum ProblemModel {
    Custom(Seq<char>),
    DuplicateField(Seq<char>),
    UnknownField(Seq<char>, Seq<Seq<char>>),
    UnexpectedFormat(Seq<char>),
    UnexpectedType(Seq<char>),
    UnknownValue(Seq<char>),
}

/// The meaning of an [`AttrError`].
pub struct ErrorModel {
    pub problem: ProblemModel,
    pub locations: Seq<Seq<char>>,
}

impl View for Problem {
    type V = ProblemModel;

    open spec fn view(&self) -> ProblemModel {
        match self {
            Problem::Custom(s) => ProblemModel::Custom(s@),
            Problem::DuplicateField(s) => ProblemModel::DuplicateField(s@),
            Problem::UnknownField(s, alts) => ProblemModel::UnknownField(s@, texts(alts@)),
            Problem::UnexpectedFormat(s) => ProblemModel::UnexpectedFormat(s@),
            Problem::UnexpectedType(s) => ProblemModel::UnexpectedType(s@),
            Problem::UnknownValue(s) => ProblemModel::UnknownValue(s@),
        }
    }
}

impl View for AttrError {
    type V = ErrorModel;

    open spec fn view(&self) -> ErrorModel {
        ErrorModel { problem: self.problem@, locations: texts(self.locations@) }
    }
}

/// The meanings of a list of errors.
pub open spec fn errors_model(v: Seq<AttrError>) -> Seq<ErrorModel> {
    v.map_values(|e: AttrError| e@)
}

/// The kind of value that a key takes.
#[derive(Clone, Copy, PartialEq, Eq, Structural)]
pub enum Kind {
    /// A flag: `key`, `key = true`, `key = "false"`.
    Flag,
    /// A string: `key = "..."`.
    Text,
    /// An identifier: `key = Name` or `key = "Name"`.
    Ident,
    /// A list of paths: `key(A, b::C)`.
    Paths,
}

/// A value read for a key.
pub enum OptValue {
    Flag(bool),
    Text(String),
    Paths(Vec<String>),
}

/// The meaning of an [`OptValue`].
pub enum ValueModel {
    Flag(bool),
    Text(Seq<char>),
    Paths(Seq<Seq<char>>),
}

impl View for OptValue {
    type V = ValueModel;

    open spec fn view(&self) -> ValueModel {
        match self {
            OptValue::Flag(b) => ValueModel::Flag(*b),
            OptValue::Text(s) => ValueModel::Text(s@),
            OptValue::Paths(v) => ValueModel::Paths(texts(v@)),
        }
    }
}

/// The state of a key while the items are read.
pub enum Slot {
    /// Not given yet.
    Unseen,
    /// Given, but its value was rejected.
    Failed,
    /// Given, with this value.
    Got(OptValue),
}

/// The meaning of a [`Slot`].
pub enum SlotModel {
    Unseen,
    Failed,
    Got(ValueModel),
}

impl View for Slot {
    type V = SlotModel;

    open spec fn view(&self) -> SlotModel {
        match self {
            Slot::Unseen => SlotModel::Unseen,
            Slot::Failed => SlotModel::Failed,
            Slot::Got(v) => SlotModel::Got(v@),
        }
    }
}

/// A key of a schema.
pub struct KeyDef {
    pub name: String,
    pub kind: Kind,
}

/// The meaning of a schema: its keys, each with its kind.
pub open spec fn schema_model(s: Seq<KeyDef>) -> Seq<(Seq<char>, Kind)> {
    s.map_values(|k: KeyDef| (k.name@, k.kind))
}

/// The keys of the struct-level attribute.
pub open spec fn struct_schema() -> Seq<(Seq<char>, Kind)> {
    seq![("name"@, Kind::Ident), ("derive"@, Kind::Paths), ("doc"@, Kind::Text)]
}

/// The keys of the field-level attribute.
pub open spec fn field_schema() -> Seq<(Seq<char>, Kind)> {
    seq![("skip"@, Kind::Flag), ("option"@, Kind::Flag), ("rename"@, Kind::Text), ("ty_override"@, Kind::Text)]
}

/// The names of a schema's keys.
pub open spec fn key_names(schema: Seq<(Seq<char>, Kind)>) -> Seq<Seq<char>> {
    schema.map_values(|k: (Seq<char>, Kind)| k.0)
}

/// The name of the attribute that a flavor reads.
pub open spec fn attr_name(f: Flavor) -> Seq<char> {
    match f {
        Flavor::Composite => "composite"@,
        Flavor::Partial => "partial"@,
    }
}

fn key(name: &str, kind: Kind) -> (r: KeyDef)
    ensures
        r.name@ == name@,
        r.kind == kind,
{
    KeyDef { name: String::from_str(name), kind }
}

/// The keys of the struct-level attribute.
pub fn struct_keys() -> (r: Vec<KeyDef>)
    ensures
        schema_model(r@) == struct_schema(),
{
    let mut r = Vec::new();
    r.push(key("name", Kind::Ident));
    r.push(key("derive", Kind::Paths));
    r.push(key("doc", Kind::Text));
    assert(schema_model(r@) =~= struct_schema());
    r
}

/// The keys of the field-level attribute.
pub fn field_keys() -> (r: Vec<KeyDef>)
    ensures
        schema_model(r@) == field_schema(),
{
    let mut r = Vec::new();
    r.push(key("skip", Kind::Flag));
    r.push(key("option", Kind::Flag));
    r.push(key("rename", Kind::Text));
    r.push(key("ty_override", Kind::Text));
    assert(schema_model(r@) =~= field_schema());
    r
}

/// The name of the attribute that a flavor reads.
pub fn flavor_attr_name(f: Flavor) -> (r: &'static str)
    ensures
        r@ == attr_name(f),
{
    match f {
        Flavor::Composite => "composite",
        Flavor::Partial => "partial",
    }
}

// ---------------------------------------------------------------------------
// Paths
// ---------------------------------------------------------------------------

/// The segments of a path joined by `::`: the name under which an item is looked up.
pub open spec fn path_string(p: SynPath) -> Seq<char> {
    join(texts(p.segments@), "::"@)
}

/// The path as written in the message for a `name = value` attribute.
pub open spec fn display_path(p: SynPath) -> Seq<char> {
    if p.leading_colon {
        "::"@ + path_string(p)
    } else {
        path_string(p)
    }
}

/// The identifier that a path consists of, if it is one plain identifier.
pub open spec fn path_ident(p: SynPath) -> Option<Seq<char>> {
    if !p.leading_colon && p.segments@.len() == 1 && !p.has_arguments {
        Some(p.segments@[0]@)
    } else {
        None
    }
}

/// The segments of a path joined by `::`.
pub fn path_to_string(p: &SynPath) -> (r: String)
    ensures
        r@ == path_string(*p),
{
    join_texts(&p.segments, "::")
}

/// The identifier that a path consists of, if it is one plain identifier.
pub fn get_ident(p: &SynPath) -> (r: Option<String>)
    ensures
        opt_text(r) == path_ident(*p),
{
    if !p.leading_colon && p.segments.len() == 1 && !p.has_arguments {
        Some(p.segments[0].clone())
    } else {
        None
    }
}

// ---------------------------------------------------------------------------
// Reading one value
// ---------------------------------------------------------------------------

/// The name of a literal's kind.
pub open spec fn lit_kind(l: Lit) -> Seq<char> {
    match l {
        Lit::Str(_, _) => "string"@,
        Lit::Bool(_) => "bool"@,
        Lit::Char(_) => "char"@,
        Lit::Other(k) => k@,
    }
}

/// The name of an expression's kind.
pub open spec fn expr_kind(e: Expr) -> Seq<char> {
    match e {
        Expr::Lit(_) => "lit"@,
        Expr::Path(_) => "path"@,
        Expr::Other(k) => k@,
    }
}

/// The problem with a `key(...)` item for a key that takes no list.
pub open spec fn list_problem(l: MetaList) -> ProblemModel {
    match l {
        MetaList::Unparsable(m) => ProblemModel::Custom(m@),
        MetaList::Items(_) => ProblemModel::UnexpectedFormat("list"@),
    }
}

/// The value of a literal given to a key of kind `k`.
pub open spec fn value_of_lit(k: Kind, l: Lit) -> Result<ValueModel, ProblemModel> {
    match k {
        Kind::Flag => match l {
            Lit::Bool(b) => Ok(ValueModel::Flag(b)),
            Lit::Str(s, _) => if s@ == "true"@ {
                Ok(ValueModel::Flag(true))
            } else if s@ == "false"@ {
                Ok(ValueModel::Flag(false))
            } else {
                Err(ProblemModel::UnknownValue(s@))
            },
            _ => Err(ProblemModel::UnexpectedType(lit_kind(l))),
        },
        Kind::Text => match l {
            Lit::Str(s, _) => Ok(ValueModel::Text(s@)),
            _ => Err(ProblemModel::UnexpectedType(lit_kind(l))),
        },
        Kind::Ident => match l {
            Lit::Str(s, suffix) => match syn_ident_text(s@) {
                Some(t) => if suffix@.len() == 0 {
                    Ok(ValueModel::Text(t))
                } else {
                    Err(ProblemModel::UnknownValue(s@))
                },
                None => Err(ProblemModel::UnknownValue(s@)),
            },
            _ => Err(ProblemModel::UnexpectedType(lit_kind(l))),
        },
        Kind::Paths => match l {
            Lit::Str(_, _) => Err(ProblemModel::UnexpectedType("string"@)),
            _ => Err(ProblemModel::UnexpectedType(lit_kind(l))),
        },
    }
}

/// The value of `key = e` for a key of kind `k`.
pub open spec fn value_of_expr(k: Kind, e: Expr) -> Result<ValueModel, ProblemModel> {
    match e {
        Expr::Lit(l) => value_of_lit(k, l),
        Expr::Path(p) => if k == Kind::Ident && path_ident(p) is Some {
            Ok(ValueModel::Text(path_ident(p)->0))
        } else {
            Err(ProblemModel::UnexpectedType("path"@))
        },
        Expr::Other(kind) => Err(ProblemModel::UnexpectedType(kind@)),
    }
}

/// The texts of the items of a `derive(...)` list, or the problem with the first item
/// that is not a plain path.
pub open spec fn paths_of_items(items: Seq<NestedMeta>) -> Result<Seq<Seq<char>>, ProblemModel>
    decreases items.len(),
{
    if items.len() == 0 {
        Ok(Seq::empty())
    } else {
        match paths_of_items(items.drop_last()) {
            Err(p) => Err(p),
            Ok(ps) => match items.last() {
                NestedMeta::Meta(Meta::Path(p), _) => Ok(ps.push(p.text@)),
                NestedMeta::Meta(_, t) => Err(ProblemModel::UnexpectedType(t@)),
                NestedMeta::Lit(_, t) => Err(ProblemModel::UnexpectedType(t@)),
            },
        }
    }
}

/// The value that the item `m` gives to a key of kind `k`, or its problem.
pub open spec fn value_of_meta(k: Kind, m: Meta) -> Result<ValueModel, ProblemModel> {
    match m {
        Meta::Path(_) => if k == Kind::Flag {
            Ok(ValueModel::Flag(true))
        } else {
            Err(ProblemModel::UnexpectedFormat("word"@))
        },
        Meta::List(_, l) => match (k, l) {
            (Kind::Paths, MetaList::Items(items)) => match paths_of_items(items@) {
                Ok(ps) => Ok(ValueModel::Paths(ps)),
                Err(p) => Err(p),
            },
            _ => Err(list_problem(l)),
        },
        Meta::NameValue(_, e) => value_of_expr(k, e),
    }
}

fn problem_text(p: &str) -> (r: String)
    ensures
        r@ == p@,
{
    String::from_str(p)
}

fn lit_kind_text(l: &Lit) -> (r: String)
    ensures
        r@ == lit_kind(*l),
{
    match l {
        Lit::Str(_, _) => String::from_str("string"),
        Lit::Bool(_) => String::from_str("bool"),
        Lit::Char(_) => String::from_str("char"),
        Lit::Other(k) => k.clone(),
    }
}

/// The value of a literal given to a key of kind `k`.
pub fn read_lit(k: Kind, l: &Lit) -> (r: Result<OptValue, Problem>)
    ensures
        r matches Ok(v) ==> value_of_lit(k, *l) == Ok::<ValueModel, ProblemModel>(v@),
        r matches Err(p) ==> value_of_lit(k, *l) == Err::<ValueModel, ProblemModel>(p@),
{
    match k {
        Kind::Flag => match l {
            Lit::Bool(b) => Ok(OptValue::Flag(*b)),
            Lit::Str(s, _) => if same_text(s.as_str(), "true") {
                Ok(OptValue::Flag(true))
            } else if same_text(s.as_str(), "false") {
                Ok(OptValue::Flag(false))
            } else {
                Err(Problem::UnknownValue(s.clone()))
            },
            _ => Err(Problem::UnexpectedType(lit_kind_text(l))),
        },
        Kind::Text => match l {
            Lit::Str(s, _) => Ok(OptValue::Text(s.clone())),
            _ => Err(Problem::UnexpectedType(lit_kind_text(l))),
        },
        Kind::Ident => match l {
            Lit::Str(s, suffix) => match parse_ident_text(s.as_str()) {
                Some(t) => if suffix.as_str().unicode_len() == 0 {
                    Ok(OptValue::Text(t))
                } else {
                    Err(Problem::UnknownValue(s.clone()))
                },
                None => Err(Problem::UnknownValue(s.clone())),
            },
            _ => Err(Problem::UnexpectedType(lit_kind_text(l))),
        },
        Kind::Paths => Err(Problem::UnexpectedType(lit_kind_text(l))),
    }
}

/// The value of `key = e` for a key of kind `k`.
pub fn read_expr(k: Kind, e: &Expr) -> (r: Result<OptValue, Problem>)
    ensures
        r matches Ok(v) ==> value_of_expr(k, *e) == Ok::<ValueModel, ProblemModel>(v@),
        r matches Err(p) ==> value_of_expr(k, *e) == Err::<ValueModel, ProblemModel>(p@),
{
    match e {
        Expr::Lit(l) => read_lit(k, l),
        Expr::Path(p) => {
            if k == Kind::Ident {
                if let Some(id) = get_ident(p) {
                    return Ok(OptValue::Text(id));
                }
            }
            Err(Problem::UnexpectedType(problem_text("path")))
        },
        Expr::Other(kind) => Err(Problem::UnexpectedType(kind.clone())),
    }
}

/// The texts of the items of a `derive(...)` list; the first item that is not a plain
/// path is rejected with its text.
pub fn read_paths(items: &Vec<NestedMeta>) -> (r: Result<Vec<String>, Problem>)
    ensures
        r matches Ok(v) ==> paths_of_items(items@) == Ok::<Seq<Seq<char>>, ProblemModel>(texts(v@)),
        r matches Err(p) ==> paths_of_items(items@) == Err::<Seq<Seq<char>>, ProblemModel>(p@),
{
    let mut out: Vec<String> = Vec::new();
    let mut i: usize = 0;
    assert(items@.take(0) =~= Seq::<NestedMeta>::empty());
    assert(texts(out@) =~= Seq::<Seq<char>>::empty());
    while i < items.len()
        invariant
            i <= items.len(),
            paths_of_items(items@.take(i as int)) == Ok::<Seq<Seq<char>>, ProblemModel>(texts(out@)),
        decreases items.len() - i,
    {
        let ghost prefix = items@.take(i as int + 1);
        assert(prefix.drop_last() =~= items@.take(i as int));
        assert(prefix.last() == items@[i as int]);
        match &items[i] {
            NestedMeta::Meta(Meta::Path(p), _) => {
                let ghost old_out = out@;
                out.push(p.text.clone());
                assert(texts(out@) =~= texts(old_out).push(p.text@));
            },
            NestedMeta::Meta(_, t) => {
                proof { lemma_paths_err_stays(items@, i as int + 1); }
                return Err(Problem::UnexpectedType(t.clone()));
            },
            NestedMeta::Lit(_, t) => {
                proof { lemma_paths_err_stays(items@, i as int + 1); }
                return Err(Problem::UnexpectedType(t.clone()));
            },
        }
        i = i + 1;
    }
    assert(items@.take(items.len() as int) =~= items@);
    Ok(out)
}

/// Once a prefix of the items is rejected, the whole list is rejected with the same problem.
proof fn lemma_paths_err_stays(items: Seq<NestedMeta>, n: int)
    requires
        0 <= n <= items.len(),
        paths_of_items(items.take(n)) is Err,
    ensures
        paths_of_items(items) == paths_of_items(items.take(n)),
    decreases items.len() - n,
{
    if n == items.len() {
        assert(items.take(n) =~= items);
    } else {
        let next = items.take(n + 1);
        assert(next.drop_last() =~= items.take(n));
        lemma_paths_err_stays(items, n + 1);
    }
}

/// The value that the item `m` gives to a key of kind `k`, or its problem.
pub fn read_meta(k: Kind, m: &Meta) -> (r: Result<OptValue, Problem>)
    ensures
        r matches Ok(v) ==> value_of_meta(k, *m) == Ok::<ValueModel, ProblemModel>(v@),
        r matches Err(p) ==> value_of_meta(k, *m) == Err::<ValueModel, ProblemModel>(p@),
{
    match m {
        Meta::Path(_) => if k == Kind::Flag {
            Ok(OptValue::Flag(true))
        } else {
            Err(Problem::UnexpectedFormat(problem_text("word")))
        },
        Meta::List(_, l) => match l {
            MetaList::Items(items) => if k == Kind::Paths {
                match read_paths(items) {
                    Ok(ps) => Ok(OptValue::Paths(ps)),
                    Err(p) => Err(p),
                }
            } else {
                Err(Problem::UnexpectedFormat(problem_text("list")))
            },
            MetaList::Unparsable(msg) => Err(Problem::Custom(msg.clone())),
        },
        Meta::NameValue(_, e) => read_expr(k, e),
    }
}


// ---------------------------------------------------------------------------
// Reading the items of the attributes
// ---------------------------------------------------------------------------

/// The state of a read: one slot per key of the schema, and the problems found so far.
pub struct Acc {
    pub slots: Vec<Slot>,
    pub errors: Vec<AttrError>,
}

/// The meaning of an [`Acc`].
pub struct AccModel {
    pub slots: Seq<SlotModel>,
    pub errors: Seq<ErrorModel>,
}

impl View for Acc {
    type V = AccModel;

    open spec fn view(&self) -> AccModel {
        AccModel {
            slots: self.slots@.map_values(|s: Slot| s@),
            errors: errors_model(self.errors@),
        }
    }
}

impl AccModel {
    /// The state with one more problem, at `locations`.
    pub open spec fn with_error(self, p: ProblemModel, locations: Seq<Seq<char>>) -> AccModel {
        AccModel {
            slots: self.slots,
            errors: self.errors.push(ErrorModel { problem: p, locations }),
        }
    }
}

/// The state before any item is read: every key unseen, no problem.
pub open spec fn initial_acc(n: nat) -> AccModel {
    AccModel { slots: Seq::new(n, |i: int| SlotModel::Unseen), errors: Seq::empty() }
}

/// The position of the first key of the schema named `name`, searching from `i`.
pub open spec fn find_key_from(schema: Seq<(Seq<char>, Kind)>, name: Seq<char>, i: int) -> Option<int>
    decreases schema.len() - i,
{
    if i < 0 || i >= schema.len() {
        None
    } else if schema[i].0 == name {
        Some(i)
    } else {
        find_key_from(schema, name, i + 1)
    }
}

/// The position of the key of the schema named `name`.
pub open spec fn find_key(schema: Seq<(Seq<char>, Kind)>, name: Seq<char>) -> Option<int> {
    find_key_from(schema, name, 0)
}

/// The state after reading one item of a matching attribute.
pub open spec fn item_step(schema: Seq<(Seq<char>, Kind)>, acc: AccModel, item: NestedMeta) -> AccModel {
    match item {
        NestedMeta::Lit(_, _) => acc.with_error(ProblemModel::UnexpectedFormat("literal"@), Seq::empty()),
        NestedMeta::Meta(m, _) => {
            let n = path_string(m.spec_path());
            match find_key(schema, n) {
                None => acc.with_error(ProblemModel::UnknownField(n, key_names(schema)), Seq::empty()),
                Some(k) => if acc.slots[k] is Unseen {
                    match value_of_meta(schema[k].1, m) {
                        Ok(v) => AccModel { slots: acc.slots.update(k, SlotModel::Got(v)), errors: acc.errors },
                        Err(p) => AccModel {
                            slots: acc.slots.update(k, SlotModel::Failed),
                            errors: acc.errors.push(ErrorModel { problem: p, locations: seq![schema[k].0] }),
                        },
                    }
                } else {
                    acc.with_error(ProblemModel::DuplicateField(schema[k].0), Seq::empty())
                },
            }
        },
    }
}

/// The state after reading the items in order.
pub open spec fn items_fold(schema: Seq<(Seq<char>, Kind)>, acc: AccModel, items: Seq<NestedMeta>) -> AccModel
    decreases items.len(),
{
    if items.len() == 0 {
        acc
    } else {
        item_step(schema, items_fold(schema, acc, items.drop_last()), items.last())
    }
}

/// The message for an attribute written `#[name = value]`.
pub open spec fn name_value_message(p: SynPath) -> Seq<char> {
    "Name-value arguments are not supported. Use #["@ + display_path(p) + "(...)]"@
}

/// The state after reading one attribute; only attributes whose path is `name` are read.
pub open spec fn attr_step(schema: Seq<(Seq<char>, Kind)>, name: Seq<char>, acc: AccModel, attr: Attribute) -> AccModel {
    if attr.meta.spec_path().text@ != name {
        acc
    } else {
        match attr.meta {
            Meta::NameValue(p, _) => acc.with_error(ProblemModel::Custom(name_value_message(p)), Seq::empty()),
            Meta::Path(_) => acc,
            Meta::List(_, MetaList::Unparsable(m)) => acc.with_error(ProblemModel::Custom(m@), Seq::empty()),
            Meta::List(_, MetaList::Items(items)) => items_fold(schema, acc, items@),
        }
    }
}

/// The state after reading the attributes in order.
pub open spec fn attrs_fold(schema: Seq<(Seq<char>, Kind)>, name: Seq<char>, acc: AccModel, attrs: Seq<Attribute>) -> AccModel
    decreases attrs.len(),
{
    if attrs.len() == 0 {
        acc
    } else {
        attr_step(schema, name, attrs_fold(schema, name, acc, attrs.drop_last()), attrs.last())
    }
}

/// What reading `attrs` against `schema` gives.
pub open spec fn read_model(schema: Seq<(Seq<char>, Kind)>, name: Seq<char>, attrs: Seq<Attribute>) -> AccModel {
    attrs_fold(schema, name, initial_acc(schema.len()), attrs)
}

/// A key that is found lies inside the schema.
pub proof fn lemma_find_key_bounds(schema: Seq<(Seq<char>, Kind)>, name: Seq<char>, i: int)
    ensures
        find_key_from(schema, name, i) matches Some(k) ==> i <= k < schema.len() && schema[k].0 == name,
    decreases schema.len() - i,
{
    if i < 0 || i >= schema.len() {
    } else if schema[i].0 == name {
    } else {
        lemma_find_key_bounds(schema, name, i + 1);
    }
}

fn new_error(p: Problem) -> (r: AttrError)
    ensures
        r@ == (ErrorModel { problem: p@, locations: Seq::empty() }),
{
    let r = AttrError { problem: p, locations: Vec::new() };
    assert(texts(r.locations@) =~= Seq::<Seq<char>>::empty());
    r
}

fn key_name_list(keys: &Vec<KeyDef>) -> (r: Vec<String>)
    ensures
        texts(r@) == key_names(schema_model(keys@)),
{
    let mut r: Vec<String> = Vec::new();
    let mut i: usize = 0;
    while i < keys.len()
        invariant
            i <= keys.len(),
            texts(r@) == key_names(schema_model(keys@.take(i as int))),
        decreases keys.len() - i,
    {
        let ghost old_r = r@;
        r.push(keys[i].name.clone());
        i = i + 1;
        assert(keys@.take(i as int) =~= keys@.take(i - 1).push(keys@[i - 1]));
        assert(texts(r@) =~= texts(old_r).push(keys@[i - 1].name@));
        assert(key_names(schema_model(keys@.take(i as int))) =~= key_names(schema_model(keys@.take(i - 1))).push(keys@[i - 1].name@));
    }
    assert(keys@.take(keys.len() as int) =~= keys@);
    r
}

fn find_key_index(keys: &Vec<KeyDef>, name: &String) -> (r: Option<usize>)
    ensures
        r matches Some(k) ==> find_key(schema_model(keys@), name@) == Some(k as int),
        r is None ==> find_key(schema_model(keys@), name@) is None,
{
    let ghost schema = schema_model(keys@);
    let mut i: usize = 0;
    while i < keys.len()
        invariant
            i <= keys.len(),
            schema == schema_model(keys@),
            find_key(schema, name@) == find_key_from(schema, name@, i as int),
        decreases keys.len() - i,
    {
        if keys[i].name.eq(name) {
            return Some(i);
        }
        i = i + 1;
    }
    None
}

fn push_error(acc: &mut Acc, p: Problem)
    ensures
        final(acc)@ == old(acc)@.with_error(p@, Seq::empty()),
        final(acc).slots == old(acc).slots,
{
    let ghost before = acc.errors@;
    let e = new_error(p);
    acc.errors.push(e);
    assert(errors_model(acc.errors@) =~= errors_model(before).push(e@));
}

fn set_slot(acc: &mut Acc, k: usize, s: Slot)
    requires
        k < old(acc).slots.len(),
    ensures
        final(acc)@ == (AccModel { slots: old(acc)@.slots.update(k as int, s@), errors: old(acc)@.errors }),
        final(acc).slots.len() == old(acc).slots.len(),
{
    let ghost before = acc.slots@;
    acc.slots.set(k, s);
    assert(acc.slots@.map_values(|x: Slot| x@) =~= before.map_values(|x: Slot| x@).update(k as int, s@));
}

/// Reads one item of a matching attribute.
pub fn read_item(keys: &Vec<KeyDef>, acc: &mut Acc, item: &NestedMeta)
    requires
        old(acc).slots.len() == keys.len(),
    ensures
        final(acc)@ == item_step(schema_model(keys@), old(acc)@, *item),
        final(acc).slots.len() == keys.len(),
{
    let ghost schema = schema_model(keys@);
    match item {
        NestedMeta::Lit(_, _) => {
            push_error(acc, Problem::UnexpectedFormat(problem_text("literal")));
        },
        NestedMeta::Meta(m, _) => {
            let n = path_to_string(m.path());
            match find_key_index(keys, &n) {
                None => {
                    let alts = key_name_list(keys);
                    push_error(acc, Problem::UnknownField(n, alts));
                },
                Some(k) => {
                    proof { lemma_find_key_bounds(schema, n@, 0); }
                    let unseen = match &acc.slots[k] {
                        Slot::Unseen => true,
                        _ => false,
                    };
                    if unseen {
                        match read_meta(keys[k].kind, m) {
                            Ok(v) => {
                                set_slot(acc, k, Slot::Got(v));
                            },
                            Err(p) => {
                                set_slot(acc, k, Slot::Failed);
                                let ghost before = acc.errors@;
                                let mut locations: Vec<String> = Vec::new();
                                locations.push(keys[k].name.clone());
                                let e = AttrError { problem: p, locations };
                                assert(texts(e.locations@) =~= seq![schema[k as int].0]);
                                acc.errors.push(e);
                                assert(errors_model(acc.errors@) =~= errors_model(before).push(e@));
                            },
                        }
                    } else {
                        push_error(acc, Problem::DuplicateField(keys[k].name.clone()));
                    }
                },
            }
        },
    }
}

/// Reads the items of a matching attribute in order.
pub fn read_items(keys: &Vec<KeyDef>, acc: &mut Acc, items: &Vec<NestedMeta>)
    requires
        old(acc).slots.len() == keys.len(),
    ensures
        final(acc)@ == items_fold(schema_model(keys@), old(acc)@, items@),
        final(acc).slots.len() == keys.len(),
{
    let ghost schema = schema_model(keys@);
    let ghost start = acc@;
    let mut i: usize = 0;
    assert(items@.take(0) =~= Seq::<NestedMeta>::empty());
    while i < items.len()
        invariant
            i <= items.len(),
            acc.slots.len() == keys.len(),
            schema == schema_model(keys@),
            acc@ == items_fold(schema, start, items@.take(i as int)),
        decreases items.len() - i,
    {
        read_item(keys, acc, &items[i]);
        i = i + 1;
        assert(items@.take(i as int).drop_last() =~= items@.take(i - 1));
    }
    assert(items@.take(items.len() as int) =~= items@);
}

fn name_value_text(p: &SynPath) -> (r: String)
    ensures
        r@ == name_value_message(*p),
{
    let mut r = String::from_str("Name-value arguments are not supported. Use #[");
    if p.leading_colon {
        r.append("::");
    }
    let s = path_to_string(p);
    r.append(s.as_str());
    r.append("(...)]");
    assert(r@ =~= name_value_message(*p));
    r
}

/// Reads one attribute; only attributes whose path is `name` are read.
pub fn read_attr(keys: &Vec<KeyDef>, name: &str, acc: &mut Acc, attr: &Attribute)
    requires
        old(acc).slots.len() == keys.len(),
    ensures
        final(acc)@ == attr_step(schema_model(keys@), name@, old(acc)@, *attr),
        final(acc).slots.len() == keys.len(),
{
    if !same_text(attr.meta.path().text.as_str(), name) {
        return;
    }
    match &attr.meta {
        Meta::NameValue(p, _) => {
            push_error(acc, Problem::Custom(name_value_text(p)));
        },
        Meta::Path(_) => {},
        Meta::List(_, MetaList::Unparsable(m)) => {
            push_error(acc, Problem::Custom(m.clone()));
        },
        Meta::List(_, MetaList::Items(items)) => {
            read_items(keys, acc, items);
        },
    }
}

/// Reads the attributes against the schema `keys`; only attributes whose path is `name`
/// are read.
pub fn read_attrs(keys: &Vec<KeyDef>, name: &str, attrs: &Vec<Attribute>) -> (r: Acc)
    ensures
        r@ == read_model(schema_model(keys@), name@, attrs@),
        r.slots.len() == keys.len(),
{
    let ghost schema = schema_model(keys@);
    let mut acc = Acc { slots: Vec::new(), errors: Vec::new() };
    let mut j: usize = 0;
    while j < keys.len()
        invariant
            j <= keys.len(),
            acc.errors@.len() == 0,
            acc.slots@.len() == j,
            forall|q: int| 0 <= q < j ==> acc.slots@[q] is Unseen,
        decreases keys.len() - j,
    {
        acc.slots.push(Slot::Unseen);
        j = j + 1;
    }
    assert(acc@.slots =~= initial_acc(schema.len()).slots);
    assert(acc@.errors =~= initial_acc(schema.len()).errors);
    let ghost start = acc@;
    let mut i: usize = 0;
    assert(attrs@.take(0) =~= Seq::<Attribute>::empty());
    while i < attrs.len()
        invariant
            i <= attrs.len(),
            acc.slots.len() == keys.len(),
            schema == schema_model(keys@),
            start == initial_acc(schema.len()),
            acc@ == attrs_fold(schema, name@, start, attrs@.take(i as int)),
        decreases attrs.len() - i,
    {
        read_attr(keys, name, &mut acc, &attrs[i]);
        i = i + 1;
        assert(attrs@.take(i as int).drop_last() =~= attrs@.take(i - 1));
    }
    assert(attrs@.take(attrs.len() as int) =~= attrs@);
    acc
}

} // verus!
