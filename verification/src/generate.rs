//! The items that the derives emit, rendered as Rust source text.
//!
//! - `Composite`: the generated struct, with the fields that are not skipped, renamed
//!   and retyped as their options say, and their `doc`/`serde`/`cfg` attributes.
//! - `NewComposite`: a constructor on the input struct that takes the generated
//!   struct's fields in order.
//! - `FromComposite`: a struct `<Name>Missing` holding the fields that the generated
//!   struct cannot give back, and the conversion from the generated struct plus those.
//! - `IntoComposite`: the conversion from the input struct into the generated one.
use vstd::prelude::*;
use crate::syntax::{DeriveInput, Flavor};
use crate::text::unraw;
use crate::text::unraw_text;
use crate::options::attr_name;
use crate::parse::{enum_rejected, parse_input, parse_spec, Failure, FailureModel, FieldModel, FieldOpts, ForwardedAttr, ParsedInput, ParsedModel};
use crate::fields::{
    attrs_text, field_name, field_type, into_assignment, name_failure, needs_extra, original_failure,
    original_name, type_failure,
};

verus! {

// ---------------------------------------------------------------------------
// Per-field pieces
// ---------------------------------------------------------------------------

/// The kinds of text that a field contributes to the generated items.
#[derive(Clone, Copy, PartialEq, Eq, Structural)]
pub enum Piece {
    /// Its declaration in the generated struct.
    StructField,
    /// Its parameter of the constructor.
    Param,
    /// Its initializer in the constructor.
    Init,
    /// Its declaration in the `Missing` struct.
    MissingField,
    /// Its initializer when the input struct is rebuilt.
    FromInit,
    /// Its initializer in the conversion into the generated struct.
    IntoInit,
}

/// The text that a field contributes; `ctx` is the derive's attribute name for
/// [`Piece::StructField`] and the name of the generated value for [`Piece::FromInit`].
pub open spec fn piece(kind: Piece, f: FieldModel, ctx: Seq<char>) -> Seq<char> {
    match kind {
        Piece::StructField => if f.skip {
            Seq::empty()
        } else {
            attrs_text(f.attrs, ctx) + f.vis + " "@ + field_name(f) + ": "@ + field_type(f) + ", "@
        },
        Piece::Param => if f.skip { Seq::empty() } else { field_name(f) + ": "@ + field_type(f) + ", "@ },
        Piece::Init => if f.skip { Seq::empty() } else { field_name(f) + ", "@ },
        Piece::MissingField => if needs_extra(f) {
            original_name(f) + ": "@ + f.ty + ", "@
        } else {
            Seq::empty()
        },
        Piece::FromInit => original_name(f) + ": "@ + (if needs_extra(f) {
            "missing."@ + original_name(f)
        } else {
            ctx + "."@ + field_name(f)
        }) + ", "@,
        Piece::IntoInit => if f.skip { Seq::empty() } else { into_assignment(f) + ", "@ },
    }
}

/// Whether a field's piece can be formed.
pub open spec fn piece_ok(kind: Piece, f: FieldModel) -> bool {
    match kind {
        Piece::StructField | Piece::Param => !f.skip ==> name_failure(f) is None && type_failure(f) is None,
        Piece::Init => !f.skip ==> name_failure(f) is None,
        Piece::MissingField => needs_extra(f) ==> original_failure(f) is None,
        Piece::FromInit => original_failure(f) is None && (!needs_extra(f) ==> name_failure(f) is None),
        Piece::IntoInit => !f.skip ==> original_failure(f) is None && name_failure(f) is None,
    }
}

/// The pieces of the fields, in order.
pub open spec fn pieces(kind: Piece, fs: Seq<FieldModel>, ctx: Seq<char>) -> Seq<char>
    decreases fs.len(),
{
    if fs.len() == 0 {
        Seq::empty()
    } else {
        pieces(kind, fs.drop_last(), ctx) + piece(kind, fs.last(), ctx)
    }
}

fn attrs_text_of(attrs: &Vec<ForwardedAttr>, name: &str) -> (r: String)
    ensures
        r@ == attrs_text(attrs@.map_values(|a: ForwardedAttr| a@), name@),
{
    let ghost m = attrs@.map_values(|a: ForwardedAttr| a@);
    let mut r = String::new();
    let mut i: usize = 0;
    assert(m.take(0) =~= Seq::<crate::parse::ForwardedModel>::empty());
    while i < attrs.len()
        invariant
            i <= attrs.len(),
            m == attrs@.map_values(|a: ForwardedAttr| a@),
            r@ == attrs_text(m.take(i as int), name@),
        decreases attrs.len() - i,
    {
        let a = &attrs[i];
        let named = match &a.ident {
            Some(id) => crate::text::same_text(id.as_str(), name),
            None => false,
        };
        if !named {
            r.append(a.text.as_str());
            r.append(" ");
        }
        i = i + 1;
        assert(m.take(i as int).drop_last() =~= m.take(i - 1));
    }
    assert(m.take(attrs.len() as int) =~= m);
    r
}

/// The text that a field contributes (see [`piece`]).
pub fn piece_text(kind: Piece, f: &FieldOpts, ctx: &str) -> (r: String)
    requires
        piece_ok(kind, f@),
    ensures
        r@ == piece(kind, f@, ctx@),
{
    match kind {
        Piece::StructField => {
            if f.skip {
                return String::new();
            }
            let mut r = attrs_text_of(&f.attrs, ctx);
            r.append(f.vis.as_str());
            r.append(" ");
            let n = f.composite_name();
            r.append(n.as_str());
            r.append(": ");
            let t = f.composite_type();
            r.append(t.as_str());
            r.append(", ");
            r
        },
        Piece::Param => {
            if f.skip {
                return String::new();
            }
            let mut r = f.composite_name();
            r.append(": ");
            let t = f.composite_type();
            r.append(t.as_str());
            r.append(", ");
            r
        },
        Piece::Init => {
            if f.skip {
                return String::new();
            }
            let mut r = f.composite_name();
            r.append(", ");
            r
        },
        Piece::MissingField => {
            if !f.needs_extra_args() {
                return String::new();
            }
            let mut r = f.original_name();
            r.append(": ");
            r.append(f.ty.as_str());
            r.append(", ");
            r
        },
        Piece::FromInit => {
            let o = f.original_name();
            let mut r = o.clone();
            r.append(": ");
            if f.needs_extra_args() {
                r.append("missing.");
                r.append(o.as_str());
            } else {
                r.append(ctx);
                r.append(".");
                let n = f.composite_name();
                r.append(n.as_str());
            }
            r.append(", ");
            r
        },
        Piece::IntoInit => {
            if f.skip {
                return String::new();
            }
            let mut r = f.into_composite_assignment();
            r.append(", ");
            r
        },
    }
}

/// The pieces of all fields, in order.
pub fn pieces_text(kind: Piece, fields: &Vec<FieldOpts>, ctx: &str) -> (r: String)
    requires
        forall|i: int| 0 <= i < fields@.len() ==> piece_ok(kind, #[trigger] fields@[i]@),
    ensures
        r@ == pieces(kind, fields@.map_values(|f: FieldOpts| f@), ctx@),
{
    let ghost fs = fields@.map_values(|f: FieldOpts| f@);
    let mut r = String::new();
    let mut i: usize = 0;
    assert(fs.take(0) =~= Seq::<FieldModel>::empty());
    while i < fields.len()
        invariant
            i <= fields.len(),
            fs == fields@.map_values(|f: FieldOpts| f@),
            forall|i: int| 0 <= i < fields@.len() ==> piece_ok(kind, #[trigger] fields@[i]@),
            r@ == pieces(kind, fs.take(i as int), ctx@),
        decreases fields.len() - i,
    {
        let p = piece_text(kind, &fields[i], ctx);
        r.append(p.as_str());
        i = i + 1;
        assert(fs.take(i as int).drop_last() =~= fs.take(i - 1));
    }
    assert(fs.take(fields.len() as int) =~= fs);
    r
}

// ---------------------------------------------------------------------------
// Which fields stop a derive
// ---------------------------------------------------------------------------

/// The order in which a derive forms the parts of each field.
#[derive(Clone, Copy, PartialEq, Eq, Structural)]
pub enum Check {
    /// Name, then type, of each field that is not skipped (`Composite`, `NewComposite`).
    Shape,
    /// Original name of each field that needs an extra argument (first pass of `FromComposite`).
    Extra,
    /// Original name, then (for a direct field) generated name, of each field (second pass of `FromComposite`).
    From,
    /// Original name, then generated name, of each field that is not skipped (`IntoComposite`).
    Into,
    /// Original name of each field, then generated name and type of each field that is not
    /// skipped: everything that any of the derives may need.
    Plan,
}

/// Why a field stops the derive, if it does.
pub open spec fn check(kind: Check, f: FieldModel) -> Option<FailureModel> {
    match kind {
        Check::Shape => if f.skip {
            None
        } else if name_failure(f) is Some {
            name_failure(f)
        } else {
            type_failure(f)
        },
        Check::Extra => if needs_extra(f) { original_failure(f) } else { None },
        Check::From => if original_failure(f) is Some {
            original_failure(f)
        } else if needs_extra(f) {
            None
        } else {
            name_failure(f)
        },
        Check::Into => if f.skip {
            None
        } else if original_failure(f) is Some {
            original_failure(f)
        } else {
            name_failure(f)
        },
        Check::Plan => if original_failure(f) is Some {
            original_failure(f)
        } else if f.skip {
            None
        } else if name_failure(f) is Some {
            name_failure(f)
        } else {
            type_failure(f)
        },
    }
}

/// The first field, in order, that stops the derive.
pub open spec fn first_failure(kind: Check, fs: Seq<FieldModel>) -> Option<FailureModel>
    decreases fs.len(),
{
    if fs.len() == 0 {
        None
    } else {
        match first_failure(kind, fs.drop_last()) {
            Some(x) => Some(x),
            None => check(kind, fs.last()),
        }
    }
}

/// When no field stops the derive, no field does.
pub proof fn lemma_no_failure(kind: Check, fs: Seq<FieldModel>)
    requires
        first_failure(kind, fs) is None,
    ensures
        forall|i: int| 0 <= i < fs.len() ==> check(kind, #[trigger] fs[i]) is None,
    decreases fs.len(),
{
    if fs.len() > 0 {
        lemma_no_failure(kind, fs.drop_last());
        assert forall|i: int| 0 <= i < fs.len() implies check(kind, #[trigger] fs[i]) is None by {
            if i < fs.len() - 1 {
                assert(fs.drop_last()[i] == fs[i]);
            }
        }
    }
}

/// Why a field stops the derive, if it does.
pub fn field_check(kind: Check, f: &FieldOpts) -> (r: Option<Failure>)
    ensures
        r matches Some(x) ==> check(kind, f@) == Some(x@),
        r is None ==> check(kind, f@) is None,
{
    match kind {
        Check::Shape => {
            if f.skip {
                None
            } else {
                match f.name_problem() {
                    Some(x) => Some(x),
                    None => f.type_problem(),
                }
            }
        },
        Check::Extra => if f.needs_extra_args() { f.original_problem() } else { None },
        Check::From => match f.original_problem() {
            Some(x) => Some(x),
            None => if f.needs_extra_args() { None } else { f.name_problem() },
        },
        Check::Into => {
            if f.skip {
                None
            } else {
                match f.original_problem() {
                    Some(x) => Some(x),
                    None => f.name_problem(),
                }
            }
        },
        Check::Plan => match f.original_problem() {
            Some(x) => Some(x),
            None => if f.skip {
                None
            } else {
                match f.name_problem() {
                    Some(x) => Some(x),
                    None => f.type_problem(),
                }
            },
        },
    }
}

/// The first field, in order, that stops the derive.
pub fn first_problem(kind: Check, fields: &Vec<FieldOpts>) -> (r: Option<Failure>)
    ensures
        r matches Some(x) ==> first_failure(kind, fields@.map_values(|f: FieldOpts| f@)) == Some(x@),
        r is None ==> first_failure(kind, fields@.map_values(|f: FieldOpts| f@)) is None,
{
    let ghost fs = fields@.map_values(|f: FieldOpts| f@);
    let mut i: usize = 0;
    assert(fs.take(0) =~= Seq::<FieldModel>::empty());
    while i < fields.len()
        invariant
            i <= fields.len(),
            fs == fields@.map_values(|f: FieldOpts| f@),
            first_failure(kind, fs.take(i as int)) is None,
        decreases fields.len() - i,
    {
        let c = field_check(kind, &fields[i]);
        assert(fs.take(i as int + 1).drop_last() =~= fs.take(i as int));
        match c {
            Some(x) => {
                proof { lemma_failure_stays(kind, fs, i as int + 1); }
                return Some(x);
            },
            None => {},
        }
        i = i + 1;
    }
    assert(fs.take(fields.len() as int) =~= fs);
    None
}

/// Once a prefix of the fields has a failure, the whole list has that failure.
proof fn lemma_failure_stays(kind: Check, fs: Seq<FieldModel>, n: int)
    requires
        0 <= n <= fs.len(),
        first_failure(kind, fs.take(n)) is Some,
    ensures
        first_failure(kind, fs) == first_failure(kind, fs.take(n)),
    decreases fs.len() - n,
{
    if n == fs.len() {
        assert(fs.take(n) =~= fs);
    } else {
        assert(fs.take(n + 1).drop_last() =~= fs.take(n));
        lemma_failure_stays(kind, fs, n + 1);
    }
}


// ---------------------------------------------------------------------------
// The items
// ---------------------------------------------------------------------------

/// The path of the trait implemented by `FromComposite` (or `FromPartial`).
pub open spec fn from_trait(fl: Flavor) -> Seq<char> {
    match fl {
        Flavor::Composite => "composite_traits::FromComposite"@,
        Flavor::Partial => "partial_traits::FromPartial"@,
    }
}

/// The path of the trait implemented by `IntoComposite` (or `IntoPartial`).
pub open spec fn into_trait(fl: Flavor) -> Seq<char> {
    match fl {
        Flavor::Composite => "composite_traits::IntoComposite"@,
        Flavor::Partial => "partial_traits::IntoPartial"@,
    }
}

/// The name of the generated constructor.
pub open spec fn new_fn(fl: Flavor) -> Seq<char> {
    "new_"@ + attr_name(fl)
}

/// The name of the method that rebuilds the input struct.
pub open spec fn from_fn(fl: Flavor) -> Seq<char> {
    "from_"@ + attr_name(fl)
}

/// The name of the method that converts into the generated struct.
pub open spec fn into_fn(fl: Flavor) -> Seq<char> {
    "into_"@ + attr_name(fl)
}

/// The name of the struct that holds the fields the generated struct cannot give back.
pub open spec fn missing_name(p: ParsedModel) -> Seq<char> {
    unraw(p.composite_name) + "Missing"@
}

/// The generated struct.
pub open spec fn struct_text(p: ParsedModel, fl: Flavor) -> Seq<char> {
    p.doc_attr + " "@ + p.derive_attr + " "@ + p.vis + " struct "@ + p.composite_name + " { "@
        + pieces(Piece::StructField, p.fields, attr_name(fl)) + "}"@
}

/// The constructor on the input struct.
pub open spec fn new_text(p: ParsedModel, fl: Flavor) -> Seq<char> {
    "impl "@ + p.original_name + " { #[doc = \" Create a new "@ + attr_name(fl) + " struct from its fields.\"] "@
        + p.vis + " fn "@ + new_fn(fl) + "("@ + pieces(Piece::Param, p.fields, attr_name(fl)) + ") -> "@
        + p.composite_name + " { "@ + p.composite_name + " { "@ + pieces(Piece::Init, p.fields, attr_name(fl))
        + "} } }"@
}

/// The `Missing` struct and the conversion from the generated struct.
pub open spec fn from_text(p: ParsedModel, fl: Flavor) -> Seq<char> {
    "#[derive(Debug)] "@ + p.vis + " struct "@ + missing_name(p) + " { "@
        + pieces(Piece::MissingField, p.fields, attr_name(fl)) + "} impl "@ + from_trait(fl) + "<"@
        + p.composite_name + "> for "@ + p.original_name + " { type Args = "@ + missing_name(p) + "; fn "@
        + from_fn(fl) + "("@ + attr_name(fl) + ": "@ + p.composite_name + ", missing: "@ + missing_name(p)
        + ") -> Self { Self { "@ + pieces(Piece::FromInit, p.fields, attr_name(fl)) + "} } }"@
}

/// The conversion into the generated struct.
pub open spec fn into_text(p: ParsedModel, fl: Flavor) -> Seq<char> {
    "impl "@ + into_trait(fl) + "<"@ + p.composite_name + "> for "@ + p.original_name + " { fn "@
        + into_fn(fl) + "(self) -> "@ + p.composite_name + " { "@ + p.composite_name + " { "@
        + pieces(Piece::IntoInit, p.fields, attr_name(fl)) + "} } }"@
}

/// What `Composite` (or `Partial`) emits for `input`, or why it emits nothing.
pub open spec fn struct_output(input: DeriveInput, fl: Flavor) -> Result<Seq<char>, FailureModel> {
    match parse_spec(input, fl) {
        Err(e) => Err(e),
        Ok(p) => match first_failure(Check::Shape, p.fields) {
            Some(x) => Err(x),
            None => Ok(struct_text(p, fl)),
        },
    }
}

/// What `NewComposite` (or `NewPartial`) emits for `input`, or why it emits nothing.
pub open spec fn new_output(input: DeriveInput, fl: Flavor) -> Result<Seq<char>, FailureModel> {
    match parse_spec(input, fl) {
        Err(e) => Err(e),
        Ok(p) => match first_failure(Check::Shape, p.fields) {
            Some(x) => Err(x),
            None => Ok(new_text(p, fl)),
        },
    }
}

/// What `FromComposite` (or `FromPartial`) emits for `input`, or why it emits nothing.
pub open spec fn from_output(input: DeriveInput, fl: Flavor) -> Result<Seq<char>, FailureModel> {
    match parse_spec(input, fl) {
        Err(e) => Err(e),
        Ok(p) => match first_failure(Check::Extra, p.fields) {
            Some(x) => Err(x),
            None => match first_failure(Check::From, p.fields) {
                Some(x) => Err(x),
                None => Ok(from_text(p, fl)),
            },
        },
    }
}

/// What `IntoComposite` (or `IntoPartial`) emits for `input`, or why it emits nothing.
pub open spec fn into_output(input: DeriveInput, fl: Flavor) -> Result<Seq<char>, FailureModel> {
    match parse_spec(input, fl) {
        Err(e) => Err(e),
        Ok(p) => match first_failure(Check::Into, p.fields) {
            Some(x) => Err(x),
            None => Ok(into_text(p, fl)),
        },
    }
}

/// Whether an executable result is the one that `s` describes.
pub open spec fn agrees(r: Result<String, Failure>, s: Result<Seq<char>, FailureModel>) -> bool {
    match r {
        Ok(t) => s == Ok::<Seq<char>, FailureModel>(t@),
        Err(e) => s == Err::<Seq<char>, FailureModel>(e@),
    }
}

fn flavor_word(fl: Flavor) -> (r: &'static str)
    ensures
        r@ == attr_name(fl),
{
    match fl {
        Flavor::Composite => "composite",
        Flavor::Partial => "partial",
    }
}

/// The generated struct.
pub fn struct_item(p: &ParsedInput, fl: Flavor) -> (r: String)
    requires
        first_failure(Check::Shape, p@.fields) is None,
    ensures
        r@ == struct_text(p@, fl),
{
    proof { lemma_no_failure(Check::Shape, p@.fields); }
    assert forall|i: int| 0 <= i < p.fields@.len() implies piece_ok(Piece::StructField, #[trigger] p.fields@[i]@) by {
        assert(p@.fields[i] == p.fields@[i]@);
    }
    let word = flavor_word(fl);
    let mut r = p.doc_attr.clone();
    r.append(" ");
    r.append(p.derive_attr.as_str());
    r.append(" ");
    r.append(p.vis.as_str());
    r.append(" struct ");
    r.append(p.composite_name.as_str());
    r.append(" { ");
    let body = pieces_text(Piece::StructField, &p.fields, word);
    r.append(body.as_str());
    r.append("}");
    r
}

/// The constructor on the input struct.
pub fn new_item(p: &ParsedInput, fl: Flavor) -> (r: String)
    requires
        first_failure(Check::Shape, p@.fields) is None,
    ensures
        r@ == new_text(p@, fl),
{
    proof { lemma_no_failure(Check::Shape, p@.fields); }
    assert forall|i: int| 0 <= i < p.fields@.len() implies piece_ok(Piece::Param, #[trigger] p.fields@[i]@) by {
        assert(p@.fields[i] == p.fields@[i]@);
    }
    assert forall|i: int| 0 <= i < p.fields@.len() implies piece_ok(Piece::Init, #[trigger] p.fields@[i]@) by {
        assert(p@.fields[i] == p.fields@[i]@);
    }
    let word = flavor_word(fl);
    let mut r = String::from_str("impl ");
    r.append(p.original_name.as_str());
    r.append(" { #[doc = \" Create a new ");
    r.append(word);
    r.append(" struct from its fields.\"] ");
    r.append(p.vis.as_str());
    r.append(" fn ");
    r.append("new_");
    r.append(word);
    r.append("(");
    let params = pieces_text(Piece::Param, &p.fields, word);
    r.append(params.as_str());
    r.append(") -> ");
    r.append(p.composite_name.as_str());
    r.append(" { ");
    r.append(p.composite_name.as_str());
    r.append(" { ");
    let inits = pieces_text(Piece::Init, &p.fields, word);
    r.append(inits.as_str());
    r.append("} } }");
    assert(r@ =~= new_text(p@, fl));
    r
}

fn from_trait_text(fl: Flavor) -> (r: &'static str)
    ensures
        r@ == from_trait(fl),
{
    match fl {
        Flavor::Composite => "composite_traits::FromComposite",
        Flavor::Partial => "partial_traits::FromPartial",
    }
}

fn into_trait_text(fl: Flavor) -> (r: &'static str)
    ensures
        r@ == into_trait(fl),
{
    match fl {
        Flavor::Composite => "composite_traits::IntoComposite",
        Flavor::Partial => "partial_traits::IntoPartial",
    }
}

/// The `Missing` struct and the conversion from the generated struct.
pub fn from_item(p: &ParsedInput, fl: Flavor) -> (r: String)
    requires
        first_failure(Check::Extra, p@.fields) is None,
        first_failure(Check::From, p@.fields) is None,
    ensures
        r@ == from_text(p@, fl),
{
    proof {
        lemma_no_failure(Check::Extra, p@.fields);
        lemma_no_failure(Check::From, p@.fields);
    }
    assert forall|i: int| 0 <= i < p.fields@.len() implies piece_ok(Piece::MissingField, #[trigger] p.fields@[i]@) by {
        assert(p@.fields[i] == p.fields@[i]@);
    }
    assert forall|i: int| 0 <= i < p.fields@.len() implies piece_ok(Piece::FromInit, #[trigger] p.fields@[i]@) by {
        assert(p@.fields[i] == p.fields@[i]@);
    }
    let word = flavor_word(fl);
    let mut missing = unraw_text(&p.composite_name);
    missing.append("Missing");
    let mut r = String::from_str("#[derive(Debug)] ");
    r.append(p.vis.as_str());
    r.append(" struct ");
    r.append(missing.as_str());
    r.append(" { ");
    let decls = pieces_text(Piece::MissingField, &p.fields, word);
    r.append(decls.as_str());
    r.append("} impl ");
    r.append(from_trait_text(fl));
    r.append("<");
    r.append(p.composite_name.as_str());
    r.append("> for ");
    r.append(p.original_name.as_str());
    r.append(" { type Args = ");
    r.append(missing.as_str());
    r.append("; fn ");
    r.append("from_");
    r.append(word);
    r.append("(");
    r.append(word);
    r.append(": ");
    r.append(p.composite_name.as_str());
    r.append(", missing: ");
    r.append(missing.as_str());
    r.append(") -> Self { Self { ");
    let inits = pieces_text(Piece::FromInit, &p.fields, word);
    r.append(inits.as_str());
    r.append("} } }");
    assert(r@ =~= from_text(p@, fl));
    r
}

/// The conversion into the generated struct.
pub fn into_item(p: &ParsedInput, fl: Flavor) -> (r: String)
    requires
        first_failure(Check::Into, p@.fields) is None,
    ensures
        r@ == into_text(p@, fl),
{
    proof { lemma_no_failure(Check::Into, p@.fields); }
    assert forall|i: int| 0 <= i < p.fields@.len() implies piece_ok(Piece::IntoInit, #[trigger] p.fields@[i]@) by {
        assert(p@.fields[i] == p.fields@[i]@);
    }
    let word = flavor_word(fl);
    let mut r = String::from_str("impl ");
    r.append(into_trait_text(fl));
    r.append("<");
    r.append(p.composite_name.as_str());
    r.append("> for ");
    r.append(p.original_name.as_str());
    r.append(" { fn ");
    r.append("into_");
    r.append(word);
    r.append("(self) -> ");
    r.append(p.composite_name.as_str());
    r.append(" { ");
    r.append(p.composite_name.as_str());
    r.append(" { ");
    let inits = pieces_text(Piece::IntoInit, &p.fields, word);
    r.append(inits.as_str());
    r.append("} } }");
    assert(r@ =~= into_text(p@, fl));
    r
}

// ---------------------------------------------------------------------------
// The derives
// ---------------------------------------------------------------------------

/// Expands `Composite` (or `Partial`): the generated struct.
pub fn expand_struct(input: &DeriveInput, fl: Flavor) -> (r: Result<String, Failure>)
    requires
        !enum_rejected(*input, fl),
    ensures
        agrees(r, struct_output(*input, fl)),
{
    let p = match parse_input(input, fl) {
        Ok(p) => p,
        Err(e) => return Err(e),
    };
    if let Some(x) = first_problem(Check::Shape, &p.fields) {
        return Err(x);
    }
    Ok(struct_item(&p, fl))
}

/// Expands `NewComposite` (or `NewPartial`): the constructor.
pub fn expand_new(input: &DeriveInput, fl: Flavor) -> (r: Result<String, Failure>)
    requires
        !enum_rejected(*input, fl),
    ensures
        agrees(r, new_output(*input, fl)),
{
    let p = match parse_input(input, fl) {
        Ok(p) => p,
        Err(e) => return Err(e),
    };
    if let Some(x) = first_problem(Check::Shape, &p.fields) {
        return Err(x);
    }
    Ok(new_item(&p, fl))
}

/// Expands `FromComposite` (or `FromPartial`): the `Missing` struct and the conversion.
pub fn expand_from(input: &DeriveInput, fl: Flavor) -> (r: Result<String, Failure>)
    requires
        !enum_rejected(*input, fl),
    ensures
        agrees(r, from_output(*input, fl)),
{
    let p = match parse_input(input, fl) {
        Ok(p) => p,
        Err(e) => return Err(e),
    };
    if let Some(x) = first_problem(Check::Extra, &p.fields) {
        return Err(x);
    }
    if let Some(x) = first_problem(Check::From, &p.fields) {
        return Err(x);
    }
    Ok(from_item(&p, fl))
}

/// Expands `IntoComposite` (or `IntoPartial`): the conversion.
pub fn expand_into(input: &DeriveInput, fl: Flavor) -> (r: Result<String, Failure>)
    requires
        !enum_rejected(*input, fl),
    ensures
        agrees(r, into_output(*input, fl)),
{
    let p = match parse_input(input, fl) {
        Ok(p) => p,
        Err(e) => return Err(e),
    };
    if let Some(x) = first_problem(Check::Into, &p.fields) {
        return Err(x);
    }
    Ok(into_item(&p, fl))
}

/// `#[derive(Composite)]`: the generated struct, with the fields that are not skipped.
pub fn derive_composite(input: &DeriveInput) -> (r: Result<String, Failure>)
    requires
        !enum_rejected(*input, Flavor::Composite),
    ensures
        agrees(r, struct_output(*input, Flavor::Composite)),
{
    expand_struct(input, Flavor::Composite)
}

/// `#[derive(NewComposite)]`: `fn new_composite(...)` on the input struct.
pub fn derive_new_composite(input: &DeriveInput) -> (r: Result<String, Failure>)
    requires
        !enum_rejected(*input, Flavor::Composite),
    ensures
        agrees(r, new_output(*input, Flavor::Composite)),
{
    expand_new(input, Flavor::Composite)
}

/// `#[derive(FromComposite)]`: the `Missing` struct and `composite_traits::FromComposite`.
pub fn derive_from_composite(input: &DeriveInput) -> (r: Result<String, Failure>)
    requires
        !enum_rejected(*input, Flavor::Composite),
    ensures
        agrees(r, from_output(*input, Flavor::Composite)),
{
    expand_from(input, Flavor::Composite)
}

/// `#[derive(IntoComposite)]`: `composite_traits::IntoComposite`.
pub fn derive_into_composite(input: &DeriveInput) -> (r: Result<String, Failure>)
    requires
        !enum_rejected(*input, Flavor::Composite),
    ensures
        agrees(r, into_output(*input, Flavor::Composite)),
{
    expand_into(input, Flavor::Composite)
}

/// `#[derive(Partial)]`: the generated struct, with the fields that are not skipped.
pub fn derive_partial(input: &DeriveInput) -> (r: Result<String, Failure>)
    requires
        !enum_rejected(*input, Flavor::Partial),
    ensures
        agrees(r, struct_output(*input, Flavor::Partial)),
{
    expand_struct(input, Flavor::Partial)
}

/// `#[derive(NewPartial)]`: `fn new_partial(...)` on the input struct.
pub fn derive_new_partial(input: &DeriveInput) -> (r: Result<String, Failure>)
    requires
        !enum_rejected(*input, Flavor::Partial),
    ensures
        agrees(r, new_output(*input, Flavor::Partial)),
{
    expand_new(input, Flavor::Partial)
}

/// `#[derive(FromPartial)]`: the `Missing` struct and `partial_traits::FromPartial`.
pub fn derive_from_partial(input: &DeriveInput) -> (r: Result<String, Failure>)
    requires
        !enum_rejected(*input, Flavor::Partial),
    ensures
        agrees(r, from_output(*input, Flavor::Partial)),
{
    expand_from(input, Flavor::Partial)
}

/// `#[derive(IntoPartial)]`: `partial_traits::IntoPartial`.
pub fn derive_into_partial(input: &DeriveInput) -> (r: Result<String, Failure>)
    requires
        !enum_rejected(*input, Flavor::Partial),
    ensures
        agrees(r, into_output(*input, Flavor::Partial)),
{
    expand_into(input, Flavor::Partial)
}

} // verus!
