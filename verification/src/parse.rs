//! Reading the whole input of a derive: the struct-level options, each field's
//! options, and the attributes that are carried over to the generated struct.
use vstd::prelude::*;
use crate::syntax::{Attribute, Data, DeriveInput, Field, Flavor, Meta};
use crate::text::{join, join_texts, opt_text, same_text, texts, unraw, unraw_text, copy_opt};
use crate::outside::{string_literal, string_literal_text};
use crate::options::{
    attr_name, errors_model, field_keys, field_schema, flavor_attr_name, get_ident, path_ident,
    read_attrs, read_model, struct_keys, struct_schema, Acc, AttrError, ErrorModel, OptValue,
    Problem, Slot, SlotModel, ValueModel,
};

verus! {

/// An attribute of a field that is carried over to the generated struct.
pub struct ForwardedAttr {
    /// The token text of the attribute.
    pub text: String,
    /// The identifier that the attribute's path consists of, if it is one.
    pub ident: Option<String>,
}

/// A field of the input, with its options.
pub struct FieldOpts {
    pub ident: Option<String>,
    pub vis: String,
    pub ty: String,
    /// The field's `doc`, `serde` and `cfg` attributes, in order.
    pub attrs: Vec<ForwardedAttr>,
    /// `skip`: the field is left out of the generated struct.
    pub skip: bool,
    /// `option`: the field's type is wrapped in `Option`.
    pub option: bool,
    /// `rename = "..."`: the field's name in the generated struct.
    pub rename: Option<String>,
    /// `ty_override = "..."`: the field's type in the generated struct.
    pub ty_override: Option<String>,
}

/// Everything that the derives need to know of their input.
pub struct ParsedInput {
    /// The name of the input struct.
    pub original_name: String,
    /// The name of the generated struct.
    pub composite_name: String,
    /// The token text of the input struct's visibility.
    pub vis: String,
    /// The `#[derive(...)]` attribute of the generated struct (empty when there is none).
    pub derive_attr: String,
    /// The `#[doc = ...]` attribute of the generated struct.
    pub doc_attr: String,
    /// The fields of the input struct, in order.
    pub fields: Vec<FieldOpts>,
}

/// Why a derive produces no code.
pub enum Failure {
    /// The attributes are malformed; every problem found, in order.
    Attributes(Vec<AttrError>),
    /// A field has no name where one is needed.
    UnnamedField,
    /// A `rename` value is not an identifier; the value.
    InvalidRename(String),
    /// A `ty_override` value is not a type; the value.
    InvalidTypeOverride(String),
}

/// The meaning of a [`ForwardedAttr`]: its text and its path's identifier.
pub type ForwardedModel = (Seq<char>, Option<Seq<char>>);

/// The meaning of a [`FieldOpts`].
pub struct FieldModel {
    pub ident: Option<Seq<char>>,
    pub vis: Seq<char>,
    pub ty: Seq<char>,
    pub attrs: Seq<ForwardedModel>,
    pub skip: bool,
    pub option: bool,
    pub rename: Option<Seq<char>>,
    pub ty_override: Option<Seq<char>>,
}

/// The meaning of a [`ParsedInput`].
pub struct ParsedModel {
    pub original_name: Seq<char>,
    pub composite_name: Seq<char>,
    pub vis: Seq<char>,
    pub derive_attr: Seq<char>,
    pub doc_attr: Seq<char>,
    pub fields: Seq<FieldModel>,
}

/// The meaning of a [`Failure`].
pub enum FailureModel {
    Attributes(Seq<ErrorModel>),
    UnnamedField,
    InvalidRename(Seq<char>),
    InvalidTypeOverride(Seq<char>),
}

impl View for ForwardedAttr {
    type V = ForwardedModel;

    open spec fn view(&self) -> ForwardedModel {
        (self.text@, opt_text(self.ident))
    }
}

impl View for FieldOpts {
    type V = FieldModel;

    open spec fn view(&self) -> FieldModel {
        FieldModel {
            ident: opt_text(self.ident),
            vis: self.vis@,
            ty: self.ty@,
            attrs: self.attrs@.map_values(|a: ForwardedAttr| a@),
            skip: self.skip,
            option: self.option,
            rename: opt_text(self.rename),
            ty_override: opt_text(self.ty_override),
        }
    }
}

impl View for ParsedInput {
    type V = ParsedModel;

    open spec fn view(&self) -> ParsedModel {
        ParsedModel {
            original_name: self.original_name@,
            composite_name: self.composite_name@,
            vis: self.vis@,
            derive_attr: self.derive_attr@,
            doc_attr: self.doc_attr@,
            fields: self.fields@.map_values(|f: FieldOpts| f@),
        }
    }
}

impl View for Failure {
    type V = FailureModel;

    open spec fn view(&self) -> FailureModel {
        match self {
            Failure::Attributes(es) => FailureModel::Attributes(errors_model(es@)),
            Failure::UnnamedField => FailureModel::UnnamedField,
            Failure::InvalidRename(s) => FailureModel::InvalidRename(s@),
            Failure::InvalidTypeOverride(s) => FailureModel::InvalidTypeOverride(s@),
        }
    }
}

// ---------------------------------------------------------------------------
// Fields
// ---------------------------------------------------------------------------

/// Whether an attribute of a field is carried over: one whose path is `doc`, `serde`
/// or `cfg` (an attribute of the derive's own name is read, not carried over).
pub open spec fn forwardable(a: Attribute, name: Seq<char>) -> bool {
    let t = a.meta.spec_path().text@;
    t != name && (t == "doc"@ || t == "serde"@ || t == "cfg"@)
}

/// The attributes of a field that are carried over, in order.
pub open spec fn forwarded(attrs: Seq<Attribute>, name: Seq<char>) -> Seq<ForwardedModel>
    decreases attrs.len(),
{
    if attrs.len() == 0 {
        Seq::empty()
    } else {
        let rest = forwarded(attrs.drop_last(), name);
        let a = attrs.last();
        if forwardable(a, name) {
            rest.push((a.text@, path_ident(a.meta.spec_path())))
        } else {
            rest
        }
    }
}

/// The flag that a slot holds (`false` when not given).
pub open spec fn slot_flag(s: SlotModel) -> bool {
    match s {
        SlotModel::Got(ValueModel::Flag(b)) => b,
        _ => false,
    }
}

/// The text that a slot holds (`None` when not given).
pub open spec fn slot_text(s: SlotModel) -> Option<Seq<char>> {
    match s {
        SlotModel::Got(ValueModel::Text(t)) => Some(t),
        _ => None,
    }
}

/// The paths that a slot holds (none when not given).
pub open spec fn slot_paths(s: SlotModel) -> Seq<Seq<char>> {
    match s {
        SlotModel::Got(ValueModel::Paths(p)) => p,
        _ => Seq::empty(),
    }
}

/// The problems with a field's attributes, each located at the field's name.
pub open spec fn field_errors(f: Field, flavor: Flavor) -> Seq<ErrorModel> {
    let es = read_model(field_schema(), attr_name(flavor), f.attrs@).errors;
    match f.ident {
        Some(id) => es.map_values(|e: ErrorModel| ErrorModel { problem: e.problem, locations: seq![id@] + e.locations }),
        None => es,
    }
}

/// The problems with the attributes of all fields, in order.
pub open spec fn fields_errors(fs: Seq<Field>, flavor: Flavor) -> Seq<ErrorModel>
    decreases fs.len(),
{
    if fs.len() == 0 {
        Seq::empty()
    } else {
        fields_errors(fs.drop_last(), flavor) + field_errors(fs.last(), flavor)
    }
}

/// A field with its options.
pub open spec fn field_model(f: Field, flavor: Flavor) -> FieldModel {
    let acc = read_model(field_schema(), attr_name(flavor), f.attrs@);
    FieldModel {
        ident: opt_text(f.ident),
        vis: f.vis@,
        ty: f.ty@,
        attrs: forwarded(f.attrs@, attr_name(flavor)),
        skip: slot_flag(acc.slots[0]),
        option: slot_flag(acc.slots[1]),
        rename: slot_text(acc.slots[2]),
        ty_override: slot_text(acc.slots[3]),
    }
}

// ---------------------------------------------------------------------------
// The whole input
// ---------------------------------------------------------------------------

/// The word that the names and docs of a flavor start with.
pub open spec fn prefix(f: Flavor) -> Seq<char> {
    match f {
        Flavor::Composite => "Composite"@,
        Flavor::Partial => "Partial"@,
    }
}

/// The name of the generated struct when none is given: the flavor's word followed by
/// the input's name (without `r#`).
pub open spec fn default_name(f: Flavor, ident: Seq<char>) -> Seq<char> {
    prefix(f) + unraw(ident)
}

/// The doc text of the generated struct when none is given.
pub open spec fn default_doc(f: Flavor, ident: Seq<char>) -> Seq<char> {
    prefix(f) + " version of [`"@ + ident + "`]."@
}

/// The `#[derive(...)]` attribute for the given paths; empty for no paths.
pub open spec fn derive_attr_text(paths: Seq<Seq<char>>) -> Seq<char> {
    if paths.len() == 0 {
        Seq::empty()
    } else {
        "#[derive("@ + join(paths, ", "@) + ")]"@
    }
}

/// The `#[doc = ...]` attribute for the doc text `doc`.
pub open spec fn doc_attr_text(doc: Seq<char>) -> Seq<char> {
    "#[doc = "@ + string_literal_text(doc) + "]"@
}

/// Whether the derive is applied to an enum whose own attributes read without a
/// problem: the input on which the derives stop with the panic "... can only be
/// derived on structs".
pub open spec fn enum_rejected(input: DeriveInput, flavor: Flavor) -> bool {
    read_model(struct_schema(), attr_name(flavor), input.attrs@).errors.len() == 0 && input.data is Enum
}

/// What reading the input of a derive gives: the parsed input, or why there is none.
/// Inputs for which [`enum_rejected`] holds have no result (the derives panic on them),
/// and the value given for them here is left open.
pub open spec fn parse_spec(input: DeriveInput, flavor: Flavor) -> Result<ParsedModel, FailureModel> {
    let acc = read_model(struct_schema(), attr_name(flavor), input.attrs@);
    if acc.errors.len() > 0 {
        Err(FailureModel::Attributes(acc.errors))
    } else {
        match input.data {
            Data::Union => Err(FailureModel::Attributes(
                seq![ErrorModel { problem: crate::options::ProblemModel::Custom("Unions are not supported"@), locations: Seq::empty() }],
            )),
            Data::Enum => vstd::pervasive::arbitrary(),
            Data::Struct(fs) => {
                let fe = fields_errors(fs@, flavor);
                if fe.len() > 0 {
                    Err(FailureModel::Attributes(fe))
                } else {
                    let doc = match slot_text(acc.slots[2]) {
                        Some(d) => d,
                        None => default_doc(flavor, input.ident@),
                    };
                    Ok(ParsedModel {
                        original_name: input.ident@,
                        composite_name: match slot_text(acc.slots[0]) {
                            Some(n) => n,
                            None => default_name(flavor, input.ident@),
                        },
                        vis: input.vis@,
                        derive_attr: derive_attr_text(slot_paths(acc.slots[1])),
                        doc_attr: doc_attr_text(doc),
                        fields: fs@.map_values(|f: Field| field_model(f, flavor)),
                    })
                }
            },
        }
    }
}


// ---------------------------------------------------------------------------
// Reading, executably
// ---------------------------------------------------------------------------

fn slot_flag_of(s: &Slot) -> (r: bool)
    ensures
        r == slot_flag(s@),
{
    match s {
        Slot::Got(OptValue::Flag(b)) => *b,
        _ => false,
    }
}

fn slot_text_of(s: &Slot) -> (r: Option<String>)
    ensures
        opt_text(r) == slot_text(s@),
{
    match s {
        Slot::Got(OptValue::Text(t)) => Some(t.clone()),
        _ => None,
    }
}

fn slot_paths_of(s: &Slot) -> (r: Vec<String>)
    ensures
        texts(r@) == slot_paths(s@),
{
    match s {
        Slot::Got(OptValue::Paths(p)) => crate::text::copy_texts(p),
        _ => {
            let r: Vec<String> = Vec::new();
            assert(texts(r@) =~= Seq::<Seq<char>>::empty());
            r
        },
    }
}

/// The attributes of a field that are carried over, in order.
pub fn forwarded_attrs(attrs: &Vec<Attribute>, name: &str) -> (r: Vec<ForwardedAttr>)
    ensures
        r@.map_values(|a: ForwardedAttr| a@) == forwarded(attrs@, name@),
{
    let mut r: Vec<ForwardedAttr> = Vec::new();
    let mut i: usize = 0;
    assert(attrs@.take(0) =~= Seq::<Attribute>::empty());
    assert(r@.map_values(|a: ForwardedAttr| a@) =~= Seq::<ForwardedModel>::empty());
    while i < attrs.len()
        invariant
            i <= attrs.len(),
            r@.map_values(|a: ForwardedAttr| a@) == forwarded(attrs@.take(i as int), name@),
        decreases attrs.len() - i,
    {
        let a = &attrs[i];
        let p = a.meta.path();
        let t = p.text.as_str();
        let keep = !same_text(t, name) && (same_text(t, "doc") || same_text(t, "serde") || same_text(t, "cfg"));
        let ghost before = r@;
        if keep {
            r.push(ForwardedAttr { text: a.text.clone(), ident: get_ident(p) });
            assert(r@.map_values(|a: ForwardedAttr| a@) =~= before.map_values(|a: ForwardedAttr| a@).push(r@.last()@));
        }
        i = i + 1;
        assert(attrs@.take(i as int).drop_last() =~= attrs@.take(i - 1));
    }
    assert(attrs@.take(attrs.len() as int) =~= attrs@);
    r
}

/// The errors `es` moved under the location `id`, when there is one.
fn relocate(es: Vec<AttrError>, id: &Option<String>) -> (r: Vec<AttrError>)
    ensures
        errors_model(r@) == match id {
            Some(s) => errors_model(es@).map_values(|e: ErrorModel| ErrorModel { problem: e.problem, locations: seq![s@] + e.locations }),
            None => errors_model(es@),
        },
{
    match id {
        None => es,
        Some(s) => {
            let ghost orig = es@;
            let total: usize = es.len();
            let mut rest = es;
            let mut out: Vec<AttrError> = Vec::new();
            let mut k: usize = 0;
            while rest.len() > 0
                invariant
                    k + rest@.len() == orig.len(),
                    orig.len() == total,
                    rest@ == orig.skip(k as int),
                    errors_model(out@) == errors_model(orig.take(k as int)).map_values(
                        |e: ErrorModel| ErrorModel { problem: e.problem, locations: seq![s@] + e.locations }),
                decreases rest@.len(),
            {
                let e = rest.remove(0);
                let AttrError { problem, locations } = e;
                let mut locs: Vec<String> = Vec::new();
                locs.push(s.clone());
                let mut moved = locations;
                let ghost ml = moved@;
                locs.append(&mut moved);
                let ne = AttrError { problem, locations: locs };
                assert(texts(ne.locations@) =~= seq![s@] + texts(ml));
                let ghost before = out@;
                out.push(ne);
                assert(orig.take(k as int + 1) =~= orig.take(k as int).push(orig[k as int]));
                assert(rest@ =~= orig.skip(k as int + 1));
                k = k + 1;
                assert(errors_model(out@) =~= errors_model(before).push(ne@));
                assert(errors_model(orig.take(k as int)) =~= errors_model(orig.take(k - 1)).push(orig[k - 1]@));
                assert(errors_model(out@) =~= errors_model(orig.take(k as int)).map_values(
                        |e: ErrorModel| ErrorModel { problem: e.problem, locations: seq![s@] + e.locations }));
            }
            assert(orig.take(orig.len() as int) =~= orig);
            out
        },
    }
}

/// Reads one field: its options, or the problems with its attributes (located at its name).
pub fn read_field(keys: &Vec<crate::options::KeyDef>, name: &str, f: &Field, flavor: Flavor) -> (r: Result<FieldOpts, Vec<AttrError>>)
    requires
        crate::options::schema_model(keys@) == field_schema(),
        name@ == attr_name(flavor),
    ensures
        field_errors(*f, flavor).len() == 0 <==> r is Ok,
        r matches Ok(o) ==> o@ == field_model(*f, flavor),
        r matches Err(es) ==> errors_model(es@) == field_errors(*f, flavor),
{
    let acc = read_attrs(keys, name, &f.attrs);
    assert(keys@.len() == 4) by {
        assert(crate::options::schema_model(keys@).len() == keys@.len());
    }
    if acc.errors.len() > 0 {
        let Acc { slots: _, errors } = acc;
        let r = relocate(errors, &f.ident);
        return Err(r);
    }
    let o = FieldOpts {
        ident: copy_opt(&f.ident),
        vis: f.vis.clone(),
        ty: f.ty.clone(),
        attrs: forwarded_attrs(&f.attrs, name),
        skip: slot_flag_of(&acc.slots[0]),
        option: slot_flag_of(&acc.slots[1]),
        rename: slot_text_of(&acc.slots[2]),
        ty_override: slot_text_of(&acc.slots[3]),
    };
    Ok(o)
}

fn flavor_prefix(f: Flavor) -> (r: &'static str)
    ensures
        r@ == prefix(f),
{
    match f {
        Flavor::Composite => "Composite",
        Flavor::Partial => "Partial",
    }
}

/// Whether the derive is applied to an enum whose own attributes read without a
/// problem (see [`enum_rejected`]).
pub fn is_rejected_enum(input: &DeriveInput, flavor: Flavor) -> (r: bool)
    ensures
        r == enum_rejected(*input, flavor),
{
    match &input.data {
        Data::Enum => {
            let keys = struct_keys();
            let acc = read_attrs(&keys, flavor_attr_name(flavor), &input.attrs);
            acc.errors.len() == 0
        },
        _ => false,
    }
}

/// Reads the input of a derive: the parsed input, or why there is none.
pub fn parse_input(input: &DeriveInput, flavor: Flavor) -> (r: Result<ParsedInput, Failure>)
    requires
        !enum_rejected(*input, flavor),
    ensures
        r matches Ok(p) ==> parse_spec(*input, flavor) == Ok::<ParsedModel, FailureModel>(p@),
        r matches Err(e) ==> parse_spec(*input, flavor) == Err::<ParsedModel, FailureModel>(e@),
{
    let keys = struct_keys();
    let name = flavor_attr_name(flavor);
    let acc = read_attrs(&keys, name, &input.attrs);
    assert(keys@.len() == 3) by {
        assert(crate::options::schema_model(keys@).len() == keys@.len());
    }
    if acc.errors.len() > 0 {
        let Acc { slots: _, errors } = acc;
        return Err(Failure::Attributes(errors));
    }
    match &input.data {
        Data::Union => {
            let mut es: Vec<AttrError> = Vec::new();
            let mut locations: Vec<String> = Vec::new();
            let e = AttrError { problem: Problem::Custom(String::from_str("Unions are not supported")), locations };
            assert(texts(e.locations@) =~= Seq::<Seq<char>>::empty());
            es.push(e);
            proof {
                assert(errors_model(es@) =~= seq![e@]);
            }
            Err(Failure::Attributes(es))
        },
        Data::Enum => {
            assert(false);
            Err(Failure::UnnamedField)
        },
        Data::Struct(fs) => {
            let fkeys = field_keys();
            let mut errors: Vec<AttrError> = Vec::new();
            let mut opts: Vec<FieldOpts> = Vec::new();
            let mut i: usize = 0;
            assert(fs@.take(0) =~= Seq::<Field>::empty());
            assert(errors_model(errors@) =~= Seq::<ErrorModel>::empty());
            assert(opts@.map_values(|o: FieldOpts| o@) =~= Seq::<FieldModel>::empty());
            while i < fs.len()
                invariant
                    i <= fs.len(),
                    crate::options::schema_model(fkeys@) == field_schema(),
                    name@ == attr_name(flavor),
                    errors_model(errors@) == fields_errors(fs@.take(i as int), flavor),
                    errors@.len() == 0 ==> opts@.map_values(|o: FieldOpts| o@)
                        == fs@.take(i as int).map_values(|f: Field| field_model(f, flavor)),
                decreases fs.len() - i,
            {
                let ghost eb = errors@;
                let ghost ob = opts@;
                assert(fs@.take(i as int + 1).drop_last() =~= fs@.take(i as int));
                match read_field(&fkeys, name, &fs[i], flavor) {
                    Ok(o) => {
                        let ghost om = o@;
                        assert(om == field_model(fs@[i as int], flavor));
                        opts.push(o);
                        proof {
                            assert(fields_errors(fs@.take(i as int + 1), flavor) =~= fields_errors(fs@.take(i as int), flavor));
                            if errors@.len() == 0 {
                                assert(fs@.take(i as int + 1) =~= fs@.take(i as int).push(fs@[i as int]));
                                assert(ob.map_values(|o: FieldOpts| o@) == fs@.take(i as int).map_values(|f: Field| field_model(f, flavor)));
                                assert(opts@.map_values(|o: FieldOpts| o@) =~= ob.map_values(|o: FieldOpts| o@).push(om));
                                assert(opts@.map_values(|o: FieldOpts| o@) =~= fs@.take(i as int + 1).map_values(|f: Field| field_model(f, flavor)));
                            }
                        }
                    },
                    Err(es) => {
                        let mut es = es;
                        let ghost eg = es@;
                        errors.append(&mut es);
                        proof {
                            assert(errors_model(errors@) =~= errors_model(eb) + errors_model(eg));
                        }
                    },
                }
                i = i + 1;
            }
            assert(fs@.take(fs.len() as int) =~= fs@);
            if errors.len() > 0 {
                return Err(Failure::Attributes(errors));
            }
            let composite_name = match slot_text_of(&acc.slots[0]) {
                Some(n) => n,
                None => {
                    let mut n = String::from_str(flavor_prefix(flavor));
                    let u = unraw_text(&input.ident);
                    n.append(u.as_str());
                    n
                },
            };
            let doc = match slot_text_of(&acc.slots[2]) {
                Some(d) => d,
                None => {
                    let mut d = String::from_str(flavor_prefix(flavor));
                    d.append(" version of [`");
                    d.append(input.ident.as_str());
                    d.append("`].");
                    d
                },
            };
            let mut doc_attr = String::from_str("#[doc = ");
            let lit = string_literal(doc.as_str());
            doc_attr.append(lit.as_str());
            doc_attr.append("]");
            let paths = slot_paths_of(&acc.slots[1]);
            let derive_attr = if paths.len() == 0 {
                String::new()
            } else {
                let mut d = String::from_str("#[derive(");
                let j = join_texts(&paths, ", ");
                d.append(j.as_str());
                d.append(")]");
                d
            };
            proof {
                assert(texts(paths@).len() == paths@.len());
            }
            let p = ParsedInput {
                original_name: input.ident.clone(),
                composite_name,
                vis: input.vis.clone(),
                derive_attr,
                doc_attr,
                fields: opts,
            };
            assert(p@ == parse_spec(*input, flavor)->Ok_0);
            Ok(p)
        },
    }
}

} // verus!
