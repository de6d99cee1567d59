//! What each derive emits, stated from the input: the fixed words of every item, the
//! visibility it carries, the trait it implements, and the names it uses.
use vstd::prelude::*;
use crate::syntax::{Attribute, Data, DeriveInput, Flavor, Meta, NestedMeta};
use crate::text::{join, unraw};
use crate::outside::{string_literal_text, syn_type_text};
use crate::options::path_ident;
use crate::options::{paths_of_items, read_model, struct_schema, attr_name, value_of_meta, Kind, ValueModel};
use crate::syntax::{Expr, Lit};
use crate::values::{convert, Value};
use crate::parse::{enum_rejected, forwarded, parse_spec, slot_paths, slot_text, FieldModel, ForwardedModel};
use crate::fields::{base_type, field_type};
use crate::generate::{from_output, into_output, new_output, pieces, struct_output, Piece};

verus! {

/// The word in the names of a family's items.
pub open spec fn family_word(fl: Flavor) -> Seq<char> {
    match fl {
        Flavor::Composite => "composite"@,
        Flavor::Partial => "partial"@,
    }
}

/// The trait that a family's conversion from the generated struct implements.
pub open spec fn family_from_trait(fl: Flavor) -> Seq<char> {
    match fl {
        Flavor::Composite => "composite_traits::FromComposite"@,
        Flavor::Partial => "partial_traits::FromPartial"@,
    }
}

/// The trait that a family's conversion into the generated struct implements.
pub open spec fn family_into_trait(fl: Flavor) -> Seq<char> {
    match fl {
        Flavor::Composite => "composite_traits::IntoComposite"@,
        Flavor::Partial => "partial_traits::IntoPartial"@,
    }
}

/// The generated struct carries the input struct's visibility, under the generated name,
/// after the doc and derive attributes, and declares the fields inside braces.
pub proof fn law_struct_shape(input: DeriveInput, fl: Flavor)
    requires
        !enum_rejected(input, fl),
        struct_output(input, fl) is Ok,
    ensures
        parse_spec(input, fl) is Ok,
        ({
            let p = parse_spec(input, fl)->Ok_0;
            struct_output(input, fl)->Ok_0 == p.doc_attr + " "@ + p.derive_attr + " "@ + input.vis@ + " struct "@
                + p.composite_name + " { "@ + pieces(Piece::StructField, p.fields, family_word(fl)) + "}"@
        }),
{
    let p = parse_spec(input, fl)->Ok_0;
    assert(struct_output(input, fl)->Ok_0 =~= p.doc_attr + " "@ + p.derive_attr + " "@ + input.vis@ + " struct "@
        + p.composite_name + " { "@ + pieces(Piece::StructField, p.fields, family_word(fl)) + "}"@);
}

/// The constructor is an inherent method of the input struct, with the input struct's
/// visibility and the family's name (`new_composite` or `new_partial`), and it returns
/// the generated struct.
pub proof fn law_new_shape(input: DeriveInput, fl: Flavor)
    requires
        !enum_rejected(input, fl),
        new_output(input, fl) is Ok,
    ensures
        parse_spec(input, fl) is Ok,
        ({
            let p = parse_spec(input, fl)->Ok_0;
            let w = family_word(fl);
            new_output(input, fl)->Ok_0 == "impl "@ + input.ident@ + " { #[doc = \" Create a new "@ + w
                + " struct from its fields.\"] "@ + input.vis@ + " fn "@ + ("new_"@ + w) + "("@
                + pieces(Piece::Param, p.fields, w) + ") -> "@ + p.composite_name + " { "@ + p.composite_name
                + " { "@ + pieces(Piece::Init, p.fields, w) + "} } }"@
        }),
{
    let p = parse_spec(input, fl)->Ok_0;
    let w = family_word(fl);
    assert(new_output(input, fl)->Ok_0 =~= "impl "@ + input.ident@ + " { #[doc = \" Create a new "@ + w
        + " struct from its fields.\"] "@ + input.vis@ + " fn "@ + ("new_"@ + w) + "("@
        + pieces(Piece::Param, p.fields, w) + ") -> "@ + p.composite_name + " { "@ + p.composite_name
        + " { "@ + pieces(Piece::Init, p.fields, w) + "} } }"@);
}

/// The `Missing` struct carries the input struct's visibility and is named after the
/// generated struct (without `r#`) followed by `Missing`; the conversion implements the
/// family's `From` trait for the input struct, with the `Missing` struct as its `Args`,
/// in the family's method (`from_composite` or `from_partial`).
pub proof fn law_from_shape(input: DeriveInput, fl: Flavor)
    requires
        !enum_rejected(input, fl),
        from_output(input, fl) is Ok,
    ensures
        parse_spec(input, fl) is Ok,
        ({
            let p = parse_spec(input, fl)->Ok_0;
            let w = family_word(fl);
            let m = unraw(p.composite_name) + "Missing"@;
            from_output(input, fl)->Ok_0 == "#[derive(Debug)] "@ + input.vis@ + " struct "@ + m + " { "@
                + pieces(Piece::MissingField, p.fields, w) + "} impl "@ + family_from_trait(fl) + "<"@
                + p.composite_name + "> for "@ + input.ident@ + " { type Args = "@ + m + "; fn "@
                + ("from_"@ + w) + "("@ + w + ": "@ + p.composite_name + ", missing: "@ + m
                + ") -> Self { Self { "@ + pieces(Piece::FromInit, p.fields, w) + "} } }"@
        }),
{
    let p = parse_spec(input, fl)->Ok_0;
    let w = family_word(fl);
    let m = unraw(p.composite_name) + "Missing"@;
    assert(from_output(input, fl)->Ok_0 =~= "#[derive(Debug)] "@ + input.vis@ + " struct "@ + m + " { "@
        + pieces(Piece::MissingField, p.fields, w) + "} impl "@ + family_from_trait(fl) + "<"@
        + p.composite_name + "> for "@ + input.ident@ + " { type Args = "@ + m + "; fn "@
        + ("from_"@ + w) + "("@ + w + ": "@ + p.composite_name + ", missing: "@ + m
        + ") -> Self { Self { "@ + pieces(Piece::FromInit, p.fields, w) + "} } }"@);
}

/// The conversion into the generated struct implements the family's `Into` trait for the
/// input struct, in the family's method (`into_composite` or `into_partial`), and builds
/// the generated struct.
pub proof fn law_into_shape(input: DeriveInput, fl: Flavor)
    requires
        !enum_rejected(input, fl),
        into_output(input, fl) is Ok,
    ensures
        parse_spec(input, fl) is Ok,
        ({
            let p = parse_spec(input, fl)->Ok_0;
            let w = family_word(fl);
            into_output(input, fl)->Ok_0 == "impl "@ + family_into_trait(fl) + "<"@ + p.composite_name + "> for "@
                + input.ident@ + " { fn "@ + ("into_"@ + w) + "(self) -> "@ + p.composite_name + " { "@
                + p.composite_name + " { "@ + pieces(Piece::IntoInit, p.fields, w) + "} } }"@
        }),
{
    let p = parse_spec(input, fl)->Ok_0;
    let w = family_word(fl);
    assert(into_output(input, fl)->Ok_0 =~= "impl "@ + family_into_trait(fl) + "<"@ + p.composite_name + "> for "@
        + input.ident@ + " { fn "@ + ("into_"@ + w) + "(self) -> "@ + p.composite_name + " { "@
        + p.composite_name + " { "@ + pieces(Piece::IntoInit, p.fields, w) + "} } }"@);
}

/// A field marked `option` has `Option < T >` as its type in the generated struct, `T`
/// being its overriding type when it has one (as `syn` prints it) and its own type
/// otherwise, whatever other options it has; a field not so marked has type `T`.
pub proof fn law_field_type(f: FieldModel)
    ensures
        f.option ==> field_type(f) == "Option < "@ + base_type(f) + " >"@,
        !f.option ==> field_type(f) == base_type(f),
        f.ty_override matches Some(t) ==> base_type(f) == syn_type_text(t)->0,
        f.ty_override is None ==> base_type(f) == f.ty,
{
}

/// Each item of a `derive(...)` list is kept whole, with its full path text (`serde ::
/// Deserialize` stays as written); the list is read only when every item is a path.
pub proof fn law_derive_paths_whole(items: Seq<NestedMeta>)
    ensures
        paths_of_items(items) is Ok <==> forall|i: int| 0 <= i < items.len() ==> #[trigger] items[i] matches NestedMeta::Meta(Meta::Path(_), _),
        paths_of_items(items) matches Ok(ps) ==> ps.len() == items.len() && forall|i: int| 0 <= i < items.len()
            ==> (#[trigger] items[i] matches NestedMeta::Meta(Meta::Path(p), _) && ps[i] == p.text@),
    decreases items.len(),
{
    if items.len() > 0 {
        let d = items.drop_last();
        law_derive_paths_whole(d);
        assert forall|i: int| 0 <= i < d.len() implies d[i] == items[i] by {}
        if paths_of_items(items) is Ok {
            let ps = paths_of_items(items)->Ok_0;
            let pd = paths_of_items(d)->Ok_0;
            assert forall|i: int| 0 <= i < items.len() implies (#[trigger] items[i] matches NestedMeta::Meta(Meta::Path(p), _) && ps[i] == p.text@) by {
                if i < d.len() {
                    assert(d[i] == items[i]);
                    assert(ps[i] == pd[i]);
                }
            }
        } else {
            if paths_of_items(d) is Ok {
                let k = items.len() - 1;
                assert(!(items[k] matches NestedMeta::Meta(Meta::Path(_), _)));
            } else {
                let k = choose|i: int| 0 <= i < d.len() && !(#[trigger] d[i] matches NestedMeta::Meta(Meta::Path(_), _));
                assert(d[k] == items[k]);
            }
        }
    }
}

/// The generated struct is named by the `name` option when it is given, and otherwise
/// by the family's word (`Composite` or `Partial`) followed by the input's name without
/// `r#`.
pub proof fn law_generated_name(input: DeriveInput, fl: Flavor)
    requires
        !enum_rejected(input, fl),
        parse_spec(input, fl) is Ok,
    ensures
        ({
            let p = parse_spec(input, fl)->Ok_0;
            let given = slot_text(read_model(struct_schema(), attr_name(fl), input.attrs@).slots[0]);
            &&& given matches Some(n) ==> p.composite_name == n
            &&& given is None ==> p.composite_name == (match fl {
                Flavor::Composite => "Composite"@,
                Flavor::Partial => "Partial"@,
            }) + unraw(input.ident@)
        }),
{
}


/// The generated struct's doc attribute holds, as a string literal, the `doc` option
/// when it is given and otherwise "Composite version of [`Name`]." (or "Partial ...");
/// its derive attribute lists the `derive` option's paths separated by ", ", and is
/// absent when there are none; the input's name and visibility are kept as they are.
pub proof fn law_struct_attributes(input: DeriveInput, fl: Flavor)
    requires
        !enum_rejected(input, fl),
        parse_spec(input, fl) is Ok,
    ensures
        ({
            let p = parse_spec(input, fl)->Ok_0;
            let slots = read_model(struct_schema(), attr_name(fl), input.attrs@).slots;
            let doc = match slot_text(slots[2]) {
                Some(d) => d,
                None => (match fl {
                    Flavor::Composite => "Composite"@,
                    Flavor::Partial => "Partial"@,
                }) + " version of [`"@ + input.ident@ + "`]."@,
            };
            let paths = slot_paths(slots[1]);
            &&& p.doc_attr == "#[doc = "@ + string_literal_text(doc) + "]"@
            &&& paths.len() == 0 ==> p.derive_attr == Seq::<char>::empty()
            &&& paths.len() > 0 ==> p.derive_attr == "#[derive("@ + join(paths, ", "@) + ")]"@
            &&& p.original_name == input.ident@
            &&& p.vis == input.vis@
            &&& input.data matches Data::Struct(fs) && p.fields.len() == fs@.len()
        }),
{
}

/// Which attributes of a field are carried over: read attribute by attribute, in order,
/// and each one is carried exactly when its path is `doc`, `serde` or `cfg` (never the
/// derive's own attribute), with its text and its path's identifier.
pub proof fn law_forwarded(a: Seq<Attribute>, b: Seq<Attribute>, name: Seq<char>)
    ensures
        forwarded(a + b, name) == forwarded(a, name) + forwarded(b, name),
    decreases b.len(),
{
    if b.len() == 0 {
        assert(a + b =~= a);
        assert(forwarded(a, name) + forwarded(b, name) =~= forwarded(a, name));
    } else {
        assert((a + b).drop_last() =~= a + b.drop_last());
        law_forwarded(a, b.drop_last(), name);
        let x = b.last();
        let t = x.meta.spec_path().text@;
        if t != name && (t == "doc"@ || t == "serde"@ || t == "cfg"@) {
            assert(forwarded(a + b, name) =~= forwarded(a, name) + forwarded(b, name));
        } else {
            assert(forwarded(a + b, name) =~= forwarded(a, name) + forwarded(b, name));
        }
    }
}

/// One attribute is carried exactly when its path is `doc`, `serde` or `cfg` and not the
/// derive's own attribute name.
pub proof fn law_forwarded_one(x: Attribute, name: Seq<char>)
    ensures
        ({
            let t = x.meta.spec_path().text@;
            &&& (t != name && (t == "doc"@ || t == "serde"@ || t == "cfg"@))
                ==> forwarded(seq![x], name) == seq![(x.text@, path_ident(x.meta.spec_path()))]
            &&& !(t != name && (t == "doc"@ || t == "serde"@ || t == "cfg"@))
                ==> forwarded(seq![x], name) == Seq::<ForwardedModel>::empty()
        }),
{
    assert(seq![x].drop_last() =~= Seq::<Attribute>::empty());
    assert(seq![x].last() == x);
    assert(forwarded(Seq::<Attribute>::empty(), name) == Seq::<ForwardedModel>::empty());
    assert(forwarded(seq![x], name) == {
        let rest = forwarded(seq![x].drop_last(), name);
        if crate::parse::forwardable(x, name) { rest.push((x.text@, path_ident(x.meta.spec_path()))) } else { rest }
    });
    assert(Seq::<ForwardedModel>::empty().push((x.text@, path_ident(x.meta.spec_path()))) =~= seq![(x.text@, path_ident(x.meta.spec_path()))]);
}


/// A flag is set by the bare word, by a boolean literal, or by the string "true" or
/// "false" (as `str::parse::<bool>` reads them); any other string is refused.
pub proof fn law_flag_values(m: Meta)
    ensures
        m is Path ==> value_of_meta(Kind::Flag, m) == Ok::<ValueModel, crate::options::ProblemModel>(ValueModel::Flag(true)),
        m matches Meta::NameValue(_, Expr::Lit(Lit::Bool(b)))
            ==> value_of_meta(Kind::Flag, m) == Ok::<ValueModel, crate::options::ProblemModel>(ValueModel::Flag(b)),
        m matches Meta::NameValue(_, Expr::Lit(Lit::Str(s, _))) ==> (
            value_of_meta(Kind::Flag, m) is Ok <==> (s@ == "true"@ || s@ == "false"@)),
        m matches Meta::NameValue(_, Expr::Lit(Lit::Str(s, _))) && s@ == "true"@
            ==> value_of_meta(Kind::Flag, m) == Ok::<ValueModel, crate::options::ProblemModel>(ValueModel::Flag(true)),
        m matches Meta::NameValue(_, Expr::Lit(Lit::Str(s, _))) && s@ == "false"@
            ==> value_of_meta(Kind::Flag, m) == Ok::<ValueModel, crate::options::ProblemModel>(ValueModel::Flag(false)),
        m is List ==> value_of_meta(Kind::Flag, m) is Err,
{
    reveal_strlit("true");
    reveal_strlit("false");
    assert("true"@ != "false"@) by {
        assert("true"@.len() != "false"@.len());
    }
}

/// A text option (`rename`, `ty_override`, `doc`) takes exactly a string literal, whose
/// value is kept as written; every other form is refused.
pub proof fn law_text_values(m: Meta)
    ensures
        value_of_meta(Kind::Text, m) is Ok <==> m matches Meta::NameValue(_, Expr::Lit(Lit::Str(_, _))),
        m matches Meta::NameValue(_, Expr::Lit(Lit::Str(s, _)))
            ==> value_of_meta(Kind::Text, m) == Ok::<ValueModel, crate::options::ProblemModel>(ValueModel::Text(s@)),
{
}

/// `.into()` between a type and itself gives the value back, and into `Option` of the
/// same type gives `Some` of it: the standard library's `From<T> for T` and
/// `From<T> for Option<T>`.
pub proof fn law_convert_std(v: Value, t: Seq<char>)
    ensures
        convert(v, t, t) == v,
        convert(v, t, "Option < "@ + t + " >"@) == Value::Opt(Some(Box::new(v))),
{
    assert("Option < "@ + t + " >"@ != t) by {
        reveal_strlit("Option < ");
        assert(("Option < "@ + t + " >"@).len() > t.len());
    }
}

} // verus!
