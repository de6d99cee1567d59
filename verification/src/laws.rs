//! Properties that tie the generated items together.
use vstd::prelude::*;
use crate::values::{
    composite_names, conforms, from_fields, into_fields, is_extra, missing_fields, missing_names,
    new_fields, original_names, carried, FieldPlan, Value,
};
use crate::options::{items_fold, attrs_fold, attr_step, find_key, item_step, lemma_find_key_bounds, path_string, AccModel, Kind};
use crate::syntax::{Attribute, Meta, MetaList, NestedMeta};
use crate::parse::{FieldModel, ParsedModel};
use crate::values::{field_plan_of, plan_of, Plan};
use crate::generate::{check, first_failure, from_output, from_text, into_output, into_text, lemma_no_failure, new_output, new_text, pieces, struct_output, struct_text, Check, Piece};
use crate::parse::{enum_rejected, parse_spec};
use crate::syntax::{DeriveInput, Flavor};
use crate::options::attr_name;
use crate::values::plan_result;
use crate::parse::Failure;
use crate::fields::needs_extra;

verus! {

/// The names and values of a record's fields, names taken by their text.
pub open spec fn named_values(r: Seq<(String, Value)>) -> Seq<(Seq<char>, Value)> {
    r.map_values(|p: (String, Value)| (p.0@, p.1))
}

/// The names of a record's fields.
pub open spec fn names_of(r: Seq<(String, Value)>) -> Seq<Seq<char>> {
    r.map_values(|p: (String, Value)| p.0@)
}

/// A record is a value of a struct exactly when its names are the struct's fields.
pub proof fn lemma_conforms_names(r: Seq<(String, Value)>, names: Seq<Seq<char>>)
    ensures
        conforms(r, names) <==> names_of(r) == names,
{
    if conforms(r, names) {
        assert(names_of(r) =~= names);
    }
    if names_of(r) == names {
        assert forall|i: int| 0 <= i < r.len() implies (#[trigger] r[i]).0@ == names[i] by {
            assert(names_of(r)[i] == r[i].0@);
        }
    }
}

/// The conversion into the generated struct gives a value of the generated struct, and
/// the fields that it leaves behind form a value of the `Missing` struct.
pub proof fn law_into_conforms(fps: Seq<FieldPlan>, x: Seq<(String, Value)>)
    requires
        conforms(x, original_names(fps)),
    ensures
        conforms(into_fields(fps, x), composite_names(fps)),
        conforms(missing_fields(fps, x), missing_names(fps)),
{
    lemma_into_names(fps, x);
    lemma_conforms_names(into_fields(fps, x), composite_names(fps));
    lemma_conforms_names(missing_fields(fps, x), missing_names(fps));
}

proof fn lemma_into_names(fps: Seq<FieldPlan>, x: Seq<(String, Value)>)
    requires
        conforms(x, original_names(fps)),
    ensures
        names_of(into_fields(fps, x)) == composite_names(fps),
        names_of(missing_fields(fps, x)) == missing_names(fps),
    decreases fps.len(),
{
    if fps.len() > 0 {
        let fd = fps.drop_last();
        let xd = x.drop_last();
        assert forall|i: int| 0 <= i < xd.len() implies (#[trigger] xd[i]).0@ == original_names(fd)[i] by {
            assert(xd[i] == x[i]);
            assert(original_names(fps)[i] == fps[i].original@);
        }
        lemma_into_names(fd, xd);
        let f = fps.last();
        assert(x.last().0@ == original_names(fps)[fps.len() - 1]);
        if f.skip {
            assert(into_fields(fps, x) =~= into_fields(fd, xd));
        } else {
            assert(names_of(into_fields(fps, x)) =~= names_of(into_fields(fd, xd)).push(f.name@));
        }
        if is_extra(f) {
            assert(names_of(missing_fields(fps, x)) =~= names_of(missing_fields(fd, xd)).push(f.original@));
        } else {
            assert(missing_fields(fps, x) =~= missing_fields(fd, xd));
        }
        assert(names_of(into_fields(fps, x)) =~= composite_names(fps));
        assert(names_of(missing_fields(fps, x)) =~= missing_names(fps));
    } else {
        assert(names_of(into_fields(fps, x)) =~= composite_names(fps));
        assert(names_of(missing_fields(fps, x)) =~= missing_names(fps));
    }
}

/// Converting a value into the generated struct and rebuilding it from the result and
/// the fields left behind gives the value back.
pub proof fn law_roundtrip_from_into(fps: Seq<FieldPlan>, x: Seq<(String, Value)>)
    requires
        conforms(x, original_names(fps)),
    ensures
        named_values(from_fields(fps, into_fields(fps, x), missing_fields(fps, x))) == named_values(x),
    decreases fps.len(),
{
    if fps.len() > 0 {
        let fd = fps.drop_last();
        let xd = x.drop_last();
        assert forall|i: int| 0 <= i < xd.len() implies (#[trigger] xd[i]).0@ == original_names(fd)[i] by {
            assert(xd[i] == x[i]);
            assert(original_names(fps)[i] == fps[i].original@);
        }
        law_roundtrip_from_into(fd, xd);
        let f = fps.last();
        assert(x.last().0@ == original_names(fps)[fps.len() - 1]);
        let cs = into_fields(fps, x);
        let ms = missing_fields(fps, x);
        if f.skip {
            assert(cs =~= into_fields(fd, xd));
        } else {
            assert(cs.drop_last() =~= into_fields(fd, xd));
        }
        if is_extra(f) {
            assert(ms.drop_last() =~= missing_fields(fd, xd));
        } else {
            assert(ms =~= missing_fields(fd, xd));
        }
        assert(named_values(from_fields(fps, cs, ms)) =~= named_values(from_fields(fd, into_fields(fd, xd), missing_fields(fd, xd))).push((f.original@, x.last().1)));
        assert(named_values(x) =~= named_values(xd).push((x.last().0@, x.last().1)));
    } else {
        assert(named_values(from_fields(fps, into_fields(fps, x), missing_fields(fps, x))) =~= named_values(x));
    }
}

/// Whether every field of the generated struct holds the input field's value unchanged.
pub open spec fn all_direct(fps: Seq<FieldPlan>) -> bool {
    forall|i: int| 0 <= i < fps.len() ==> !(#[trigger] fps[i]).skip ==> !fps[i].option && !fps[i].converted
}

/// When every field of the generated struct holds its input field unchanged, rebuilding
/// the input struct from a value of the generated struct and converting it back gives
/// that value back.
pub proof fn law_roundtrip_into_from(fps: Seq<FieldPlan>, c: Seq<(String, Value)>, m: Seq<(String, Value)>)
    requires
        all_direct(fps),
        conforms(c, composite_names(fps)),
        conforms(m, missing_names(fps)),
    ensures
        named_values(into_fields(fps, from_fields(fps, c, m))) == named_values(c),
    decreases fps.len(),
{
    lemma_conforms_names(c, composite_names(fps));
    lemma_conforms_names(m, missing_names(fps));
    if fps.len() > 0 {
        let fd = fps.drop_last();
        let f = fps.last();
        let cd = if f.skip { c } else { c.drop_last() };
        let md = if is_extra(f) { m.drop_last() } else { m };
        assert(all_direct(fd)) by {
            assert forall|i: int| 0 <= i < fd.len() && !(#[trigger] fd[i]).skip implies !fd[i].option && !fd[i].converted by {
                assert(fd[i] == fps[i]);
            }
        }
        if f.skip {
            assert(composite_names(fps) =~= composite_names(fd));
        } else {
            assert(composite_names(fps).drop_last() =~= composite_names(fd));
            assert(names_of(c.drop_last()) =~= names_of(c).drop_last());
        }
        if is_extra(f) {
            assert(missing_names(fps).drop_last() =~= missing_names(fd));
            assert(names_of(m.drop_last()) =~= names_of(m).drop_last());
        } else {
            assert(missing_names(fps) =~= missing_names(fd));
        }
        lemma_conforms_names(cd, composite_names(fd));
        lemma_conforms_names(md, missing_names(fd));
        law_roundtrip_into_from(fd, cd, md);
        let y = from_fields(fps, c, m);
        assert(y.drop_last() =~= from_fields(fd, cd, md));
        if f.skip {
            assert(into_fields(fps, y) =~= into_fields(fd, y.drop_last()));
        } else {
            assert(!f.option && !f.converted);
            assert(carried(f, c.last().1) == c.last().1);
            assert(names_of(c)[c.len() - 1] == f.name@);
            assert(named_values(into_fields(fps, y)) =~= named_values(into_fields(fd, y.drop_last())).push((f.name@, c.last().1)));
            assert(named_values(c) =~= named_values(c.drop_last()).push((c.last().0@, c.last().1)));
        }
    } else {
        assert(named_values(into_fields(fps, from_fields(fps, c, m))) =~= named_values(c));
    }
}

/// The values of a record's fields.
pub open spec fn values_of(r: Seq<(String, Value)>) -> Seq<Value> {
    r.map_values(|p: (String, Value)| p.1)
}

/// The generated constructor gives a value of the generated struct whose fields hold
/// the arguments, in order.
pub proof fn law_new_composite(fps: Seq<FieldPlan>, args: Seq<Value>)
    requires
        args.len() == composite_names(fps).len(),
    ensures
        conforms(new_fields(fps, args), composite_names(fps)),
        values_of(new_fields(fps, args)) == args,
    decreases fps.len(),
{
    if fps.len() > 0 {
        let fd = fps.drop_last();
        let f = fps.last();
        if f.skip {
            assert(composite_names(fps) =~= composite_names(fd));
            law_new_composite(fd, args);
        } else {
            assert(composite_names(fps) =~= composite_names(fd).push(f.name@));
            law_new_composite(fd, args.drop_last());
            lemma_conforms_names(new_fields(fd, args.drop_last()), composite_names(fd));
            assert(names_of(new_fields(fps, args)) =~= names_of(new_fields(fd, args.drop_last())).push(f.name@));
            assert(values_of(new_fields(fps, args)) =~= values_of(new_fields(fd, args.drop_last())).push(args.last()));
            assert(args =~= args.drop_last().push(args.last()));
        }
        lemma_conforms_names(new_fields(fps, args), composite_names(fps));
    } else {
        assert(values_of(new_fields(fps, args)) =~= args);
    }
}

// ---------------------------------------------------------------------------
// The attribute grammar
// ---------------------------------------------------------------------------

/// Reading the items `a` and then the items `b` is reading `a + b`.
pub proof fn lemma_items_fold_append(schema: Seq<(Seq<char>, Kind)>, acc: AccModel, a: Seq<NestedMeta>, b: Seq<NestedMeta>)
    ensures
        items_fold(schema, acc, a + b) == items_fold(schema, items_fold(schema, acc, a), b),
    decreases b.len(),
{
    if b.len() == 0 {
        assert(a + b =~= a);
    } else {
        assert((a + b).drop_last() =~= a + b.drop_last());
        lemma_items_fold_append(schema, acc, a, b.drop_last());
    }
}

/// Options may be split over several attributes: two attributes of the derive's name
/// read as one attribute holding the items of both, in order.
pub proof fn law_split_attributes(
    schema: Seq<(Seq<char>, Kind)>,
    name: Seq<char>,
    acc: AccModel,
    first: Attribute,
    second: Attribute,
    joined: Attribute,
)
    requires
        first.meta matches Meta::List(p, MetaList::Items(a)) && p.text@ == name,
        second.meta matches Meta::List(q, MetaList::Items(b)) && q.text@ == name,
        joined.meta matches Meta::List(j, MetaList::Items(c)) && j.text@ == name
            && c@ == first.meta->List_1->Items_0@ + second.meta->List_1->Items_0@,
    ensures
        attrs_fold(schema, name, acc, seq![first, second]) == attrs_fold(schema, name, acc, seq![joined]),
{
    let a = first.meta->List_1->Items_0@;
    let b = second.meta->List_1->Items_0@;
    assert(seq![first, second].drop_last() =~= seq![first]);
    assert(seq![first].drop_last() =~= Seq::<Attribute>::empty());
    assert(seq![joined].drop_last() =~= Seq::<Attribute>::empty());
    lemma_items_fold_append(schema, acc, a, b);
    let e = Seq::<Attribute>::empty();
    assert(attrs_fold(schema, name, acc, e) == acc);
    assert(attrs_fold(schema, name, acc, seq![first]) == attr_step(schema, name, acc, first));
    assert(attr_step(schema, name, acc, first) == items_fold(schema, acc, a));
    assert(attrs_fold(schema, name, acc, seq![first, second])
        == attr_step(schema, name, attrs_fold(schema, name, acc, seq![first]), second));
    assert(attrs_fold(schema, name, acc, seq![joined]) == attr_step(schema, name, acc, joined));
    assert(attr_step(schema, name, acc, joined) == items_fold(schema, acc, a + b));
}


// ---------------------------------------------------------------------------
// The generated text and the plan
// ---------------------------------------------------------------------------

/// Each name followed by `, `.
pub open spec fn comma_list(names: Seq<Seq<char>>) -> Seq<char>
    decreases names.len(),
{
    if names.len() == 0 {
        Seq::empty()
    } else {
        comma_list(names.drop_last()) + names.last() + ", "@
    }
}

/// The type of a field of the generated struct, by the plan: `Option < T >` exactly when
/// the field is wrapped, `T` being its type before wrapping.
pub open spec fn declared(fp: FieldPlan) -> Seq<char> {
    if fp.option { "Option < "@ + fp.target@ + " >"@ } else { fp.target@ }
}

/// The constructor's parameters, by the plan.
pub open spec fn params(fps: Seq<FieldPlan>) -> Seq<char>
    decreases fps.len(),
{
    if fps.len() == 0 {
        Seq::empty()
    } else {
        params(fps.drop_last()) + if fps.last().skip {
            Seq::empty()
        } else {
            fps.last().name@ + ": "@ + declared(fps.last()) + ", "@
        }
    }
}

/// The generated struct's field declarations: each kept field's carried attributes and
/// visibility, then its name and type by the plan.
pub open spec fn struct_decls(fs: Seq<FieldModel>, fps: Seq<FieldPlan>, ctx: Seq<char>) -> Seq<char>
    decreases fs.len(),
{
    if fs.len() == 0 || fps.len() == 0 {
        Seq::empty()
    } else {
        struct_decls(fs.drop_last(), fps.drop_last(), ctx) + if fps.last().skip {
            Seq::empty()
        } else {
            crate::fields::attrs_text(fs.last().attrs, ctx) + fs.last().vis + " "@ + fps.last().name@ + ": "@
                + declared(fps.last()) + ", "@
        }
    }
}

/// The source of a field's value in the conversion into the generated struct.
pub open spec fn into_expr(fp: FieldPlan) -> Seq<char> {
    let orig = "self."@ + fp.original@;
    if fp.option && fp.converted {
        "Some("@ + orig + ".into())"@
    } else if fp.option {
        "Some("@ + orig + ")"@
    } else if fp.converted {
        orig + ".into()"@
    } else {
        orig
    }
}

/// The initializers of the conversion into the generated struct, by the plan.
pub open spec fn into_inits(fps: Seq<FieldPlan>) -> Seq<char>
    decreases fps.len(),
{
    if fps.len() == 0 {
        Seq::empty()
    } else {
        into_inits(fps.drop_last()) + if fps.last().skip {
            Seq::empty()
        } else {
            fps.last().name@ + ": "@ + into_expr(fps.last()) + ", "@
        }
    }
}

/// The initializers of the conversion from the generated struct (named `ctx`), by the plan.
pub open spec fn from_inits(fps: Seq<FieldPlan>, ctx: Seq<char>) -> Seq<char>
    decreases fps.len(),
{
    if fps.len() == 0 {
        Seq::empty()
    } else {
        let f = fps.last();
        from_inits(fps.drop_last(), ctx) + f.original@ + ": "@ + (if is_extra(f) {
            "missing."@ + f.original@
        } else {
            ctx + "."@ + f.name@
        }) + ", "@
    }
}

/// The declarations `name: type, ` of the fields that the plan leaves behind.
pub open spec fn missing_decls(fps: Seq<FieldPlan>) -> Seq<char>
    decreases fps.len(),
{
    if fps.len() == 0 {
        Seq::empty()
    } else {
        missing_decls(fps.drop_last()) + if is_extra(fps.last()) {
            fps.last().original@ + ": "@ + fps.last().ty@ + ", "@
        } else {
            Seq::empty()
        }
    }
}

proof fn lemma_plan_prefix(p: ParsedModel, plan: Plan, ctx: Seq<char>, n: int)
    requires
        plan_of(p, plan),
        0 <= n <= p.fields.len(),
    ensures
        pieces(Piece::Init, p.fields.take(n), ctx) == comma_list(composite_names(plan.fields@.take(n))),
        pieces(Piece::MissingField, p.fields.take(n), ctx) == missing_decls(plan.fields@.take(n)),
        pieces(Piece::FromInit, p.fields.take(n), ctx) == from_inits(plan.fields@.take(n), ctx),
        pieces(Piece::IntoInit, p.fields.take(n), ctx) == into_inits(plan.fields@.take(n)),
        pieces(Piece::Param, p.fields.take(n), ctx) == params(plan.fields@.take(n)),
        pieces(Piece::StructField, p.fields.take(n), ctx) == struct_decls(p.fields.take(n), plan.fields@.take(n), ctx),
    decreases n,
{
    let fs = p.fields.take(n);
    let fps = plan.fields@.take(n);
    if n > 0 {
        lemma_plan_prefix(p, plan, ctx, n - 1);
        assert(fs.drop_last() =~= p.fields.take(n - 1));
        assert(fps.drop_last() =~= plan.fields@.take(n - 1));
        let f = p.fields[n - 1];
        let fp = plan.fields@[n - 1];
        assert(field_plan_of(f, fp));
        assert(fs.last() == f);
        assert(fps.last() == fp);
        assert(needs_extra(f) == is_extra(fp));
        if fp.skip {
            assert(composite_names(fps) =~= composite_names(fps.drop_last()));
        } else {
            let prev = composite_names(fps.drop_last());
            assert(composite_names(fps) =~= prev.push(fp.name@));
            assert(prev.push(fp.name@).drop_last() =~= prev);
            assert(comma_list(composite_names(fps)) =~= comma_list(composite_names(fps.drop_last())) + fp.name@ + ", "@);
        }
    } else {
        assert(fs =~= Seq::<FieldModel>::empty());
        assert(fps =~= Seq::<FieldPlan>::empty());
        assert(composite_names(fps) =~= Seq::<Seq<char>>::empty());
    }
}

/// The generated text does what the plan does: the constructor initializes exactly the
/// fields of the generated struct, in order; the `Missing` struct declares exactly the
/// fields that the plan leaves behind, with their original types; the conversion from
/// the generated struct reads each field from `missing` exactly when [`from_fields`]
/// takes it from the `Missing` value, else from the generated struct's field of the
/// plan's name; and the conversion into the generated struct writes `Some(..)` exactly
/// where [`carried`] wraps in `Some` and `.into()` exactly where it converts.
pub proof fn law_text_matches_plan(p: ParsedModel, plan: Plan, ctx: Seq<char>)
    requires
        plan_of(p, plan),
    ensures
        pieces(Piece::Init, p.fields, ctx) == comma_list(composite_names(plan.fields@)),
        pieces(Piece::MissingField, p.fields, ctx) == missing_decls(plan.fields@),
        pieces(Piece::FromInit, p.fields, ctx) == from_inits(plan.fields@, ctx),
        pieces(Piece::IntoInit, p.fields, ctx) == into_inits(plan.fields@),
        pieces(Piece::Param, p.fields, ctx) == params(plan.fields@),
        pieces(Piece::StructField, p.fields, ctx) == struct_decls(p.fields, plan.fields@, ctx),
{
    lemma_plan_prefix(p, plan, ctx, p.fields.len() as int);
    assert(p.fields.take(p.fields.len() as int) =~= p.fields);
    assert(plan.fields@.take(p.fields.len() as int) =~= plan.fields@);
}


/// The key that an item names, if it names one of the schema.
pub open spec fn item_key(schema: Seq<(Seq<char>, Kind)>, item: NestedMeta) -> Option<int> {
    match item {
        NestedMeta::Meta(m, _) => find_key(schema, path_string(m.spec_path())),
        NestedMeta::Lit(_, _) => None,
    }
}

/// Items for different keys may be given in either order: the options read are the
/// same, and so are the problems when both items are read without one.
pub proof fn law_distinct_keys_commute(schema: Seq<(Seq<char>, Kind)>, acc: AccModel, a: NestedMeta, b: NestedMeta)
    requires
        acc.slots.len() == schema.len(),
        item_key(schema, a) is Some,
        item_key(schema, b) is Some,
        item_key(schema, a) != item_key(schema, b),
    ensures
        item_step(schema, item_step(schema, acc, a), b).slots == item_step(schema, item_step(schema, acc, b), a).slots,
        item_step(schema, acc, a).errors == acc.errors && item_step(schema, acc, b).errors == acc.errors
            ==> item_step(schema, item_step(schema, acc, a), b).errors == item_step(schema, item_step(schema, acc, b), a).errors,
{
    let ma = a->Meta_0;
    let mb = b->Meta_0;
    lemma_find_key_bounds(schema, path_string(ma.spec_path()), 0);
    lemma_find_key_bounds(schema, path_string(mb.spec_path()), 0);
    let ka = item_key(schema, a)->0;
    let kb = item_key(schema, b)->0;
    let sa = item_step(schema, acc, a);
    let sb = item_step(schema, acc, b);
    assert(sa.slots.len() == schema.len());
    assert(sb.slots.len() == schema.len());
    assert(sa.slots[kb] == acc.slots[kb]);
    assert(sb.slots[ka] == acc.slots[ka]);
    let ab = item_step(schema, sa, b);
    let ba = item_step(schema, sb, a);
    assert(ab.slots =~= ba.slots);
}


// ---------------------------------------------------------------------------
// Rebuilding from the generated struct
// ---------------------------------------------------------------------------

/// The values of the generated struct's fields that come from direct fields (neither
/// wrapped in `Option` nor converted), in order.
pub open spec fn direct_values(fps: Seq<FieldPlan>, c: Seq<(String, Value)>) -> Seq<Value>
    decreases fps.len(),
{
    if fps.len() == 0 {
        Seq::empty()
    } else {
        let f = fps.last();
        if f.skip {
            direct_values(fps.drop_last(), c)
        } else if is_extra(f) {
            direct_values(fps.drop_last(), c.drop_last())
        } else {
            direct_values(fps.drop_last(), c.drop_last()).push(c.last().1)
        }
    }
}

/// Rebuilding the input struct reads only the generated struct's fields that come from
/// direct fields: two values of the generated struct that agree there rebuild the same
/// value with the same `Missing` value, whatever their `Option`-wrapped or converted
/// fields hold.
pub proof fn law_from_ignores_wrapped(
    fps: Seq<FieldPlan>,
    c1: Seq<(String, Value)>,
    c2: Seq<(String, Value)>,
    m: Seq<(String, Value)>,
)
    requires
        c1.len() == composite_names(fps).len(),
        c2.len() == composite_names(fps).len(),
        direct_values(fps, c1) == direct_values(fps, c2),
    ensures
        from_fields(fps, c1, m) == from_fields(fps, c2, m),
    decreases fps.len(),
{
    if fps.len() > 0 {
        let fd = fps.drop_last();
        let f = fps.last();
        if f.skip {
            assert(composite_names(fps) =~= composite_names(fd));
            law_from_ignores_wrapped(fd, c1, c2, if is_extra(f) { m.drop_last() } else { m });
        } else {
            assert(composite_names(fps) =~= composite_names(fd).push(f.name@));
            if !is_extra(f) {
                let d1 = direct_values(fd, c1.drop_last());
                let d2 = direct_values(fd, c2.drop_last());
                assert(d1.push(c1.last().1) == d2.push(c2.last().1));
                assert(d1 =~= d1.push(c1.last().1).drop_last());
                assert(d2 =~= d2.push(c2.last().1).drop_last());
                assert(c1.last().1 == d1.push(c1.last().1).last());
            }
            law_from_ignores_wrapped(fd, c1.drop_last(), c2.drop_last(), if is_extra(f) { m.drop_last() } else { m });
        }
    }
}

/// What converting a rebuilt input struct back gives: for a field kept direct, the
/// generated struct's value; for one wrapped in `Option` or converted, the `Missing`
/// value wrapped or converted (`Some(m.f)`, `m.f.into()`, `Some(m.f.into())`).
pub open spec fn rebuilt_into(fps: Seq<FieldPlan>, c: Seq<(String, Value)>, m: Seq<(String, Value)>) -> Seq<(Seq<char>, Value)>
    decreases fps.len(),
{
    if fps.len() == 0 {
        Seq::empty()
    } else {
        let f = fps.last();
        let cd = if f.skip { c } else { c.drop_last() };
        let md = if is_extra(f) { m.drop_last() } else { m };
        rebuilt_into(fps.drop_last(), cd, md) + if f.skip {
            Seq::empty()
        } else {
            seq![(f.name@, if is_extra(f) { carried(f, m.last().1) } else { c.last().1 })]
        }
    }
}

/// Rebuilding the input struct from a value of the generated struct and a `Missing`
/// value, then converting it back, gives [`rebuilt_into`]: direct fields come back
/// unchanged, wrapped or converted ones come from the `Missing` value.
pub proof fn law_rebuild_then_into(fps: Seq<FieldPlan>, c: Seq<(String, Value)>, m: Seq<(String, Value)>)
    requires
        c.len() == composite_names(fps).len(),
        m.len() == missing_names(fps).len(),
    ensures
        named_values(into_fields(fps, from_fields(fps, c, m))) == rebuilt_into(fps, c, m),
    decreases fps.len(),
{
    if fps.len() > 0 {
        let fd = fps.drop_last();
        let f = fps.last();
        let cd = if f.skip { c } else { c.drop_last() };
        let md = if is_extra(f) { m.drop_last() } else { m };
        if f.skip {
            assert(composite_names(fps) =~= composite_names(fd));
        } else {
            assert(composite_names(fps) =~= composite_names(fd).push(f.name@));
        }
        if is_extra(f) {
            assert(missing_names(fps) =~= missing_names(fd).push(f.original@));
        } else {
            assert(missing_names(fps) =~= missing_names(fd));
        }
        law_rebuild_then_into(fd, cd, md);
        let y = from_fields(fps, c, m);
        assert(y.drop_last() =~= from_fields(fd, cd, md));
        if f.skip {
            assert(into_fields(fps, y) =~= into_fields(fd, y.drop_last()));
        } else {
            let v = if is_extra(f) { m.last().1 } else { c.last().1 };
            assert(y.last().1 == v);
            if !is_extra(f) {
                assert(carried(f, v) == v);
            }
            assert(named_values(into_fields(fps, y)) =~= named_values(into_fields(fd, y.drop_last())).push((f.name@, carried(f, v))));
        }
    } else {
        assert(named_values(into_fields(fps, from_fields(fps, c, m))) =~= rebuilt_into(fps, c, m));
    }
}


// ---------------------------------------------------------------------------
// The derives and the plan
// ---------------------------------------------------------------------------

proof fn lemma_all_fields_pass(kind: Check, fs: Seq<FieldModel>)
    requires
        forall|i: int| 0 <= i < fs.len() ==> check(kind, #[trigger] fs[i]) is None,
    ensures
        first_failure(kind, fs) is None,
    decreases fs.len(),
{
    if fs.len() > 0 {
        assert forall|i: int| 0 <= i < fs.drop_last().len() implies check(kind, #[trigger] fs.drop_last()[i]) is None by {
            assert(fs.drop_last()[i] == fs[i]);
        }
        lemma_all_fields_pass(kind, fs.drop_last());
        assert(check(kind, fs[fs.len() - 1]) is None);
    }
}

/// When the input has a plan, each of the four derives succeeds, and the field-by-field
/// parts of what they emit are the plan's: the constructor fills the plan's generated
/// fields, the `Missing` struct holds the fields the plan leaves behind, the conversion
/// from the generated struct reads each field where [`from_fields`] takes it, and the
/// conversion into it writes each field as [`into_fields`] carries it.
pub proof fn law_derives_follow_plan(input: DeriveInput, fl: Flavor, plan: Plan)
    requires
        !enum_rejected(input, fl),
        plan_result(input, fl, Ok::<Plan, Failure>(plan)),
    ensures
        parse_spec(input, fl) is Ok,
        ({
            let p = parse_spec(input, fl)->Ok_0;
            &&& struct_output(input, fl) == Ok::<Seq<char>, crate::parse::FailureModel>(struct_text(p, fl))
            &&& new_output(input, fl) == Ok::<Seq<char>, crate::parse::FailureModel>(new_text(p, fl))
            &&& from_output(input, fl) == Ok::<Seq<char>, crate::parse::FailureModel>(from_text(p, fl))
            &&& into_output(input, fl) == Ok::<Seq<char>, crate::parse::FailureModel>(into_text(p, fl))
            &&& pieces(Piece::Init, p.fields, attr_name(fl)) == comma_list(composite_names(plan.fields@))
            &&& pieces(Piece::MissingField, p.fields, attr_name(fl)) == missing_decls(plan.fields@)
            &&& pieces(Piece::FromInit, p.fields, attr_name(fl)) == from_inits(plan.fields@, attr_name(fl))
            &&& pieces(Piece::IntoInit, p.fields, attr_name(fl)) == into_inits(plan.fields@)
        }),
{
    let p = parse_spec(input, fl)->Ok_0;
    assert(first_failure(Check::Plan, p.fields) is None);
    lemma_no_failure(Check::Plan, p.fields);
    assert forall|i: int| 0 <= i < p.fields.len() implies
        check(Check::Shape, #[trigger] p.fields[i]) is None
        && check(Check::Extra, p.fields[i]) is None
        && check(Check::From, p.fields[i]) is None
        && check(Check::Into, p.fields[i]) is None by {
        assert(check(Check::Plan, p.fields[i]) is None);
    }
    lemma_all_fields_pass(Check::Shape, p.fields);
    lemma_all_fields_pass(Check::Extra, p.fields);
    lemma_all_fields_pass(Check::From, p.fields);
    lemma_all_fields_pass(Check::Into, p.fields);
    law_text_matches_plan(p, plan, attr_name(fl));
}

} // verus!
