use composite_derive::generate::{derive_composite, derive_from_composite, derive_into_composite, derive_new_composite, derive_partial};
use composite_derive::options::{AttrError, Problem};
use composite_derive::parse::{is_rejected_enum, parse_input, Failure};
use composite_derive::syntax::{Attribute, Data, DeriveInput, Expr, Field, Flavor, Lit, Meta, MetaList, NestedMeta, SynPath};
use composite_derive::values::{plan_for, Record, Value};

fn p(text: &str) -> SynPath {
    SynPath {
        segments: text.split("::").map(|s| s.to_string()).collect(),
        leading_colon: false,
        has_arguments: false,
        text: text.to_string(),
    }
}

fn word(key: &str) -> NestedMeta {
    NestedMeta::Meta(Meta::Path(p(key)), key.to_string())
}

fn kv(key: &str, value: Lit, text: &str) -> NestedMeta {
    NestedMeta::Meta(Meta::NameValue(p(key), Expr::Lit(value)), text.to_string())
}

fn kv_str(key: &str, value: &str) -> NestedMeta {
    kv(key, Lit::Str(value.to_string(), String::new()), &format!("{} = {:?}", key, value))
}

fn kv_path(key: &str, value: &str) -> NestedMeta {
    NestedMeta::Meta(Meta::NameValue(p(key), Expr::Path(p(value))), format!("{} = {}", key, value))
}

fn derives(names: &[&str]) -> NestedMeta {
    NestedMeta::Meta(
        Meta::List(p("derive"), MetaList::Items(names.iter().map(|n| word(n)).collect())),
        format!("derive({})", names.join(", ")),
    )
}

fn attr(items: Vec<NestedMeta>) -> Attribute {
    Attribute { meta: Meta::List(p("composite"), MetaList::Items(items)), text: "#[composite(...)]".to_string() }
}

fn doc_attr(text: &str) -> Attribute {
    Attribute {
        meta: Meta::NameValue(p("doc"), Expr::Lit(Lit::Str(text.to_string(), String::new()))),
        text: format!("#[doc = {:?}]", text),
    }
}

fn fld(name: &str, ty: &str, attrs: Vec<Attribute>) -> Field {
    Field { ident: Some(name.to_string()), vis: String::new(), ty: ty.to_string(), attrs }
}

fn strukt(name: &str, attrs: Vec<Attribute>, fields: Vec<Field>) -> DeriveInput {
    DeriveInput { ident: name.to_string(), vis: String::new(), attrs, data: Data::Struct(fields) }
}

fn user() -> DeriveInput {
    strukt(
        "User",
        vec![attr(vec![kv_path("name", "CreateUser"), derives(&["Debug", "PartialEq", "Deserialize"])])],
        vec![
            fld("id", "u64", vec![attr(vec![word("skip")]), doc_attr(" user ID")]),
            fld("name", "String", vec![attr(vec![kv_str("rename", "username")]), doc_attr(" username")]),
            fld("location", "String", vec![attr(vec![word("option")])]),
            fld("email", "String", vec![]),
        ],
    )
}

fn order() -> DeriveInput {
    strukt(
        "Order",
        vec![attr(vec![kv_path("name", "CreateOrder")])],
        vec![
            fld("id", "u64", vec![attr(vec![word("skip")])]),
            fld("product_name", "String", vec![attr(vec![kv_str("rename", "product")])]),
            fld("quantity", "u32", vec![]),
            fld("notes", "String", vec![attr(vec![word("option")])]),
        ],
    )
}

fn attr_errors(r: Result<String, Failure>) -> Vec<AttrError> {
    match r {
        Err(Failure::Attributes(es)) => es,
        _ => panic!("expected attribute errors"),
    }
}

fn problem_text(p: &Problem) -> String {
    match p {
        Problem::Custom(m) => format!("custom {}", m),
        Problem::DuplicateField(n) => format!("duplicate {}", n),
        Problem::UnknownField(n, alts) => format!("unknown {} [{}]", n, alts.join(", ")),
        Problem::UnexpectedFormat(f) => format!("format {}", f),
        Problem::UnexpectedType(t) => format!("type {}", t),
        Problem::UnknownValue(v) => format!("value {}", v),
    }
}

fn described(es: &[AttrError]) -> Vec<String> {
    es.iter().map(|e| format!("{} at {}", problem_text(&e.problem), e.locations.join("/"))).collect()
}

// ---------------------------------------------------------------------------
// The generated text
// ---------------------------------------------------------------------------

#[test]
fn struct_text_of_user() {
    let t = derive_composite(&user()).ok().unwrap();
    assert_eq!(
        t,
        "#[doc = \"Composite version of [`User`].\"] #[derive(Debug, PartialEq, Deserialize)]  struct CreateUser { \
         #[doc = \" username\"]  username: String,  location: Option < String >,  email: String, }"
    );
}

#[test]
fn generated_text_parses_as_rust() {
    for t in [
        derive_composite(&user()).ok().unwrap(),
        derive_new_composite(&order()).ok().unwrap(),
        derive_from_composite(&order()).ok().unwrap(),
        derive_into_composite(&order()).ok().unwrap(),
    ] {
        assert!(syn::parse_file(&t).is_ok(), "{}", t);
    }
}

#[test]
fn new_text_of_order() {
    let t = derive_new_composite(&order()).ok().unwrap();
    assert_eq!(
        t,
        "impl Order { #[doc = \" Create a new composite struct from its fields.\"]  fn new_composite(\
         product: String, quantity: u32, notes: Option < String >, ) -> CreateOrder { CreateOrder { product, quantity, notes, } } }"
    );
}

#[test]
fn from_text_of_order() {
    let t = derive_from_composite(&order()).ok().unwrap();
    assert_eq!(
        t,
        "#[derive(Debug)]  struct CreateOrderMissing { id: u64, notes: String, } \
         impl composite_traits::FromComposite<CreateOrder> for Order { type Args = CreateOrderMissing; \
         fn from_composite(composite: CreateOrder, missing: CreateOrderMissing) -> Self { Self { \
         id: missing.id, product_name: composite.product, quantity: composite.quantity, notes: missing.notes, } } }"
    );
}

#[test]
fn into_text_of_order() {
    let t = derive_into_composite(&order()).ok().unwrap();
    assert_eq!(
        t,
        "impl composite_traits::IntoComposite<CreateOrder> for Order { fn into_composite(self) -> CreateOrder { \
         CreateOrder { product: self.product_name, quantity: self.quantity, notes: Some(self.notes), } } }"
    );
}

#[test]
fn partial_flavor_names() {
    let mut u = user();
    u.attrs = vec![];
    for f in u.fields_mut() {
        for a in f.attrs.iter_mut() {
            if let Meta::List(path, _) = &mut a.meta {
                if path.text == "composite" {
                    *path = p("partial");
                }
            }
        }
    }
    let t = derive_partial(&u).ok().unwrap();
    assert!(t.starts_with("#[doc = \"Partial version of [`User`].\"]   struct PartialUser { "));
    assert!(t.contains(" username: String, "));
}

trait FieldsMut {
    fn fields_mut(&mut self) -> &mut Vec<Field>;
}

impl FieldsMut for DeriveInput {
    fn fields_mut(&mut self) -> &mut Vec<Field> {
        match &mut self.data {
            Data::Struct(fs) => fs,
            _ => panic!("not a struct"),
        }
    }
}

#[test]
fn other_attributes_are_not_read() {
    // An attribute of the other family is neither read nor carried over.
    let input = strukt(
        "Thing",
        vec![],
        vec![fld("a", "u8", vec![Attribute {
            meta: Meta::List(p("partial"), MetaList::Items(vec![word("bogus")])),
            text: "#[partial(bogus)]".to_string(),
        }])],
    );
    let t = derive_composite(&input).ok().unwrap();
    assert!(t.ends_with("struct CompositeThing {  a: u8, }"));
}

#[test]
fn serde_and_cfg_attributes_are_carried() {
    let serde = Attribute {
        meta: Meta::List(p("serde"), MetaList::Items(vec![kv_str("rename", "req_type")])),
        text: "#[serde(rename = \"req_type\")]".to_string(),
    };
    let other = Attribute { meta: Meta::Path(p("allow")), text: "#[allow]".to_string() };
    let input = strukt("Req", vec![], vec![fld("request_type", "String", vec![serde, other])]);
    let t = derive_composite(&input).ok().unwrap();
    assert!(t.contains("{ #[serde(rename = \"req_type\")]  request_type: String, }"));
}

#[test]
fn doc_literal_is_escaped() {
    let input = strukt("Quote", vec![attr(vec![kv_str("doc", "say \"hi\"")])], vec![]);
    let t = derive_composite(&input).ok().unwrap();
    assert!(t.starts_with("#[doc = \"say \\\"hi\\\"\"]"));
}

#[test]
fn name_as_string_is_parsed() {
    let input = strukt("Thing", vec![attr(vec![kv_str("name", " Renamed ")])], vec![]);
    let t = derive_composite(&input).ok().unwrap();
    assert!(t.contains("struct Renamed {"));
}

#[test]
fn raw_name_prefix_is_dropped() {
    let input = strukt("r#type", vec![], vec![fld("a", "u8", vec![])]);
    let plan = plan_for(&input, Flavor::Composite).ok().unwrap();
    assert_eq!(plan.composite_name, "Compositetype");
    assert_eq!(plan.missing_name, "CompositetypeMissing");
}

#[test]
fn options_split_over_attributes_read_as_one() {
    let split = strukt("S", vec![], vec![fld("a", "bool", vec![attr(vec![word("option")]), attr(vec![kv_str("rename", "b")])])]);
    let joined = strukt("S", vec![], vec![fld("a", "bool", vec![attr(vec![word("option"), kv_str("rename", "b")])])]);
    assert_eq!(derive_composite(&split).ok().unwrap(), derive_composite(&joined).ok().unwrap());
}

#[test]
fn flag_values() {
    let input = strukt(
        "S",
        vec![],
        vec![
            fld("a", "u8", vec![attr(vec![kv("skip", Lit::Bool(true), "skip = true")])]),
            fld("b", "u8", vec![attr(vec![kv_str("skip", "false")])]),
            fld("c", "u8", vec![attr(vec![kv_str("option", "true")])]),
        ],
    );
    let t = derive_composite(&input).ok().unwrap();
    assert!(t.ends_with("{  b: u8,  c: Option < u8 >, }"));
}

// ---------------------------------------------------------------------------
// Rejected inputs
// ---------------------------------------------------------------------------

#[test]
fn unknown_key_lists_the_keys() {
    let input = strukt("S", vec![attr(vec![word("nmae")])], vec![]);
    let es = attr_errors(derive_composite(&input));
    assert_eq!(described(&es), vec!["unknown nmae [name, derive, doc] at "]);
}

#[test]
fn duplicate_key_keeps_the_first() {
    let input = strukt("S", vec![], vec![fld("a", "u8", vec![attr(vec![word("skip"), word("skip")])])]);
    let es = attr_errors(derive_composite(&input));
    assert_eq!(described(&es), vec!["duplicate skip at a"]);
}

#[test]
fn wrong_forms() {
    let list_for_text = NestedMeta::Meta(
        Meta::List(p("rename"), MetaList::Items(vec![])),
        "rename()".to_string(),
    );
    let input = strukt(
        "S",
        vec![attr(vec![word("name"), kv_str("derive", "Debug"), NestedMeta::Lit(Lit::Str("x".to_string(), String::new()), "\"x\"".to_string())])],
        vec![],
    );
    let es = attr_errors(derive_composite(&input));
    assert_eq!(described(&es), vec!["format word at name", "type string at derive", "format literal at "]);
    let input = strukt("S", vec![], vec![fld("a", "u8", vec![attr(vec![list_for_text, kv("option", Lit::Other("int".to_string()), "option = 1")])])]);
    let es = attr_errors(derive_composite(&input));
    assert_eq!(described(&es), vec!["format list at a/rename", "type int at a/option"]);
}

#[test]
fn wrong_values() {
    let input = strukt(
        "S",
        vec![attr(vec![kv_str("name", "type"), kv_path("doc", "Text")])],
        vec![fld("a", "u8", vec![attr(vec![kv_str("skip", "maybe"), kv("rename", Lit::Bool(true), "rename = true")])])],
    );
    let es = attr_errors(derive_composite(&input));
    // Struct-level problems stop the read before the fields are looked at.
    assert_eq!(described(&es), vec!["value type at name", "type path at doc"]);
    let input = strukt("S", vec![], vec![fld("a", "u8", vec![attr(vec![kv_str("skip", "maybe"), kv("rename", Lit::Bool(true), "rename = true")])])]);
    let es = attr_errors(derive_composite(&input));
    assert_eq!(described(&es), vec!["value maybe at a/skip", "type bool at a/rename"]);
}

#[test]
fn derive_list_items_must_be_paths() {
    let bad = NestedMeta::Meta(Meta::NameValue(p("Debug"), Expr::Other("call".to_string())), "Debug = f()".to_string());
    let list = NestedMeta::Meta(Meta::List(p("derive"), MetaList::Items(vec![word("Clone"), bad])), "derive(...)".to_string());
    let es = attr_errors(derive_composite(&strukt("S", vec![attr(vec![list])], vec![])));
    assert_eq!(described(&es), vec!["type Debug = f() at derive"]);
}

#[test]
fn attribute_forms() {
    let nv = Attribute {
        meta: Meta::NameValue(p("composite"), Expr::Lit(Lit::Str("x".to_string(), String::new()))),
        text: "#[composite = \"x\"]".to_string(),
    };
    let bare = Attribute { meta: Meta::Path(p("composite")), text: "#[composite]".to_string() };
    let broken = Attribute {
        meta: Meta::List(p("composite"), MetaList::Unparsable("expected identifier or literal".to_string())),
        text: "#[composite(=)]".to_string(),
    };
    let es = attr_errors(derive_composite(&strukt("S", vec![nv, bare, broken], vec![])));
    assert_eq!(
        described(&es),
        vec![
            "custom Name-value arguments are not supported. Use #[composite(...)] at ",
            "custom expected identifier or literal at ",
        ]
    );
}

#[test]
fn errors_of_all_fields_are_collected() {
    let input = strukt(
        "S",
        vec![],
        vec![fld("a", "u8", vec![attr(vec![word("bogus")])]), fld("b", "u8", vec![attr(vec![word("skip"), word("skip")])])],
    );
    let es = attr_errors(derive_composite(&input));
    assert_eq!(
        described(&es),
        vec!["unknown bogus [skip, option, rename, ty_override] at a", "duplicate skip at b"]
    );
}

#[test]
fn unions_and_enums_are_rejected() {
    let union = DeriveInput { ident: "U".to_string(), vis: String::new(), attrs: vec![], data: Data::Union };
    let es = attr_errors(derive_composite(&union));
    assert_eq!(described(&es), vec!["custom Unions are not supported at "]);
    // An enum is refused by a panic, which callers test for first; problems with its
    // attributes are still reported as errors.
    let en = DeriveInput { ident: "E".to_string(), vis: String::new(), attrs: vec![], data: Data::Enum };
    assert!(is_rejected_enum(&en, Flavor::Composite));
    assert!(is_rejected_enum(&en, Flavor::Partial));
    let bad = DeriveInput { ident: "E".to_string(), vis: String::new(), attrs: vec![attr(vec![word("nmae")])], data: Data::Enum };
    assert!(!is_rejected_enum(&bad, Flavor::Composite));
    let es = attr_errors(derive_composite(&bad));
    assert_eq!(described(&es), vec!["unknown nmae [name, derive, doc] at "]);
    assert!(!is_rejected_enum(&user(), Flavor::Composite));
}

#[test]
fn tuple_fields_need_names() {
    let tuple = |attrs: Vec<Attribute>| DeriveInput {
        ident: "T".to_string(),
        vis: String::new(),
        attrs: vec![],
        data: Data::Struct(vec![Field { ident: None, vis: String::new(), ty: "u8".to_string(), attrs }]),
    };
    assert!(matches!(derive_composite(&tuple(vec![])), Err(Failure::UnnamedField)));
    assert!(matches!(derive_into_composite(&tuple(vec![])), Err(Failure::UnnamedField)));
    // A renamed tuple field has a name in the generated struct, but none to read it from.
    let renamed = tuple(vec![attr(vec![kv_str("rename", "x")])]);
    assert!(derive_composite(&renamed).is_ok());
    assert!(matches!(derive_from_composite(&renamed), Err(Failure::UnnamedField)));
    // A skipped tuple field is never named by the struct derive.
    let skipped = tuple(vec![attr(vec![word("skip")])]);
    assert!(derive_composite(&skipped).is_ok());
}

#[test]
fn invalid_rename_and_type_override() {
    let bad_name = strukt("S", vec![], vec![fld("a", "u8", vec![attr(vec![kv_str("rename", "my-name")])])]);
    assert!(matches!(derive_composite(&bad_name), Err(Failure::InvalidRename(n)) if n == "my-name"));
    let spaced = strukt("S", vec![], vec![fld("a", "u8", vec![attr(vec![kv_str("rename", " x")])])]);
    assert!(matches!(derive_composite(&spaced), Err(Failure::InvalidRename(n)) if n == " x"));
    let raw = strukt("S", vec![], vec![fld("a", "u8", vec![attr(vec![kv_str("rename", "r#type")])])]);
    assert!(derive_composite(&raw).ok().unwrap().contains(" r#type: u8, "));
    let bad_type = strukt("S", vec![], vec![fld("a", "u8", vec![attr(vec![kv_str("ty_override", "Vec<")])])]);
    assert!(matches!(derive_composite(&bad_type), Err(Failure::InvalidTypeOverride(t)) if t == "Vec<"));
    // The conversion into the generated struct never reads the overriding type.
    assert!(derive_into_composite(&bad_type).is_ok());
}

#[test]
fn parse_input_reads_options() {
    let parsed = parse_input(&user(), Flavor::Composite).ok().unwrap();
    assert_eq!(parsed.composite_name, "CreateUser");
    assert_eq!(parsed.derive_attr, "#[derive(Debug, PartialEq, Deserialize)]");
    assert_eq!(parsed.fields.len(), 4);
    assert!(parsed.fields[0].skip);
    assert_eq!(parsed.fields[1].rename.as_deref(), Some("username"));
    assert!(parsed.fields[2].option);
    assert_eq!(parsed.fields[1].attrs.len(), 1);
    assert_eq!(parsed.fields[1].composite_name(), "username");
    assert_eq!(parsed.fields[2].composite_type(), "Option < String >");
    assert!(parsed.fields[3].is_direct());
    assert!(parsed.fields[2].needs_extra_args());
    assert_eq!(parsed.fields[2].into_composite_assignment(), "location: Some(self.location)");
}

// ---------------------------------------------------------------------------
// Values
// ---------------------------------------------------------------------------

#[test]
fn roundtrip_into_from_with_direct_fields() {
    let input = strukt("E", vec![], vec![fld("id", "u64", vec![attr(vec![word("skip")])]), fld("name", "String", vec![])]);
    let plan = plan_for(&input, Flavor::Composite).ok().unwrap();
    let c = Record { fields: vec![("name".to_string(), Value::Str("Dora".to_string()))] };
    let m = Record { fields: vec![("id".to_string(), Value::Int(3))] };
    let back = plan.into_composite(&plan.from_composite(&c, &m));
    assert_eq!(back, c);
}

#[test]
fn option_fields_are_not_given_back() {
    // With an `option` field, rebuilding then converting back takes the separately
    // supplied value, wrapped, not the one the generated struct held.
    let plan = plan_for(&order(), Flavor::Composite).ok().unwrap();
    let c = Record {
        fields: vec![
            ("product".to_string(), Value::Str("Nut".to_string())),
            ("quantity".to_string(), Value::Int(1)),
            ("notes".to_string(), Value::Opt(None)),
        ],
    };
    let m = Record { fields: vec![("id".to_string(), Value::Int(5)), ("notes".to_string(), Value::Str("n".to_string()))] };
    let back = plan.into_composite(&plan.from_composite(&c, &m));
    assert_eq!(back.get("notes"), Some(&Value::Opt(Some(Box::new(Value::Str("n".to_string()))))));
}

#[test]
fn conversions_outside_std_stay_marked() {
    let input = strukt("B", vec![], vec![fld("n", "u8", vec![attr(vec![kv_str("ty_override", "u64")])])]);
    let plan = plan_for(&input, Flavor::Composite).ok().unwrap();
    let c = plan.into_composite(&Record { fields: vec![("n".to_string(), Value::Int(4))] });
    assert_eq!(c.get("n"), Some(&Value::Converted(Box::new(Value::Int(4)))));
    let same = strukt("B", vec![], vec![fld("n", "u8", vec![attr(vec![kv_str("ty_override", "u8")])])]);
    let plan = plan_for(&same, Flavor::Composite).ok().unwrap();
    let c = plan.into_composite(&Record { fields: vec![("n".to_string(), Value::Int(4))] });
    assert_eq!(c.get("n"), Some(&Value::Int(4)));
}

#[test]
fn layouts_and_conformance() {
    let plan = plan_for(&order(), Flavor::Composite).ok().unwrap();
    assert_eq!(plan.original_layout(), vec!["id", "product_name", "quantity", "notes"]);
    assert_eq!(plan.composite_layout(), vec!["product", "quantity", "notes"]);
    assert_eq!(plan.missing_layout(), vec!["id", "notes"]);
    let wrong = Record { fields: vec![("quantity".to_string(), Value::Int(1)), ("product".to_string(), Value::Int(1))] };
    assert!(!wrong.conforms(&plan.composite_layout()));
    assert_eq!(wrong.get("missing"), None);
}

#[test]
fn plans_need_everything_named() {
    let bad = strukt("S", vec![], vec![fld("a", "u8", vec![attr(vec![kv_str("ty_override", "Vec<")])])]);
    assert!(matches!(plan_for(&bad, Flavor::Composite), Err(Failure::InvalidTypeOverride(_))));
}

#[test]
fn list_values() {
    let l = Value::list(vec![Value::Int(1), Value::Int(2)]);
    assert_eq!(l, Value::Cons(Box::new(Value::Int(1)), Box::new(Value::Cons(Box::new(Value::Int(2)), Box::new(Value::Nil)))));
    assert_eq!(l.duplicate(), l);
}

#[test]
fn keys_in_either_order() {
    let a = strukt("S", vec![], vec![fld("a", "u8", vec![attr(vec![kv_str("rename", "b"), word("option")])])]);
    let b = strukt("S", vec![], vec![fld("a", "u8", vec![attr(vec![word("option"), kv_str("rename", "b")])])]);
    assert_eq!(derive_composite(&a).ok().unwrap(), derive_composite(&b).ok().unwrap());
}

#[test]
fn constructor_initializes_the_layout() {
    let plan = plan_for(&order(), Flavor::Composite).ok().unwrap();
    let inits: String = plan.composite_layout().iter().map(|n| format!("{}, ", n)).collect();
    let t = derive_new_composite(&order()).ok().unwrap();
    assert!(t.ends_with(&format!("CreateOrder {{ {}}} }} }}", inits)));
    let decls: String = plan
        .fields
        .iter()
        .filter(|f| f.skip || f.option || f.converted)
        .map(|f| format!("{}: {}, ", f.original, f.ty))
        .collect();
    let t = derive_from_composite(&order()).ok().unwrap();
    assert!(t.contains(&format!("struct {} {{ {}}}", plan.missing_name, decls)));
}

#[test]
fn wrapped_values_never_reach_the_rebuilt_struct() {
    let plan = plan_for(&order(), Flavor::Composite).ok().unwrap();
    let c = |notes: Value| Record {
        fields: vec![
            ("product".to_string(), Value::Str("Nut".to_string())),
            ("quantity".to_string(), Value::Int(1)),
            ("notes".to_string(), notes),
        ],
    };
    let m = Record { fields: vec![("id".to_string(), Value::Int(5)), ("notes".to_string(), Value::Str("kept".to_string()))] };
    let a = plan.from_composite(&c(Value::Opt(None)), &m);
    let b = plan.from_composite(&c(Value::Opt(Some(Box::new(Value::Str("other".to_string()))))), &m);
    assert_eq!(a, b);
    assert_eq!(a.get("notes"), Some(&Value::Str("kept".to_string())));
}

#[test]
fn rebuilt_override_converts_the_missing_value() {
    let input = strukt("Bio", vec![], vec![fld("text", "String", vec![attr(vec![kv_str("ty_override", "Option<String>")])])]);
    let plan = plan_for(&input, Flavor::Composite).ok().unwrap();
    let c = Record { fields: vec![("text".to_string(), Value::Opt(None))] };
    let m = Record { fields: vec![("text".to_string(), Value::Str("m".to_string()))] };
    let back = plan.into_composite(&plan.from_composite(&c, &m));
    assert_eq!(back.get("text"), Some(&Value::Opt(Some(Box::new(Value::Str("m".to_string()))))));
}

#[test]
fn suffixed_name_string_is_refused() {
    let suffixed = NestedMeta::Meta(
        Meta::NameValue(p("name"), Expr::Lit(Lit::Str("Foo".to_string(), "x".to_string()))),
        "name = \"Foo\"x".to_string(),
    );
    let es = attr_errors(derive_composite(&strukt("S", vec![attr(vec![suffixed])], vec![])));
    assert_eq!(described(&es), vec!["value Foo at name"]);
    // Elsewhere the suffix is not read: `doc = "text"x` gives the text.
    let doc = NestedMeta::Meta(
        Meta::NameValue(p("doc"), Expr::Lit(Lit::Str("text".to_string(), "x".to_string()))),
        "doc = \"text\"x".to_string(),
    );
    let t = derive_composite(&strukt("S", vec![attr(vec![doc])], vec![])).ok().unwrap();
    assert!(t.starts_with("#[doc = \"text\"]"));
}
