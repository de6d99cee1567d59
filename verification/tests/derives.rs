use composite_derive::generate::{
    derive_composite, derive_from_composite, derive_from_partial, derive_into_composite,
    derive_into_partial, derive_new_composite, derive_new_partial, derive_partial,
};
use composite_derive::syntax::{Attribute, Data, DeriveInput, Expr, Field, Flavor, Lit, Meta, MetaList, NestedMeta, SynPath};
use composite_derive::values::{plan_for, Plan, Record, Value};

// ---------------------------------------------------------------------------
// Building inputs
// ---------------------------------------------------------------------------

fn word_of(fl: Flavor) -> &'static str {
    match fl {
        Flavor::Composite => "composite",
        Flavor::Partial => "partial",
    }
}

fn prefix_of(fl: Flavor) -> &'static str {
    match fl {
        Flavor::Composite => "Composite",
        Flavor::Partial => "Partial",
    }
}

fn path(text: &str) -> SynPath {
    SynPath {
        segments: text.split("::").map(|s| s.to_string()).collect(),
        leading_colon: false,
        has_arguments: false,
        text: text.to_string(),
    }
}

fn flag(key: &str) -> NestedMeta {
    NestedMeta::Meta(Meta::Path(path(key)), key.to_string())
}

fn text_item(key: &str, value: &str) -> NestedMeta {
    NestedMeta::Meta(
        Meta::NameValue(path(key), Expr::Lit(Lit::Str(value.to_string(), String::new()))),
        format!("{} = {:?}", key, value),
    )
}

fn ident_item(key: &str, value: &str) -> NestedMeta {
    NestedMeta::Meta(Meta::NameValue(path(key), Expr::Path(path(value))), format!("{} = {}", key, value))
}

fn list_item(key: &str, names: &[&str]) -> NestedMeta {
    let items = names.iter().map(|n| flag(n)).collect();
    NestedMeta::Meta(Meta::List(path(key), MetaList::Items(items)), format!("{}({})", key, names.join(", ")))
}

fn options(fl: Flavor, items: Vec<NestedMeta>) -> Attribute {
    let name = word_of(fl);
    Attribute { meta: Meta::List(path(name), MetaList::Items(items)), text: format!("#[{}(...)]", name) }
}

fn doc(text: &str) -> Attribute {
    Attribute {
        meta: Meta::NameValue(path("doc"), Expr::Lit(Lit::Str(text.to_string(), String::new()))),
        text: format!("#[doc = {:?}]", text),
    }
}

fn field(name: &str, ty: &str, attrs: Vec<Attribute>) -> Field {
    Field { ident: Some(name.to_string()), vis: String::new(), ty: ty.to_string(), attrs }
}

fn pub_field(name: &str, ty: &str, attrs: Vec<Attribute>) -> Field {
    Field { ident: Some(name.to_string()), vis: "pub".to_string(), ty: ty.to_string(), attrs }
}

fn item(name: &str, vis: &str, attrs: Vec<Attribute>, fields: Vec<Field>) -> DeriveInput {
    DeriveInput { ident: name.to_string(), vis: vis.to_string(), attrs, data: Data::Struct(fields) }
}

fn s(x: &str) -> Value {
    Value::Str(x.to_string())
}

fn some(v: Value) -> Value {
    Value::Opt(Some(Box::new(v)))
}

fn record(fields: Vec<(&str, Value)>) -> Record {
    Record { fields: fields.into_iter().map(|(n, v)| (n.to_string(), v)).collect() }
}

fn plan(input: &DeriveInput, fl: Flavor) -> Plan {
    match plan_for(input, fl) {
        Ok(p) => p,
        Err(_) => panic!("the input has no plan"),
    }
}

fn struct_text(input: &DeriveInput, fl: Flavor) -> String {
    let r = match fl {
        Flavor::Composite => derive_composite(input),
        Flavor::Partial => derive_partial(input),
    };
    match r {
        Ok(t) => t,
        Err(_) => panic!("the struct derive failed"),
    }
}

fn new_text(input: &DeriveInput, fl: Flavor) -> String {
    let r = match fl {
        Flavor::Composite => derive_new_composite(input),
        Flavor::Partial => derive_new_partial(input),
    };
    match r {
        Ok(t) => t,
        Err(_) => panic!("the constructor derive failed"),
    }
}

fn from_text(input: &DeriveInput, fl: Flavor) -> String {
    let r = match fl {
        Flavor::Composite => derive_from_composite(input),
        Flavor::Partial => derive_from_partial(input),
    };
    match r {
        Ok(t) => t,
        Err(_) => panic!("the from derive failed"),
    }
}

fn into_text(input: &DeriveInput, fl: Flavor) -> String {
    let r = match fl {
        Flavor::Composite => derive_into_composite(input),
        Flavor::Partial => derive_into_partial(input),
    };
    match r {
        Ok(t) => t,
        Err(_) => panic!("the into derive failed"),
    }
}

// ---------------------------------------------------------------------------
// The structs of the scenarios
// ---------------------------------------------------------------------------

/// Explicit name, skip, rename, option
fn user(fl: Flavor) -> DeriveInput {
    item(
        "User",
        "",
        vec![options(fl, vec![ident_item("name", "CreateUser"), list_item("derive", &["Debug", "PartialEq", "Deserialize"])])],
        vec![
            field("id", "u64", vec![options(fl, vec![flag("skip")]), doc(" user ID")]),
            field("name", "String", vec![options(fl, vec![text_item("rename", "username")]), doc(" username")]),
            field("location", "String", vec![options(fl, vec![flag("option")])]),
            field("email", "String", vec![]),
        ],
    )
}

/// Default name (no `name = ...`)
fn config(fl: Flavor) -> DeriveInput {
    item(
        "Config",
        "",
        vec![options(fl, vec![list_item("derive", &["Debug", "PartialEq"])])],
        vec![field("host", "String", vec![]), field("port", "u16", vec![])],
    )
}

/// No derives
fn minimal() -> DeriveInput {
    item("Minimal", "", vec![], vec![field("value", "i32", vec![])])
}

/// Type override
fn profile(fl: Flavor) -> DeriveInput {
    item(
        "Profile",
        "",
        vec![options(fl, vec![ident_item("name", "UpdateProfile"), list_item("derive", &["Debug", "PartialEq"])])],
        vec![
            field("id", "u64", vec![options(fl, vec![flag("skip")])]),
            field("bio", "String", vec![options(fl, vec![text_item("ty_override", "Option<String>")])]),
            field("avatar_url", "String", vec![]),
        ],
    )
}

/// Combined field attributes (option + rename)
fn settings(fl: Flavor) -> DeriveInput {
    item(
        "Settings",
        "",
        vec![options(fl, vec![ident_item("name", "PatchSettings"), list_item("derive", &["Debug", "PartialEq"])])],
        vec![
            field("theme_is_dark", "bool", vec![options(fl, vec![flag("option"), text_item("rename", "dark_mode")])]),
            field("font_size", "u32", vec![options(fl, vec![flag("option")])]),
            field("language", "String", vec![]),
        ],
    )
}

/// Custom doc
fn article(fl: Flavor) -> DeriveInput {
    item(
        "Article",
        "",
        vec![options(fl, vec![
            ident_item("name", "NewArticle"),
            list_item("derive", &["Debug", "PartialEq"]),
            text_item("doc", "Used to create a new article."),
        ])],
        vec![
            field("id", "u64", vec![options(fl, vec![flag("skip")])]),
            field("title", "String", vec![]),
            field("body", "String", vec![]),
        ],
    )
}

/// Public struct with pub fields
fn item_struct(fl: Flavor) -> DeriveInput {
    item(
        "Item",
        "pub",
        vec![options(fl, vec![ident_item("name", "CreateItem"), list_item("derive", &["Debug", "PartialEq"])])],
        vec![
            pub_field("id", "u64", vec![options(fl, vec![flag("skip")])]),
            pub_field("name", "String", vec![]),
            pub_field("price", "f64", vec![]),
        ],
    )
}

/// The constructor derive
fn post(fl: Flavor) -> DeriveInput {
    item(
        "Post",
        "",
        vec![options(fl, vec![ident_item("name", "CreatePost"), list_item("derive", &["Debug", "PartialEq"])])],
        vec![
            field("id", "u64", vec![options(fl, vec![flag("skip")])]),
            field("title", "String", vec![]),
            field("body", "String", vec![]),
            field("tags", "Vec < String >", vec![options(fl, vec![flag("option")])]),
        ],
    )
}

/// The conversions (skip only)
fn employee(fl: Flavor) -> DeriveInput {
    item(
        "Employee",
        "",
        vec![options(fl, vec![ident_item("name", "NewEmployee"), list_item("derive", &["Debug", "PartialEq"])])],
        vec![
            field("id", "u64", vec![options(fl, vec![flag("skip")])]),
            field("name", "String", vec![]),
            field("department", "String", vec![]),
        ],
    )
}

/// All four derives with rename + option + skip
fn order(fl: Flavor) -> DeriveInput {
    item(
        "Order",
        "",
        vec![options(fl, vec![ident_item("name", "CreateOrder"), list_item("derive", &["Debug", "PartialEq"])])],
        vec![
            field("id", "u64", vec![options(fl, vec![flag("skip")])]),
            field("product_name", "String", vec![options(fl, vec![text_item("rename", "product")])]),
            field("quantity", "u32", vec![]),
            field("notes", "String", vec![options(fl, vec![flag("option")])]),
        ],
    )
}

/// The conversions with no skipped fields
fn point(fl: Flavor, name: &str) -> DeriveInput {
    item(
        "Point",
        "",
        vec![options(fl, vec![ident_item("name", name), list_item("derive", &["Debug", "PartialEq"])])],
        vec![field("x", "f64", vec![]), field("y", "f64", vec![])],
    )
}

/// The conversion into the generated struct with a type override
fn bio(fl: Flavor) -> DeriveInput {
    item(
        "Bio",
        "",
        vec![options(fl, vec![ident_item("name", "UpdateBio"), list_item("derive", &["Debug", "PartialEq"])])],
        vec![field("text", "String", vec![options(fl, vec![text_item("ty_override", "Option<String>")])])],
    )
}

fn decimal(v: &Value) -> f64 {
    match v {
        Value::Decimal(t) => t.parse().unwrap(),
        _ => panic!("not a number"),
    }
}

// ---------------------------------------------------------------------------
// Scenarios, for both families of derives
// ---------------------------------------------------------------------------

fn check_explicit_name_with_skip_rename_option(fl: Flavor) {
    let input = user(fl);
    let text = struct_text(&input, fl);
    assert!(text.contains("struct CreateUser {"));
    let p = plan(&input, fl);
    let u = record(vec![("username", s("alice")), ("location", some(s("NYC"))), ("email", s("alice@example.com"))]);
    assert!(u.conforms(&p.composite_layout()));
    assert_eq!(u.get("username"), Some(&s("alice")));
    assert_eq!(u.get("location"), Some(&some(s("NYC"))));
    assert_eq!(u.get("email"), Some(&s("alice@example.com")));
}

fn check_option_field_accepts_none(fl: Flavor) {
    let input = user(fl);
    let text = struct_text(&input, fl);
    assert!(text.contains(" location: Option < String >, "));
    let p = plan(&input, fl);
    let u = record(vec![("username", s("bob")), ("location", Value::Opt(None)), ("email", s("bob@example.com"))]);
    assert!(u.conforms(&p.composite_layout()));
    assert_eq!(u.get("location"), Some(&Value::Opt(None)));
}

fn check_default_name(fl: Flavor) {
    let input = config(fl);
    let text = struct_text(&input, fl);
    assert!(text.ends_with(&format!("struct {}Config {{  host: String,  port: u16, }}", prefix_of(fl))));
    let p = plan(&input, fl);
    assert_eq!(p.composite_name, format!("{}Config", prefix_of(fl)));
    let c = record(vec![("host", s("localhost")), ("port", Value::Int(8080))]);
    assert!(c.conforms(&p.composite_layout()));
    assert_eq!(c.get("host"), Some(&s("localhost")));
    assert_eq!(c.get("port"), Some(&Value::Int(8080)));
}

fn check_no_derives(fl: Flavor) {
    let input = minimal();
    let text = struct_text(&input, fl);
    assert!(!text.contains("derive"));
    let p = plan(&input, fl);
    assert_eq!(p.composite_name, format!("{}Minimal", prefix_of(fl)));
    let m = record(vec![("value", Value::Int(42))]);
    assert!(m.conforms(&p.composite_layout()));
    assert_eq!(m.get("value"), Some(&Value::Int(42)));
}

fn check_type_override(fl: Flavor) {
    let input = profile(fl);
    let text = struct_text(&input, fl);
    assert!(text.contains(" bio: Option < String >, "));
    let p = plan(&input, fl);
    let p1 = record(vec![("bio", Value::Opt(None)), ("avatar_url", s("https://example.com/avatar.png"))]);
    assert!(p1.conforms(&p.composite_layout()));
    assert_eq!(p1.get("bio"), Some(&Value::Opt(None)));
    let p2 = record(vec![("bio", some(s("Hello world"))), ("avatar_url", s("https://example.com/avatar.png"))]);
    assert!(p2.conforms(&p.composite_layout()));
    assert_eq!(p2.get("bio"), Some(&some(s("Hello world"))));
}

fn check_combined_option_and_rename(fl: Flavor) {
    let input = settings(fl);
    let text = struct_text(&input, fl);
    assert!(text.contains(" dark_mode: Option < bool >, "));
    let p = plan(&input, fl);
    let st = record(vec![("dark_mode", some(Value::Bool(true))), ("font_size", Value::Opt(None)), ("language", s("en"))]);
    assert!(st.conforms(&p.composite_layout()));
    assert_eq!(st.get("dark_mode"), Some(&some(Value::Bool(true))));
    assert_eq!(st.get("font_size"), Some(&Value::Opt(None)));
    assert_eq!(st.get("language"), Some(&s("en")));
}

fn check_custom_doc(fl: Flavor) {
    let input = article(fl);
    let text = struct_text(&input, fl);
    assert!(text.starts_with("#[doc = \"Used to create a new article.\"]"));
    let p = plan(&input, fl);
    let a = record(vec![("title", s("Hello")), ("body", s("World"))]);
    assert!(a.conforms(&p.composite_layout()));
    assert_eq!(a.get("title"), Some(&s("Hello")));
    assert_eq!(a.get("body"), Some(&s("World")));
}

fn check_visibility_across_modules(fl: Flavor) {
    let input = item_struct(fl);
    let text = struct_text(&input, fl);
    assert!(text.contains("pub struct CreateItem { pub name: String, pub price: f64, }"));
    let p = plan(&input, fl);
    let it = record(vec![("name", s("Widget")), ("price", Value::Decimal("9.99".to_string()))]);
    assert!(it.conforms(&p.composite_layout()));
    assert_eq!(it.get("name"), Some(&s("Widget")));
    assert!((decimal(it.get("price").unwrap()) - 9.99).abs() < f64::EPSILON);
}

fn check_new_constructor(fl: Flavor) {
    let input = post(fl);
    let text = new_text(&input, fl);
    assert!(text.contains(&format!("fn new_{}(title: String, body: String, tags: Option < Vec < String > >, ) -> CreatePost", word_of(fl))));
    let p = plan(&input, fl);
    let tags = some(Value::list(vec![s("rust"), s("macros")]));
    let c = p.new_composite(&vec![s("My Post"), s("Content"), tags]);
    assert!(c.conforms(&p.composite_layout()));
    assert_eq!(c.get("title"), Some(&s("My Post")));
    assert_eq!(c.get("body"), Some(&s("Content")));
    assert_eq!(c.get("tags"), Some(&some(Value::list(vec![s("rust"), s("macros")]))));
}

fn check_new_option_none(fl: Flavor) {
    let input = post(fl);
    let text = new_text(&input, fl);
    assert!(text.contains(", tags: Option < Vec < String > >, ) -> CreatePost"));
    let p = plan(&input, fl);
    let c = p.new_composite(&vec![s("Untitled"), s("Empty"), Value::Opt(None)]);
    assert_eq!(c.get("tags"), Some(&Value::Opt(None)));
}

fn check_from_with_skipped_field(fl: Flavor) {
    let input = employee(fl);
    let text = from_text(&input, fl);
    assert!(text.contains("struct NewEmployeeMissing { id: u64, }"));
    let p = plan(&input, fl);
    let c = record(vec![("name", s("Alice")), ("department", s("Engineering"))]);
    let m = record(vec![("id", Value::Int(42))]);
    assert!(c.conforms(&p.composite_layout()));
    assert!(m.conforms(&p.missing_layout()));
    let emp = p.from_composite(&c, &m);
    assert_eq!(emp.get("id"), Some(&Value::Int(42)));
    assert_eq!(emp.get("name"), Some(&s("Alice")));
    assert_eq!(emp.get("department"), Some(&s("Engineering")));
}

fn check_from_with_skip_rename_option(fl: Flavor) {
    let input = order(fl);
    let text = from_text(&input, fl);
    assert!(text.contains("struct CreateOrderMissing { id: u64, notes: String, }"));
    let p = plan(&input, fl);
    let c = record(vec![("product", s("Widget")), ("quantity", Value::Int(5)), ("notes", some(s("Rush order")))]);
    // Args: id (skipped) + notes (option-wrapped, original type String)
    let m = record(vec![("id", Value::Int(1)), ("notes", s("Noted"))]);
    assert!(c.conforms(&p.composite_layout()));
    assert!(m.conforms(&p.missing_layout()));
    let o = p.from_composite(&c, &m);
    assert_eq!(o.get("id"), Some(&Value::Int(1)));
    assert_eq!(o.get("product_name"), Some(&s("Widget")));
    assert_eq!(o.get("quantity"), Some(&Value::Int(5)));
    assert_eq!(o.get("notes"), Some(&s("Noted")));
}

fn check_from_no_extra_args(fl: Flavor) {
    let input = point(fl, &format!("{}Point", prefix_of(fl)));
    let text = from_text(&input, fl);
    assert!(text.contains(&format!("struct {}PointMissing {{ }}", prefix_of(fl))));
    let p = plan(&input, fl);
    let c = record(vec![("x", Value::Decimal("1.0".to_string())), ("y", Value::Decimal("2.0".to_string()))]);
    let m = record(vec![]);
    assert!(m.conforms(&p.missing_layout()));
    let pt = p.from_composite(&c, &m);
    assert_eq!(decimal(pt.get("x").unwrap()), 1.0);
    assert_eq!(decimal(pt.get("y").unwrap()), 2.0);
}

/// Serde attribute forwarding
fn internal_request(fl: Flavor) -> DeriveInput {
    let serde_rename = Attribute {
        meta: Meta::List(path("serde"), MetaList::Items(vec![text_item("rename", "req_type")])),
        text: "#[serde(rename = \"req_type\")]".to_string(),
    };
    item(
        "InternalRequest",
        "",
        vec![options(fl, vec![ident_item("name", "ApiRequest"), list_item("derive", &["Debug", "PartialEq", "Deserialize"])])],
        vec![
            field("internal_id", "u64", vec![options(fl, vec![flag("skip")])]),
            field("request_type", "String", vec![serde_rename]),
            field("payload", "String", vec![]),
        ],
    )
}

/// The key under which serde reads a field of the generated struct: the `rename` of its
/// forwarded `#[serde(..)]` attribute, else its name.
fn serde_key(input: &DeriveInput, fl: Flavor, name: &str) -> String {
    let text = struct_text(input, fl);
    let at = text.find(&format!(" {}: ", name)).unwrap();
    let before = &text[..at];
    let decl_start = before.rfind(", ").map(|i| i + 2).unwrap_or_else(|| before.rfind("{ ").unwrap() + 2);
    let attrs = &before[decl_start..];
    match attrs.find("#[serde(rename = \"") {
        Some(i) => {
            let rest = &attrs[i + "#[serde(rename = \"".len()..];
            rest[..rest.find('"').unwrap()].to_string()
        }
        None => name.to_string(),
    }
}

fn check_serde_attribute_forwarding(fl: Flavor) {
    let input = internal_request(fl);
    let p = plan(&input, fl);
    let json = r#"{"req_type": "GET", "payload": "data"}"#;
    let parsed: serde_json::Value = serde_json::from_str(json).unwrap();
    let fields = p
        .composite_layout()
        .iter()
        .map(|n| {
            let key = serde_key(&input, fl, n);
            (n.clone(), Value::Str(parsed[key.as_str()].as_str().unwrap().to_string()))
        })
        .collect();
    let req = Record { fields };
    assert!(req.conforms(&p.composite_layout()));
    assert_eq!(req.get("request_type"), Some(&s("GET")));
    assert_eq!(req.get("payload"), Some(&s("data")));
}

fn check_into_drops_skipped_fields(fl: Flavor) {
    let input = employee(fl);
    let p = plan(&input, fl);
    let emp = record(vec![("id", Value::Int(99)), ("name", s("Bob")), ("department", s("Sales"))]);
    assert!(emp.conforms(&p.original_layout()));
    let c = p.into_composite(&emp);
    assert!(c.conforms(&p.composite_layout()));
    assert_eq!(c.get("name"), Some(&s("Bob")));
    assert_eq!(c.get("department"), Some(&s("Sales")));
}

fn check_into_renames_and_wraps_option(fl: Flavor) {
    let input = order(fl);
    let text = into_text(&input, fl);
    assert!(text.contains("product: self.product_name, quantity: self.quantity, notes: Some(self.notes), "));
    let p = plan(&input, fl);
    let o = record(vec![("id", Value::Int(10)), ("product_name", s("Gadget")), ("quantity", Value::Int(3)), ("notes", s("Handle with care"))]);
    let c = p.into_composite(&o);
    assert_eq!(c.get("product"), Some(&s("Gadget")));
    assert_eq!(c.get("quantity"), Some(&Value::Int(3)));
    assert_eq!(c.get("notes"), Some(&some(s("Handle with care"))));
}

fn check_into_no_skipped_fields(fl: Flavor) {
    let input = point(fl, &format!("{}Point", prefix_of(fl)));
    let p = plan(&input, fl);
    let pt = record(vec![("x", Value::Decimal("3.0".to_string())), ("y", Value::Decimal("4.0".to_string()))]);
    let c = p.into_composite(&pt);
    assert_eq!(decimal(c.get("x").unwrap()), 3.0);
    assert_eq!(decimal(c.get("y").unwrap()), 4.0);
}

fn check_into_type_override(fl: Flavor) {
    let input = bio(fl);
    let text = into_text(&input, fl);
    assert!(text.contains("text: self.text.into(), "));
    let p = plan(&input, fl);
    let b = record(vec![("text", s("Hello"))]);
    let c = p.into_composite(&b);
    // String -> Option<String> via .into()
    assert_eq!(c.get("text"), Some(&some(s("Hello"))));
}

fn check_roundtrip_from_into(fl: Flavor) {
    let input = employee(fl);
    let p = plan(&input, fl);
    let emp = record(vec![("id", Value::Int(7)), ("name", s("Carol")), ("department", s("HR"))]);
    let c = p.into_composite(&emp);
    let restored = p.from_composite(&c, &record(vec![("id", Value::Int(7))]));
    assert_eq!(restored, record(vec![("id", Value::Int(7)), ("name", s("Carol")), ("department", s("HR"))]));
}

fn check_roundtrip_no_skipped(fl: Flavor) {
    let input = point(fl, &format!("{}Point", prefix_of(fl)));
    let p = plan(&input, fl);
    let pt = record(vec![("x", Value::Decimal("1.5".to_string())), ("y", Value::Decimal("2.5".to_string()))]);
    let c = p.into_composite(&pt);
    let restored = p.from_composite(&c, &record(vec![]));
    assert_eq!(restored, record(vec![("x", Value::Decimal("1.5".to_string())), ("y", Value::Decimal("2.5".to_string()))]));
}

fn check_new_then_from(fl: Flavor) {
    let input = order(fl);
    let p = plan(&input, fl);
    let c = p.new_composite(&vec![s("Wrench"), Value::Int(10), Value::Opt(None)]);
    let o = p.from_composite(&c, &record(vec![("id", Value::Int(42)), ("notes", s("No notes"))]));
    assert_eq!(o.get("id"), Some(&Value::Int(42)));
    assert_eq!(o.get("product_name"), Some(&s("Wrench")));
    assert_eq!(o.get("quantity"), Some(&Value::Int(10)));
    assert_eq!(o.get("notes"), Some(&s("No notes")));
}

// ---------------------------------------------------------------------------
// The Composite family
// ---------------------------------------------------------------------------

#[test]
fn lib_explicit_name_with_skip_rename_option() {
    check_explicit_name_with_skip_rename_option(Flavor::Composite);
}

#[test]
fn lib_option_field_accepts_none() {
    check_option_field_accepts_none(Flavor::Composite);
}

#[test]
fn lib_default_name() {
    check_default_name(Flavor::Composite);
}

#[test]
fn lib_no_derives() {
    check_no_derives(Flavor::Composite);
}

#[test]
fn lib_type_override() {
    check_type_override(Flavor::Composite);
}

#[test]
fn lib_combined_option_and_rename() {
    check_combined_option_and_rename(Flavor::Composite);
}

#[test]
fn lib_serde_attribute_forwarding() {
    check_serde_attribute_forwarding(Flavor::Composite);
}

#[test]
fn lib_custom_doc() {
    check_custom_doc(Flavor::Composite);
}

#[test]
fn lib_visibility_across_modules() {
    check_visibility_across_modules(Flavor::Composite);
}

#[test]
fn new_composite_constructor() {
    check_new_constructor(Flavor::Composite);
}

#[test]
fn new_composite_option_none() {
    check_new_option_none(Flavor::Composite);
}

#[test]
fn from_composite_with_skipped_field() {
    check_from_with_skipped_field(Flavor::Composite);
}

#[test]
fn from_composite_with_skip_rename_option() {
    check_from_with_skip_rename_option(Flavor::Composite);
}

#[test]
fn from_composite_no_extra_args() {
    check_from_no_extra_args(Flavor::Composite);
}

#[test]
fn into_composite_drops_skipped_fields() {
    check_into_drops_skipped_fields(Flavor::Composite);
}

#[test]
fn into_composite_renames_and_wraps_option() {
    check_into_renames_and_wraps_option(Flavor::Composite);
}

#[test]
fn into_composite_no_skipped_fields() {
    check_into_no_skipped_fields(Flavor::Composite);
}

#[test]
fn into_composite_type_override() {
    check_into_type_override(Flavor::Composite);
}

#[test]
fn lib_roundtrip_from_into() {
    check_roundtrip_from_into(Flavor::Composite);
}

#[test]
fn lib_roundtrip_no_skipped() {
    check_roundtrip_no_skipped(Flavor::Composite);
}

#[test]
fn new_composite_then_from_composite() {
    check_new_then_from(Flavor::Composite);
}

// ---------------------------------------------------------------------------
// The Partial family
// ---------------------------------------------------------------------------

#[test]
fn main_explicit_name_with_skip_rename_option() {
    check_explicit_name_with_skip_rename_option(Flavor::Partial);
}

#[test]
fn main_option_field_accepts_none() {
    check_option_field_accepts_none(Flavor::Partial);
}

#[test]
fn main_default_name() {
    check_default_name(Flavor::Partial);
}

#[test]
fn main_no_derives() {
    check_no_derives(Flavor::Partial);
}

#[test]
fn main_type_override() {
    check_type_override(Flavor::Partial);
}

#[test]
fn main_combined_option_and_rename() {
    check_combined_option_and_rename(Flavor::Partial);
}

#[test]
fn main_serde_attribute_forwarding() {
    check_serde_attribute_forwarding(Flavor::Partial);
}

#[test]
fn main_custom_doc() {
    check_custom_doc(Flavor::Partial);
}

#[test]
fn main_visibility_across_modules() {
    check_visibility_across_modules(Flavor::Partial);
}

#[test]
fn new_partial_constructor() {
    check_new_constructor(Flavor::Partial);
}

#[test]
fn new_partial_option_none() {
    check_new_option_none(Flavor::Partial);
}

#[test]
fn from_partial_with_skipped_field() {
    check_from_with_skipped_field(Flavor::Partial);
}

#[test]
fn from_partial_with_skip_rename_option() {
    check_from_with_skip_rename_option(Flavor::Partial);
}

#[test]
fn from_partial_no_extra_args() {
    check_from_no_extra_args(Flavor::Partial);
}

#[test]
fn into_partial_drops_skipped_fields() {
    check_into_drops_skipped_fields(Flavor::Partial);
}

#[test]
fn into_partial_renames_and_wraps_option() {
    check_into_renames_and_wraps_option(Flavor::Partial);
}

#[test]
fn into_partial_no_skipped_fields() {
    check_into_no_skipped_fields(Flavor::Partial);
}

#[test]
fn into_partial_type_override() {
    check_into_type_override(Flavor::Partial);
}

#[test]
fn main_roundtrip_from_into() {
    check_roundtrip_from_into(Flavor::Partial);
}

#[test]
fn main_roundtrip_no_skipped() {
    check_roundtrip_no_skipped(Flavor::Partial);
}

#[test]
fn new_partial_then_from_partial() {
    check_new_then_from(Flavor::Partial);
}
