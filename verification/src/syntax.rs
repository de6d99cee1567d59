//! The input of a derive, as plain values: what the derives read of the struct they
//! are applied to. Token text (types, visibilities, attributes) is kept as the text
//! that the tokens print as.
use vstd::prelude::*;

verus! {

/// Which family of derives is being expanded: they differ only in their names.
#[derive(Clone, Copy, Debug, PartialEq, Eq, Structural)]
pub enum Flavor {
    /// `Composite`, `NewComposite`, `FromComposite`, `IntoComposite`; attribute `#[composite(..)]`.
    Composite,
    /// `Partial`, `NewPartial`, `FromPartial`, `IntoPartial`; attribute `#[partial(..)]`.
    Partial,
}

/// A path such as `serde`, `a::b` or `Vec<u8>`.
pub struct SynPath {
    /// The identifiers of the segments, in order.
    pub segments: Vec<String>,
    /// Whether the path starts with `::`.
    pub leading_colon: bool,
    /// Whether some segment carries generic or parenthesized arguments.
    pub has_arguments: bool,
    /// The token text of the whole path.
    pub text: String,
}

/// A literal.
pub enum Lit {
    /// A string literal, by its value and its suffix (empty when it has none).
    Str(String, String),
    /// `true` or `false`.
    Bool(bool),
    /// A character literal, by its value.
    Char(char),
    /// Any other literal, by the name of its kind (`int`, `float`, `byte`,
    /// `byte string`, `verbatim`, ...).
    Other(String),
}

/// The value of a `name = value` item.
pub enum Expr {
    /// A literal.
    Lit(Lit),
    /// A path.
    Path(SynPath),
    /// Any other expression, by the name of its kind (`call`, `array`, ...).
    Other(String),
}

/// The body of a `path(...)` item.
pub enum MetaList {
    /// The comma-separated items of the body.
    Items(Vec<NestedMeta>),
    /// A body that does not read as comma-separated items, with the parser's message.
    Unparsable(String),
}

/// An attribute's content, or an item inside one.
pub enum Meta {
    /// `path`
    Path(SynPath),
    /// `path(...)`
    List(SynPath, MetaList),
    /// `path = value`
    NameValue(SynPath, Expr),
}

/// An item of a list, with its token text.
pub enum NestedMeta {
    /// An item that starts with a path.
    Meta(Meta, String),
    /// A bare literal.
    Lit(Lit, String),
}

/// An outer attribute `#[...]`.
pub struct Attribute {
    /// What is inside the brackets.
    pub meta: Meta,
    /// The token text of the whole attribute.
    pub text: String,
}

/// A field of the input struct.
pub struct Field {
    /// The field's name; `None` in a tuple struct.
    pub ident: Option<String>,
    /// The token text of the field's visibility (empty when private).
    pub vis: String,
    /// The token text of the field's type.
    pub ty: String,
    /// The field's attributes, in order.
    pub attrs: Vec<Attribute>,
}

/// The shape of the input item.
pub enum Data {
    /// A struct, with its fields (none for a unit struct).
    Struct(Vec<Field>),
    /// An enum.
    Enum,
    /// A union.
    Union,
}

/// The item that a derive is applied to.
pub struct DeriveInput {
    /// The item's name.
    pub ident: String,
    /// The token text of the item's visibility.
    pub vis: String,
    /// The item's attributes, in order.
    pub attrs: Vec<Attribute>,
    /// The item's body.
    pub data: Data,
}

impl Meta {
    /// The path that the item starts with.
    pub open spec fn spec_path(self) -> SynPath {
        match self {
            Meta::Path(p) => p,
            Meta::List(p, _) => p,
            Meta::NameValue(p, _) => p,
        }
    }

    /// The path that the item starts with.
    pub fn path(&self) -> (r: &SynPath)
        ensures
            *r == self.spec_path(),
    {
        match self {
            Meta::Path(p) => p,
            Meta::List(p, _) => p,
            Meta::NameValue(p, _) => p,
        }
    }
}

} // verus!
