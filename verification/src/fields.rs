//! What each field becomes in the generated code: its name, its type, and how its
//! value is carried between the input struct and the generated struct.
use vstd::prelude::*;
use crate::text::{opt_text, same_text};
use crate::outside::{any_ident_text, parse_any_ident_text, parse_type_text, syn_type_text};
use crate::parse::{FailureModel, FieldModel, FieldOpts, Failure, ForwardedModel};

verus! {

/// Whether `s` is accepted as the name of a generated field: it reads as exactly one
/// identifier, written as it prints.
pub open spec fn valid_ident(s: Seq<char>) -> bool {
    any_ident_text(s) == Some(s)
}

/// Why the field's name in the generated struct cannot be formed, if it cannot.
pub open spec fn name_failure(f: FieldModel) -> Option<FailureModel> {
    match f.rename {
        Some(r) => if valid_ident(r) { None } else { Some(FailureModel::InvalidRename(r)) },
        None => if f.ident is None { Some(FailureModel::UnnamedField) } else { None },
    }
}

/// Why the field's type in the generated struct cannot be formed, if it cannot.
pub open spec fn type_failure(f: FieldModel) -> Option<FailureModel> {
    match f.ty_override {
        Some(t) => if syn_type_text(t) is Some { None } else { Some(FailureModel::InvalidTypeOverride(t)) },
        None => None,
    }
}

/// Why the field's name in the input struct is not available, if it is not.
pub open spec fn original_failure(f: FieldModel) -> Option<FailureModel> {
    if f.ident is None { Some(FailureModel::UnnamedField) } else { None }
}

/// The field's name in the generated struct: its `rename`, else its own name.
pub open spec fn field_name(f: FieldModel) -> Seq<char> {
    match f.rename {
        Some(r) => r,
        None => f.ident->0,
    }
}

/// The field's name in the input struct.
pub open spec fn original_name(f: FieldModel) -> Seq<char> {
    f.ident->0
}

/// The field's type before any `Option` wrapping: the override when there is one.
pub open spec fn base_type(f: FieldModel) -> Seq<char> {
    match f.ty_override {
        Some(t) => syn_type_text(t)->0,
        None => f.ty,
    }
}

/// The field's type in the generated struct.
pub open spec fn field_type(f: FieldModel) -> Seq<char> {
    if f.option {
        "Option < "@ + base_type(f) + " >"@
    } else {
        base_type(f)
    }
}

/// Whether the field's value passes unchanged between the two structs.
pub open spec fn is_direct(f: FieldModel) -> bool {
    !f.option && f.ty_override is None
}

/// Whether the field's value must be supplied separately when the input struct is
/// rebuilt from the generated one: skipped, wrapped, or of another type.
pub open spec fn needs_extra(f: FieldModel) -> bool {
    f.skip || !is_direct(f)
}

/// The source of the field's value in the conversion into the generated struct.
pub open spec fn into_source(f: FieldModel) -> Seq<char> {
    let orig = "self."@ + original_name(f);
    if f.option && f.ty_override is Some {
        "Some("@ + orig + ".into())"@
    } else if f.option {
        "Some("@ + orig + ")"@
    } else if f.ty_override is Some {
        orig + ".into()"@
    } else {
        orig
    }
}

/// The field's initializer in the conversion into the generated struct.
pub open spec fn into_assignment(f: FieldModel) -> Seq<char> {
    field_name(f) + ": "@ + into_source(f)
}

/// The attributes carried over to the generated field, each followed by a space;
/// an attribute named after the derive itself is never carried.
pub open spec fn attrs_text(attrs: Seq<ForwardedModel>, name: Seq<char>) -> Seq<char>
    decreases attrs.len(),
{
    if attrs.len() == 0 {
        Seq::empty()
    } else {
        let a = attrs.last();
        attrs_text(attrs.drop_last(), name) + if a.1 == Some(name) { Seq::empty() } else { a.0 + " "@ }
    }
}

impl FieldOpts {
    /// The name this field has in the generated struct.
    pub fn composite_name(&self) -> (r: String)
        requires
            name_failure(self@) is None,
        ensures
            r@ == field_name(self@),
    {
        match &self.rename {
            Some(n) => n.clone(),
            None => match &self.ident {
                Some(i) => i.clone(),
                None => String::new(),
            },
        }
    }

    /// The original field name in the source struct.
    pub fn original_name(&self) -> (r: String)
        requires
            original_failure(self@) is None,
        ensures
            r@ == original_name(self@),
    {
        match &self.ident {
            Some(i) => i.clone(),
            None => String::new(),
        }
    }

    /// The type this field has in the generated struct.
    pub fn composite_type(&self) -> (r: String)
        requires
            type_failure(self@) is None,
        ensures
            r@ == field_type(self@),
    {
        let base = match &self.ty_override {
            Some(t) => match parse_type_text(t.as_str()) {
                Some(parsed) => parsed,
                None => String::new(),
            },
            None => self.ty.clone(),
        };
        if self.option {
            let mut r = String::from_str("Option < ");
            r.append(base.as_str());
            r.append(" >");
            r
        } else {
            base
        }
    }

    /// Whether this field can be directly assigned from the generated struct to the
    /// original (no type transformation was applied).
    pub fn is_direct(&self) -> (r: bool)
        ensures
            r == is_direct(self@),
    {
        !self.option && self.ty_override.is_none()
    }

    /// Whether this field requires extra arguments (skipped, option-wrapped, or type-overridden).
    pub fn needs_extra_args(&self) -> (r: bool)
        ensures
            r == needs_extra(self@),
    {
        self.skip || !self.is_direct()
    }

    /// The initializer of this field in the conversion into the generated struct.
    pub fn into_composite_assignment(&self) -> (r: String)
        requires
            original_failure(self@) is None,
            name_failure(self@) is None,
        ensures
            r@ == into_assignment(self@),
    {
        let orig = self.original_name();
        let name = self.composite_name();
        let mut src = String::from_str("self.");
        src.append(orig.as_str());
        let has_override = self.ty_override.is_some();
        let src = if self.option && has_override {
            let mut s = String::from_str("Some(");
            s.append(src.as_str());
            s.append(".into())");
            s
        } else if self.option {
            let mut s = String::from_str("Some(");
            s.append(src.as_str());
            s.append(")");
            s
        } else if has_override {
            let mut s = src;
            s.append(".into()");
            s
        } else {
            src
        };
        let mut r = name;
        r.append(": ");
        r.append(src.as_str());
        r
    }

    /// Why the field's name in the generated struct cannot be formed, if it cannot.
    pub fn name_problem(&self) -> (r: Option<Failure>)
        ensures
            r matches Some(x) ==> name_failure(self@) == Some(x@),
            r is None ==> name_failure(self@) is None,
    {
        match &self.rename {
            Some(n) => match parse_any_ident_text(n.as_str()) {
                Some(t) => if same_text(t.as_str(), n.as_str()) {
                    None
                } else {
                    Some(Failure::InvalidRename(n.clone()))
                },
                None => Some(Failure::InvalidRename(n.clone())),
            },
            None => if self.ident.is_none() { Some(Failure::UnnamedField) } else { None },
        }
    }

    /// Why the field's type in the generated struct cannot be formed, if it cannot.
    pub fn type_problem(&self) -> (r: Option<Failure>)
        ensures
            r matches Some(x) ==> type_failure(self@) == Some(x@),
            r is None ==> type_failure(self@) is None,
    {
        match &self.ty_override {
            Some(t) => if parse_type_text(t.as_str()).is_some() {
                None
            } else {
                Some(Failure::InvalidTypeOverride(t.clone()))
            },
            None => None,
        }
    }

    /// Why the field's name in the input struct is not available, if it is not.
    pub fn original_problem(&self) -> (r: Option<Failure>)
        ensures
            r matches Some(x) ==> original_failure(self@) == Some(x@),
            r is None ==> original_failure(self@) is None,
    {
        if self.ident.is_none() { Some(Failure::UnnamedField) } else { None }
    }
}

} // verus!
