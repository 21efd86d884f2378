//! Renderings of user-defined aggregates from their declared shape.
//!
//! A struct or enum renders by composing the renderings of its fields
//! according to how they are declared: named fields as `Name { a: 1, b: 2 }`,
//! positional fields as `Name(1, 2)`, and a unit shape as the bare name. Enum
//! variants are prefixed with `EnumName::`. Code that implements
//! [`SporePrint`](crate::render::SporePrint) for an aggregate renders each
//! field and hands the texts to these functions, in declaration order.
use vstd::prelude::*;

use crate::text;
use crate::text::join_strings;

verus! {

/// How the fields of a struct or of an enum variant are declared.
pub enum FieldList {
    /// Labelled fields, by name, in declaration order.
    Named(Vec<String>),
    /// This many unlabelled fields, rendered in position order.
    Positional(usize),
    /// No fields at all.
    Unit,
}

/// One variant of an enum: its name and its fields.
pub struct VariantShape {
    pub name: String,
    pub fields: FieldList,
}

/// The declared shape of an aggregate type.
pub enum TypeShape {
    Struct { name: String, fields: FieldList },
    Enum { name: String, variants: Vec<VariantShape> },
}

/// How many field renderings a field list takes.
pub open spec fn field_count(fields: &FieldList) -> nat {
    match fields {
        FieldList::Named(names) => names@.len(),
        FieldList::Positional(n) => *n as nat,
        FieldList::Unit => 0,
    }
}

/// `name: value` for each named field, in order.
pub open spec fn labelled(names: Seq<Seq<char>>, values: Seq<Seq<char>>) -> Seq<Seq<char>> {
    Seq::new(names.len(), |i: int| names[i] + seq![':', ' '] + values[i])
}

/// The text that follows the name of a struct or variant.
pub open spec fn fields_text(fields: &FieldList, values: Seq<Seq<char>>) -> Seq<char> {
    match fields {
        FieldList::Named(names) => seq![' ', '{', ' '] + text::join(
            labelled(text::views(names@), values),
            text::comma_sep(),
        ) + seq![' ', '}'],
        FieldList::Positional(_) => seq!['('] + text::join(values, text::comma_sep()) + seq![')'],
        FieldList::Unit => Seq::empty(),
    }
}

/// The rendering of a struct called `name`.
pub open spec fn struct_text(name: Seq<char>, fields: &FieldList, values: Seq<Seq<char>>) -> Seq<
    char,
> {
    name + fields_text(fields, values)
}

/// The rendering of variant `variant` of the enum called `enum_name`.
pub open spec fn variant_text(
    enum_name: Seq<char>,
    variant: &VariantShape,
    values: Seq<Seq<char>>,
) -> Seq<char> {
    enum_name + seq![':', ':'] + variant.name@ + fields_text(&variant.fields, values)
}

/// Whether a value of `shape`, in variant `variant` (ignored for a struct)
/// and with `n` fields, can be rendered.
pub open spec fn shape_accepts(shape: &TypeShape, variant: int, n: nat) -> bool {
    match shape {
        TypeShape::Struct { fields, .. } => n == field_count(fields),
        TypeShape::Enum { variants, .. } => 0 <= variant < variants@.len() && n == field_count(
            &variants@[variant].fields,
        ),
    }
}

/// The rendering of a value of `shape` in variant `variant`.
pub open spec fn shape_text(shape: &TypeShape, variant: int, values: Seq<Seq<char>>) -> Seq<char> {
    match shape {
        TypeShape::Struct { name, fields } => struct_text(name@, fields, values),
        TypeShape::Enum { name, variants } => variant_text(name@, &variants@[variant], values),
    }
}

/// The text that follows the name of a struct or variant: ` { a: 1, b: 2 }`,
/// `(1, 2)`, or nothing.
pub fn render_fields(fields: &FieldList, values: &Vec<String>) -> (r: String)
    requires
        values@.len() == field_count(fields),
    ensures
        r@ == fields_text(fields, text::views(values@)),
{
    proof {
        reveal_strlit(", ");
        assert(", "@ =~= text::comma_sep());
    }
    match fields {
        FieldList::Named(names) => {
            let mut parts: Vec<String> = Vec::new();
            let mut i: usize = 0;
            while i < names.len()
                invariant
                    0 <= i <= names@.len(),
                    values@.len() == names@.len(),
                    parts@.len() == i,
                    forall|j: int|
                        0 <= j < i ==> #[trigger] parts@[j]@ == names@[j]@ + seq![':', ' ']
                            + values@[j]@,
                decreases names@.len() - i,
            {
                let mut part = names[i].clone();
                part.push(':');
                part.push(' ');
                part.append(values[i].as_str());
                assert(part@ =~= names@[i as int]@ + seq![':', ' '] + values@[i as int]@);
                parts.push(part);
                i += 1;
            }
            assert(text::views(parts@) =~= labelled(text::views(names@), text::views(values@)));
            let inner = join_strings(&parts, ", ");
            let mut out = String::new();
            out.push(' ');
            out.push('{');
            out.push(' ');
            out.append(inner.as_str());
            out.push(' ');
            out.push('}');
            assert(out@ =~= fields_text(fields, text::views(values@)));
            out
        },
        FieldList::Positional(_) => {
            let inner = join_strings(values, ", ");
            let mut out = String::new();
            out.push('(');
            out.append(inner.as_str());
            out.push(')');
            assert(out@ =~= fields_text(fields, text::views(values@)));
            out
        },
        FieldList::Unit => {
            let out = String::new();
            assert(out@ =~= fields_text(fields, text::views(values@)));
            out
        },
    }
}

/// Renders a struct called `name` from its field renderings, given in
/// declaration order.
pub fn render_struct(name: &str, fields: &FieldList, values: &Vec<String>) -> (r: String)
    requires
        values@.len() == field_count(fields),
    ensures
        r@ == struct_text(name@, fields, text::views(values@)),
{
    let mut out = String::from_str(name);
    let rest = render_fields(fields, values);
    out.append(rest.as_str());
    out
}

/// Renders variant `variant` of the enum called `enum_name` from its field
/// renderings, given in declaration order.
pub fn render_variant(enum_name: &str, variant: &VariantShape, values: &Vec<String>) -> (r: String)
    requires
        values@.len() == field_count(&variant.fields),
    ensures
        r@ == variant_text(enum_name@, variant, text::views(values@)),
{
    let mut out = String::from_str(enum_name);
    out.push(':');
    out.push(':');
    out.append(variant.name.as_str());
    let rest = render_fields(&variant.fields, values);
    out.append(rest.as_str());
    assert(out@ =~= variant_text(enum_name@, variant, text::views(values@)));
    out
}

/// Renders a value of `shape`, in variant `variant` when it is an enum, from
/// its field renderings in declaration order.
pub fn render_shape(shape: &TypeShape, variant: usize, values: &Vec<String>) -> (r: String)
    requires
        shape_accepts(shape, variant as int, values@.len()),
    ensures
        r@ == shape_text(shape, variant as int, text::views(values@)),
{
    match shape {
        TypeShape::Struct { name, fields } => render_struct(name.as_str(), fields, values),
        TypeShape::Enum { name, variants } => render_variant(
            name.as_str(),
            &variants[variant],
            values,
        ),
    }
}

/// An enum with no variants has no value that can be rendered: no variant
/// and field count is accepted for it.
pub proof fn lemma_no_variant_no_rendering(shape: &TypeShape, variant: int, n: nat)
    requires
        shape matches TypeShape::Enum { variants, .. } && variants@.len() == 0,
    ensures
        !shape_accepts(shape, variant, n),
{
}

} // verus!
