//! The source text that a declaration expands to: the builder struct, one
//! setter per field, the validating `build`, and the `builder` factory on
//! the declared record.
use vstd::prelude::*;
use vstd::string::StringExecFns;

use crate::shape::{
    is_wrapper, setter_param_text, setter_param_type, slot_type, slot_type_text, ty_inner_type,
    DeclBody, Declaration, Field,
};

verus! {

/// The part of the expansion that is repeated once per field.
#[derive(Clone, Copy, PartialEq, Eq, Debug)]
pub enum Piece {
    /// The field's slot in the builder struct.
    Slot,
    /// The field's setter method.
    Setter,
    /// The field's initialiser in `build`.
    Assemble,
    /// The field's initialiser in the factory: always absent.
    Empty,
}

/// Why a declaration cannot be expanded: only records with named fields can.
#[derive(Clone, Copy, PartialEq, Eq, Debug)]
pub enum ShapeError {
    Tuple,
    Unit,
    Enum,
    Union,
}

/// The name of the builder of the record `name`.
pub open spec fn builder_name_text(name: Seq<char>) -> Seq<char> {
    name + "Builder"@
}

/// The text that `piece` emits for the field `f`.
pub open spec fn piece_text(piece: Piece, f: Field) -> Seq<char> {
    let n = f.name@;
    match piece {
        Piece::Slot => "    "@ + n + ": "@ + slot_type_text(f.ty) + ",\n"@,
        Piece::Setter => "    pub fn "@ + n + "(&mut self, "@ + n + ": "@ + setter_param_text(f.ty)
            + ") -> &mut Self {\n        self."@ + n + " = Some("@ + n
            + ");\n        self\n    }\n"@,
        Piece::Assemble => if is_wrapper(f.ty) {
            "            "@ + n + ": self."@ + n + ".clone(),\n"@
        } else {
            "            "@ + n + ": self."@ + n + ".clone().ok_or(\""@ + n
                + " is not set\")?,\n"@
        },
        Piece::Empty => "            "@ + n + ": None,\n"@,
    }
}

/// The text of `piece` for each field of `fields`, in declaration order.
pub open spec fn pieces_text(piece: Piece, fields: Seq<Field>) -> Seq<char>
    decreases fields.len(),
{
    if fields.len() == 0 {
        Seq::empty()
    } else {
        pieces_text(piece, fields.drop_last()) + piece_text(piece, fields.last())
    }
}

/// The whole expansion of the record `name` with the named fields `fields`.
pub open spec fn expansion_text(name: Seq<char>, fields: Seq<Field>) -> Seq<char> {
    let b = builder_name_text(name);
    "pub struct "@ + b + " {\n"@ + pieces_text(Piece::Slot, fields) + "}\n\nimpl "@ + b + " {\n"@
        + pieces_text(Piece::Setter, fields)
        + "    pub fn build(&self) -> Result<"@ + name
        + ", Box<dyn std::error::Error>> {\n        Ok("@ + name + " {\n"@
        + pieces_text(Piece::Assemble, fields) + "        })\n    }\n}\n\nimpl "@ + name
        + " {\n    fn builder() -> "@ + b + " {\n        "@ + b + " {\n"@
        + pieces_text(Piece::Empty, fields) + "        }\n    }\n}\n"@
}

/// The name of the builder of the record `name`: `name` followed by `Builder`.
pub fn builder_name(name: &String) -> (r: String)
    ensures
        r@ == builder_name_text(name@),
{
    let mut r = name.clone();
    r.append("Builder");
    r
}

/// Appends the text of `piece` for the field `f` to `out`.
fn push_piece(out: &mut String, piece: Piece, f: &Field)
    ensures
        final(out)@ == old(out)@ + piece_text(piece, *f),
{
    let n = f.name.as_str();
    match piece {
        Piece::Slot => {
            out.append("    ");
            out.append(n);
            out.append(": ");
            out.append(slot_type(&f.ty).as_str());
            out.append(",\n");
        },
        Piece::Setter => {
            out.append("    pub fn ");
            out.append(n);
            out.append("(&mut self, ");
            out.append(n);
            out.append(": ");
            out.append(setter_param_type(&f.ty).as_str());
            out.append(") -> &mut Self {\n        self.");
            out.append(n);
            out.append(" = Some(");
            out.append(n);
            out.append(");\n        self\n    }\n");
        },
        Piece::Assemble => {
            out.append("            ");
            out.append(n);
            out.append(": self.");
            out.append(n);
            if ty_inner_type(&f.ty).is_some() {
                out.append(".clone(),\n");
            } else {
                out.append(".clone().ok_or(\"");
                out.append(n);
                out.append(" is not set\")?,\n");
            }
        },
        Piece::Empty => {
            out.append("            ");
            out.append(n);
            out.append(": None,\n");
        },
    }
}

/// Appends the text of `piece` for every field of `fields`, in order, to `out`.
fn push_pieces(out: &mut String, piece: Piece, fields: &Vec<Field>)
    ensures
        final(out)@ == old(out)@ + pieces_text(piece, fields@),
{
    let ghost start = out@;
    let mut i: usize = 0;
    while i < fields.len()
        invariant
            i <= fields@.len(),
            out@ == start + pieces_text(piece, fields@.take(i as int)),
        decreases fields@.len() - i,
    {
        push_piece(out, piece, &fields[i]);
        assert(fields@.take(i + 1).drop_last() =~= fields@.take(i as int));
        i = i + 1;
    }
    assert(fields@.take(i as int) =~= fields@);
}

/// The source text that the record `name` with the named fields `fields`
/// expands to.
pub fn expand_record(name: &String, fields: &Vec<Field>) -> (r: String)
    ensures
        r@ == expansion_text(name@, fields@),
{
    let b = builder_name(name);
    let mut r = String::from_str("pub struct ");
    r.append(b.as_str());
    r.append(" {\n");
    push_pieces(&mut r, Piece::Slot, fields);
    r.append("}\n\nimpl ");
    r.append(b.as_str());
    r.append(" {\n");
    push_pieces(&mut r, Piece::Setter, fields);
    r.append("    pub fn build(&self) -> Result<");
    r.append(name.as_str());
    r.append(", Box<dyn std::error::Error>> {\n        Ok(");
    r.append(name.as_str());
    r.append(" {\n");
    push_pieces(&mut r, Piece::Assemble, fields);
    r.append("        })\n    }\n}\n\nimpl ");
    r.append(name.as_str());
    r.append(" {\n    fn builder() -> ");
    r.append(b.as_str());
    r.append(" {\n        ");
    r.append(b.as_str());
    r.append(" {\n");
    push_pieces(&mut r, Piece::Empty, fields);
    r.append("        }\n    }\n}\n");
    r
}

/// Expands a declaration into the source text of its builder.
///
/// Only a record with named fields can be expanded; any other shape is
/// refused, with the shape it has.
pub fn derive(input: &Declaration) -> (r: Result<String, ShapeError>)
    ensures
        match input.body {
            DeclBody::Named(fields) => r is Ok && r->Ok_0@ == expansion_text(
                input.name@,
                fields@,
            ),
            DeclBody::Tuple => r == Err::<String, ShapeError>(ShapeError::Tuple),
            DeclBody::Unit => r == Err::<String, ShapeError>(ShapeError::Unit),
            DeclBody::Enum => r == Err::<String, ShapeError>(ShapeError::Enum),
            DeclBody::Union => r == Err::<String, ShapeError>(ShapeError::Union),
        },
{
    match &input.body {
        DeclBody::Named(fields) => Ok(expand_record(&input.name, fields)),
        DeclBody::Tuple => Err(ShapeError::Tuple),
        DeclBody::Unit => Err(ShapeError::Unit),
        DeclBody::Enum => Err(ShapeError::Enum),
        DeclBody::Union => Err(ShapeError::Union),
    }
}

} // verus!
