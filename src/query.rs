//! The record description and the query text built from it.
use vstd::prelude::*;
use crate::text::{joined, occurs_in, str_contains, wrap_join, wrapped};

verus! {

/// One declared field of a record: its name and its type as source text.
pub struct FieldDef {
    pub name: String,
    pub ty: String,
}

/// The fields of a record type that map to table columns, in declaration
/// order, and the names of the primary key fields, in key order.
pub struct RecordFields {
    pub db_fields: Vec<FieldDef>,
    pub primary_key_fields: Vec<String>,
}

/// An element-level change to a collection column.
#[derive(Clone, Copy, Debug, PartialEq, Eq, Structural)]
pub enum CollectionOp {
    /// Adds the given elements.
    Push,
    /// Removes the given elements.
    Pull,
}

impl CollectionOp {
    /// The CQL operator, with its bind marker, applied to the column.
    pub open spec fn operand(self) -> Seq<char> {
        match self {
            CollectionOp::Push => " + ?"@,
            CollectionOp::Pull => " - ?"@,
        }
    }

    /// The start of the name of each query constant.
    pub open spec fn const_prefix(self) -> Seq<char> {
        match self {
            CollectionOp::Push => "PUSH_"@,
            CollectionOp::Pull => "PULL_"@,
        }
    }

    /// The start of the name of each accessor routine.
    pub open spec fn fn_prefix(self) -> Seq<char> {
        match self {
            CollectionOp::Push => "push_"@,
            CollectionOp::Pull => "pull_"@,
        }
    }
}

/// A type whose source text names a list or a set.
pub open spec fn is_collection_type(ty: Seq<char>) -> bool {
    occurs_in("List"@, ty) || occurs_in("Set"@, ty)
}

/// Whether the type written `ty` is a collection (list or set) type.
pub fn is_collection(ty: &str) -> (r: bool)
    ensures
        r == is_collection_type(ty@),
{
    str_contains(ty, "List") || str_contains(ty, "Set")
}

/// The fields of collection type, in their order.
pub open spec fn collection_fields(fs: Seq<FieldDef>) -> Seq<FieldDef>
    decreases fs.len(),
{
    if fs.len() == 0 {
        Seq::empty()
    } else if is_collection_type(fs.last().ty@) {
        collection_fields(fs.drop_last()).push(fs.last())
    } else {
        collection_fields(fs.drop_last())
    }
}

/// The condition that selects one row by its key: `k = ?` for each key
/// field, joined by `AND`.
pub open spec fn key_conditions(pk: Seq<String>) -> Seq<char> {
    joined(wrapped(pk, ""@, " = ?"@), " AND "@)
}

/// Builds the `WHERE` condition on the primary key fields, with one bind
/// marker for each.
pub fn where_placeholders(pk: &Vec<String>) -> (r: String)
    ensures
        r@ == key_conditions(pk@),
{
    wrap_join(pk, "", " = ?", " AND ")
}

/// The statement that applies `op` to the column `field` of the row that the
/// key selects.
pub open spec fn update_query_text(
    op: CollectionOp,
    table: Seq<char>,
    field: Seq<char>,
    pk: Seq<String>,
) -> Seq<char> {
    "UPDATE "@ + table + " SET "@ + field + " = "@ + field + op.operand() + " WHERE "@
        + key_conditions(pk)
}

/// Builds the CQL statement that applies `op` to the collection column
/// `field` of `table`, for the row selected by the primary key.
pub fn update_query(op: CollectionOp, table: &str, field: &str, pk: &Vec<String>) -> (r: String)
    ensures
        r@ == update_query_text(op, table@, field@, pk@),
{
    let mut r = String::from_str("UPDATE ");
    r.append(table);
    r.append(" SET ");
    r.append(field);
    r.append(" = ");
    r.append(field);
    match op {
        CollectionOp::Push => r.append(" + ?"),
        CollectionOp::Pull => r.append(" - ?"),
    }
    r.append(" WHERE ");
    let w = where_placeholders(pk);
    r.append(w.as_str());
    r
}

/// The name of the constant that holds the `op` statement of a field whose
/// upper-case name is `upper`.
pub open spec fn const_name_text(op: CollectionOp, upper: Seq<char>) -> Seq<char> {
    op.const_prefix() + upper + "_QUERY"@
}

/// Builds the name of the query constant from the field's upper-case name.
pub fn query_const_name(op: CollectionOp, upper: &str) -> (r: String)
    ensures
        r@ == const_name_text(op, upper@),
{
    let mut r = match op {
        CollectionOp::Push => String::from_str("PUSH_"),
        CollectionOp::Pull => String::from_str("PULL_"),
    };
    r.append(upper);
    r.append("_QUERY");
    r
}

/// The name of the accessor routine that applies `op` to `field`.
pub open spec fn accessor_name_text(op: CollectionOp, field: Seq<char>) -> Seq<char> {
    op.fn_prefix() + field
}

/// Builds the name of the accessor routine for a field.
pub fn accessor_name(op: CollectionOp, field: &str) -> (r: String)
    ensures
        r@ == accessor_name_text(op, field@),
{
    let mut r = match op {
        CollectionOp::Push => String::from_str("push_"),
        CollectionOp::Pull => String::from_str("pull_"),
    };
    r.append(field);
    r
}

} // verus!
