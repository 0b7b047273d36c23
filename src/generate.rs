//! The source text of the query constants and accessor routines of a record,
//! and its token stream.
use vstd::prelude::*;
use crate::query::{
    accessor_name, accessor_name_text, collection_fields, const_name_text, is_collection,
    is_collection_type, query_const_name, update_query, update_query_text, CollectionOp,
    FieldDef, RecordFields,
};
use crate::text::{
    concat_all, joined, string_literal, to_string_literal, upper_of, uppercase, wrap_join,
    wrapped,
};

verus! {

/// Everything in an accessor routine between its name and the query constant.
pub const ACCESSOR_HEAD: &'static str = "(&self, session: &charybdis::CachingSession, value: &impl charybdis::SerializeCql) -> Result<charybdis::QueryResult, charybdis::errors::CharybdisError> {\n    let res = charybdis::operations::execute(session, Self::";

/// Everything in an accessor routine after the key values.
pub const ACCESSOR_TAIL: &'static str = ")).await?;\n    Ok(res)\n}\n";

/// The declaration of a public string constant `name` whose value is `query`.
pub open spec fn const_item_text(name: Seq<char>, query: Seq<char>) -> Seq<char> {
    "pub const "@ + name + ": &'static str = "@ + string_literal(query) + ";\n"@
}

/// Writes the declaration of a public string constant.
pub fn const_item_source(name: &str, query: &str) -> (r: String)
    ensures
        r@ == const_item_text(name@, query@),
{
    let mut r = String::from_str("pub const ");
    r.append(name);
    r.append(": &'static str = ");
    let lit = to_string_literal(query);
    r.append(lit.as_str());
    r.append(";\n");
    r
}

/// The key values that a routine binds after the element: a clone of each
/// key field of the record, in key order.
pub open spec fn key_args(pk: Seq<String>) -> Seq<char> {
    joined(wrapped(pk, "self."@, ".clone()"@), ", "@)
}

/// The asynchronous method `fn_name` that runs the statement held in the
/// constant `const_name`, binding the element and then the key values.
pub open spec fn accessor_fn_text(fn_name: Seq<char>, const_name: Seq<char>, pk: Seq<String>) -> Seq<char> {
    "pub async fn "@ + fn_name + ACCESSOR_HEAD@ + const_name + ", (value, "@ + key_args(pk)
        + ACCESSOR_TAIL@
}

/// Writes the accessor routine that runs the statement in `const_name`.
pub fn accessor_fn_source(fn_name: &str, const_name: &str, pk: &Vec<String>) -> (r: String)
    ensures
        r@ == accessor_fn_text(fn_name@, const_name@, pk@),
{
    let mut r = String::from_str("pub async fn ");
    r.append(fn_name);
    r.append(ACCESSOR_HEAD);
    r.append(const_name);
    r.append(", (value, ");
    let args = wrap_join(pk, "self.", ".clone()", ", ");
    r.append(args.as_str());
    r.append(ACCESSOR_TAIL);
    r
}

/// The constant that holds the `op` statement of the column `name`.
pub open spec fn field_const_text(op: CollectionOp, table: Seq<char>, name: Seq<char>, pk: Seq<String>) -> Seq<char> {
    const_item_text(const_name_text(op, upper_of(name)), update_query_text(op, table, name, pk))
}

/// The routine that applies `op` to the column `name`.
pub open spec fn field_fn_text(op: CollectionOp, name: Seq<char>, pk: Seq<String>) -> Seq<char> {
    accessor_fn_text(accessor_name_text(op, name), const_name_text(op, upper_of(name)), pk)
}

/// One query constant for each collection field, in field order.
pub open spec fn consts_text(op: CollectionOp, table: Seq<char>, fs: Seq<FieldDef>, pk: Seq<String>) -> Seq<char> {
    concat_all(collection_fields(fs).map_values(|f: FieldDef| field_const_text(op, table, f.name@, pk)))
}

/// One accessor routine for each collection field, in field order.
pub open spec fn funs_text(op: CollectionOp, fs: Seq<FieldDef>, pk: Seq<String>) -> Seq<char> {
    concat_all(collection_fields(fs).map_values(|f: FieldDef| field_fn_text(op, f.name@, pk)))
}

/// Taking one more field adds its text if, and only if, it is a collection.
proof fn lemma_collection_step(fs: Seq<FieldDef>, i: int, g: spec_fn(FieldDef) -> Seq<char>)
    requires
        0 <= i < fs.len(),
    ensures
        concat_all(collection_fields(fs.subrange(0, i + 1)).map_values(g)) == concat_all(
            collection_fields(fs.subrange(0, i)).map_values(g),
        ) + if is_collection_type(fs[i].ty@) {
            g(fs[i])
        } else {
            Seq::empty()
        },
{
    let next = fs.subrange(0, i + 1);
    let prev = collection_fields(fs.subrange(0, i)).map_values(g);
    assert(next.drop_last() =~= fs.subrange(0, i));
    assert(next.last() == fs[i]);
    if is_collection_type(fs[i].ty@) {
        let m = collection_fields(next).map_values(g);
        assert(m.drop_last() =~= prev);
        assert(m.last() == g(fs[i]));
    } else {
        assert(concat_all(prev) + Seq::<char>::empty() =~= concat_all(prev));
    }
}

/// Writes one query constant for each collection field of `fields`.
pub fn collection_consts_source(op: CollectionOp, table: &str, fields: &RecordFields) -> (r: String)
    ensures
        r@ == consts_text(op, table@, fields.db_fields@, fields.primary_key_fields@),
{
    let fs = &fields.db_fields;
    let pk = &fields.primary_key_fields;
    let ghost g = |f: FieldDef| field_const_text(op, table@, f.name@, pk@);
    let mut r = String::new();
    let mut i: usize = 0;
    while i < fs.len()
        invariant
            i <= fs@.len(),
            g == (|f: FieldDef| field_const_text(op, table@, f.name@, pk@)),
            r@ == concat_all(collection_fields(fs@.subrange(0, i as int)).map_values(g)),
        decreases fs@.len() - i,
    {
        let f = &fs[i];
        proof {
            lemma_collection_step(fs@, i as int, g);
        }
        if is_collection(f.ty.as_str()) {
            let upper = uppercase(f.name.as_str());
            let name = query_const_name(op, upper.as_str());
            let query = update_query(op, table, f.name.as_str(), pk);
            let item = const_item_source(name.as_str(), query.as_str());
            r.append(item.as_str());
        }
        i += 1;
    }
    assert(fs@.subrange(0, fs@.len() as int) =~= fs@);
    r
}

/// Writes one accessor routine for each collection field of `fields`.
pub fn collection_funs_source(op: CollectionOp, fields: &RecordFields) -> (r: String)
    ensures
        r@ == funs_text(op, fields.db_fields@, fields.primary_key_fields@),
{
    let fs = &fields.db_fields;
    let pk = &fields.primary_key_fields;
    let ghost g = |f: FieldDef| field_fn_text(op, f.name@, pk@);
    let mut r = String::new();
    let mut i: usize = 0;
    while i < fs.len()
        invariant
            i <= fs@.len(),
            g == (|f: FieldDef| field_fn_text(op, f.name@, pk@)),
            r@ == concat_all(collection_fields(fs@.subrange(0, i as int)).map_values(g)),
        decreases fs@.len() - i,
    {
        let f = &fs[i];
        proof {
            lemma_collection_step(fs@, i as int, g);
        }
        if is_collection(f.ty.as_str()) {
            let upper = uppercase(f.name.as_str());
            let const_name = query_const_name(op, upper.as_str());
            let fn_name = accessor_name(op, f.name.as_str());
            let item = accessor_fn_source(fn_name.as_str(), const_name.as_str(), pk);
            r.append(item.as_str());
        }
        i += 1;
    }
    assert(fs@.subrange(0, fs@.len() as int) =~= fs@);
    r
}

} // verus!
