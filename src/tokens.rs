//! The token streams that a derive emits for the collection columns of a
//! record.
use vstd::prelude::*;
use proc_macro2::TokenStream;
use crate::generate::{collection_consts_source, collection_funs_source, consts_text, funs_text};
use crate::query::{CollectionOp, RecordFields};

verus! {

/// `proc_macro2::TokenStream`, carried through unopened.
#[verifier::external_type_specification]
#[verifier::external_body]
pub struct ExTokenStream(proc_macro2::TokenStream);

/// `syn::Error`, which `syn::parse_str` returns on text it cannot read.
#[verifier::external_type_specification]
#[verifier::external_body]
pub struct ExSynError(syn::Error);

/// Whether proc-macro2's own lexer reads a text as a sequence of Rust tokens.
pub uninterp spec fn lexes(s: Seq<char>) -> bool;

/// Relies on `syn::parse_str::<proc_macro2::TokenStream>`: it fails where
/// `proc_macro2::TokenStream::from_str` does. That always runs proc-macro2's
/// own lexer first, so success means that lexer accepted the text. Inside a
/// procedural macro the compiler's lexer must accept it too, and that one
/// depends on the compiler and the edition, so a failure says nothing of the
/// text alone.
#[verifier::external_body]
fn parse_token_stream(s: &str) -> (r: Result<TokenStream, syn::Error>)
    ensures
        r is Ok ==> lexes(s@),
{
    syn::parse_str::<TokenStream>(s)
}

/// Why generated text could not be turned into tokens.
#[derive(Clone, Copy, Debug, PartialEq, Eq, Structural)]
pub enum GenError {
    /// A lexer, proc-macro2's own or the compiler's, refused the text.
    MalformedTokens,
}

/// Turns generated source text into a token stream; it succeeds only on text
/// that proc-macro2's own lexer reads.
pub fn to_tokens(src: &str) -> (r: Result<TokenStream, GenError>)
    ensures
        r is Ok ==> lexes(src@),
        r is Err ==> r == Err::<TokenStream, GenError>(GenError::MalformedTokens),
{
    match parse_token_stream(src) {
        Ok(t) => Ok(t),
        Err(_) => Err(GenError::MalformedTokens),
    }
}

/// The constants `PUSH_<FIELD>_QUERY`, one for each list or set field, each
/// holding the statement that adds elements to that column of `table_name`.
pub fn push_to_collection_consts(table_name: &str, fields: &RecordFields) -> (r: Result<TokenStream, GenError>)
    ensures
        r is Ok ==> lexes(
            consts_text(CollectionOp::Push, table_name@, fields.db_fields@, fields.primary_key_fields@),
        ),
        r is Err ==> r == Err::<TokenStream, GenError>(GenError::MalformedTokens),
{
    let src = collection_consts_source(CollectionOp::Push, table_name, fields);
    to_tokens(src.as_str())
}

/// The constants `PULL_<FIELD>_QUERY`, one for each list or set field, each
/// holding the statement that removes elements from that column of
/// `table_name`.
pub fn pull_from_collection_consts(table_name: &str, fields: &RecordFields) -> (r: Result<TokenStream, GenError>)
    ensures
        r is Ok ==> lexes(
            consts_text(CollectionOp::Pull, table_name@, fields.db_fields@, fields.primary_key_fields@),
        ),
        r is Err ==> r == Err::<TokenStream, GenError>(GenError::MalformedTokens),
{
    let src = collection_consts_source(CollectionOp::Pull, table_name, fields);
    to_tokens(src.as_str())
}

/// The methods `push_<field>`, one for each list or set field, each running
/// the matching `PUSH_<FIELD>_QUERY` for the record's key.
pub fn push_to_collection_funs(fields: &RecordFields) -> (r: Result<TokenStream, GenError>)
    ensures
        r is Ok ==> lexes(funs_text(CollectionOp::Push, fields.db_fields@, fields.primary_key_fields@)),
        r is Err ==> r == Err::<TokenStream, GenError>(GenError::MalformedTokens),
{
    let src = collection_funs_source(CollectionOp::Push, fields);
    to_tokens(src.as_str())
}

/// The methods `pull_<field>`, one for each list or set field, each running
/// the matching `PULL_<FIELD>_QUERY` for the record's key.
pub fn pull_from_collection_funs(fields: &RecordFields) -> (r: Result<TokenStream, GenError>)
    ensures
        r is Ok ==> lexes(funs_text(CollectionOp::Pull, fields.db_fields@, fields.primary_key_fields@)),
        r is Err ==> r == Err::<TokenStream, GenError>(GenError::MalformedTokens),
{
    let src = collection_funs_source(CollectionOp::Pull, fields);
    to_tokens(src.as_str())
}

} // verus!
