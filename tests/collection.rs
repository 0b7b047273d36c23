use charybdis_macros::generate::{
    accessor_fn_source, collection_consts_source, collection_funs_source, const_item_source,
};
use charybdis_macros::query::{
    accessor_name, is_collection, query_const_name, update_query, where_placeholders,
    CollectionOp, FieldDef, RecordFields,
};
use charybdis_macros::text::{str_contains, to_string_literal, wrap_join};
use charybdis_macros::tokens::{
    pull_from_collection_consts, pull_from_collection_funs, push_to_collection_consts,
    push_to_collection_funs, to_tokens, GenError,
};
use proc_macro2::TokenStream;

fn field(name: &str, ty: &str) -> FieldDef {
    FieldDef { name: name.to_string(), ty: ty.to_string() }
}

fn keys(names: &[&str]) -> Vec<String> {
    names.iter().map(|n| n.to_string()).collect()
}

fn post_fields() -> RecordFields {
    RecordFields {
        db_fields: vec![
            field("id", "Uuid"),
            field("tags", "Set < Text >"),
            field("title", "Text"),
            field("comments", "Option < List < Text > >"),
        ],
        primary_key_fields: keys(&["category", "id"]),
    }
}

fn tokens_text(src: &str) -> String {
    syn::parse_str::<TokenStream>(src).unwrap().to_string()
}

const FN_HEAD: &str = "(&self, session: &charybdis::CachingSession, value: &impl charybdis::SerializeCql) -> Result<charybdis::QueryResult, charybdis::errors::CharybdisError> {\n    let res = charybdis::operations::execute(session, Self::";

#[test]
fn contains_finds_runs() {
    assert!(str_contains("Set<Text>", "Set"));
    assert!(str_contains("Frozen<List<Int>>", "List"));
    assert!(str_contains("abc", ""));
    assert!(str_contains("", ""));
    assert!(!str_contains("Se", "Set"));
    assert!(!str_contains("Text", "List"));
    assert!(!str_contains("Lis t", "List"));
}

#[test]
fn collection_types_are_lists_and_sets() {
    assert!(is_collection("List < Text >"));
    assert!(is_collection("Set < i32 >"));
    assert!(is_collection("Option < Frozen < List < Int > > >"));
    assert!(!is_collection("Text"));
    assert!(!is_collection("Map < Text , Int >"));
    assert!(!is_collection("Uuid"));
    assert!(!is_collection(""));
}

#[test]
fn join_wraps_each_item() {
    assert_eq!(wrap_join(&keys(&["a", "b", "c"]), "<", ">", "|"), "<a>|<b>|<c>");
    assert_eq!(wrap_join(&keys(&[]), "<", ">", "|"), "");
    assert_eq!(wrap_join(&keys(&["x"]), "", "", ", "), "x");
}

#[test]
fn where_clause_binds_each_key() {
    assert_eq!(where_placeholders(&keys(&[])), "");
    assert_eq!(where_placeholders(&keys(&["id"])), "id = ?");
    assert_eq!(where_placeholders(&keys(&["category", "id"])), "category = ? AND id = ?");
}

#[test]
fn update_queries_add_and_remove() {
    let pk = keys(&["category", "id"]);
    assert_eq!(
        update_query(CollectionOp::Push, "posts", "tags", &pk),
        "UPDATE posts SET tags = tags + ? WHERE category = ? AND id = ?"
    );
    assert_eq!(
        update_query(CollectionOp::Pull, "posts", "tags", &pk),
        "UPDATE posts SET tags = tags - ? WHERE category = ? AND id = ?"
    );
    assert_eq!(
        update_query(CollectionOp::Push, "t", "c", &keys(&[])),
        "UPDATE t SET c = c + ? WHERE "
    );
}

#[test]
fn names_of_constants_and_routines() {
    assert_eq!(query_const_name(CollectionOp::Push, "TAGS"), "PUSH_TAGS_QUERY");
    assert_eq!(query_const_name(CollectionOp::Pull, "USER_IDS"), "PULL_USER_IDS_QUERY");
    assert_eq!(accessor_name(CollectionOp::Push, "tags"), "push_tags");
    assert_eq!(accessor_name(CollectionOp::Pull, "user_ids"), "pull_user_ids");
}

#[test]
fn string_literals_escape_quotes_and_backslashes() {
    assert_eq!(to_string_literal("abc"), "\"abc\"");
    assert_eq!(to_string_literal(""), "\"\"");
    assert_eq!(to_string_literal("a\"b\\c"), "\"a\\\"b\\\\c\"");
    assert_eq!(to_string_literal("x\ny\tz\r"), "\"x\\ny\\tz\\r\"");
    assert_eq!(to_string_literal("é"), "\"é\"");
}

#[test]
fn const_item_declares_a_str_constant() {
    assert_eq!(
        const_item_source("Q", "UPDATE t SET c = c + ? WHERE id = ?"),
        "pub const Q: &'static str = \"UPDATE t SET c = c + ? WHERE id = ?\";\n"
    );
}

#[test]
fn accessor_binds_value_then_keys() {
    let expected = format!(
        "pub async fn push_tags{}PUSH_TAGS_QUERY, (value, self.category.clone(), self.id.clone())).await?;\n    Ok(res)\n}}\n",
        FN_HEAD
    );
    assert_eq!(accessor_fn_source("push_tags", "PUSH_TAGS_QUERY", &keys(&["category", "id"])), expected);
    let no_keys = format!("pub async fn pull_x{}PULL_X_QUERY, (value, )).await?;\n    Ok(res)\n}}\n", FN_HEAD);
    assert_eq!(accessor_fn_source("pull_x", "PULL_X_QUERY", &keys(&[])), no_keys);
}

#[test]
fn consts_for_each_collection_field() {
    let fields = post_fields();
    assert_eq!(
        collection_consts_source(CollectionOp::Push, "blog.posts", &fields),
        "pub const PUSH_TAGS_QUERY: &'static str = \"UPDATE blog.posts SET tags = tags + ? WHERE category = ? AND id = ?\";\n\
         pub const PUSH_COMMENTS_QUERY: &'static str = \"UPDATE blog.posts SET comments = comments + ? WHERE category = ? AND id = ?\";\n"
    );
    assert_eq!(
        collection_consts_source(CollectionOp::Pull, "blog.posts", &fields),
        "pub const PULL_TAGS_QUERY: &'static str = \"UPDATE blog.posts SET tags = tags - ? WHERE category = ? AND id = ?\";\n\
         pub const PULL_COMMENTS_QUERY: &'static str = \"UPDATE blog.posts SET comments = comments - ? WHERE category = ? AND id = ?\";\n"
    );
}

#[test]
fn routines_for_each_collection_field() {
    let fields = post_fields();
    let args = "(value, self.category.clone(), self.id.clone())).await?;\n    Ok(res)\n}\n";
    let expected = format!(
        "pub async fn push_tags{h}PUSH_TAGS_QUERY, {a}pub async fn push_comments{h}PUSH_COMMENTS_QUERY, {a}",
        h = FN_HEAD,
        a = args
    );
    assert_eq!(collection_funs_source(CollectionOp::Push, &fields), expected);
    let expected_pull = format!(
        "pub async fn pull_tags{h}PULL_TAGS_QUERY, {a}pub async fn pull_comments{h}PULL_COMMENTS_QUERY, {a}",
        h = FN_HEAD,
        a = args
    );
    assert_eq!(collection_funs_source(CollectionOp::Pull, &fields), expected_pull);
}

#[test]
fn no_collection_fields_give_nothing() {
    let fields = RecordFields {
        db_fields: vec![field("id", "Uuid"), field("name", "Text")],
        primary_key_fields: keys(&["id"]),
    };
    assert_eq!(collection_consts_source(CollectionOp::Push, "users", &fields), "");
    assert_eq!(collection_funs_source(CollectionOp::Pull, &fields), "");
    assert!(push_to_collection_funs(&fields).unwrap().is_empty());
}

#[test]
fn upper_case_names_with_digits_and_underscores() {
    let fields = RecordFields {
        db_fields: vec![field("user_ids2", "List < Uuid >")],
        primary_key_fields: keys(&["id"]),
    };
    let src = collection_consts_source(CollectionOp::Push, "t", &fields);
    assert!(src.starts_with("pub const PUSH_USER_IDS2_QUERY: "));
}

#[test]
fn push_consts_tokens() {
    let fields = post_fields();
    let tokens = push_to_collection_consts("posts", &fields).unwrap();
    let expected = "pub const PUSH_TAGS_QUERY: &'static str = \"UPDATE posts SET tags = tags + ? WHERE category = ? AND id = ?\"; \
                    pub const PUSH_COMMENTS_QUERY: &'static str = \"UPDATE posts SET comments = comments + ? WHERE category = ? AND id = ?\";";
    assert_eq!(tokens.to_string(), tokens_text(expected));
}

#[test]
fn pull_consts_tokens() {
    let fields = post_fields();
    let tokens = pull_from_collection_consts("posts", &fields).unwrap();
    let expected = "pub const PULL_TAGS_QUERY: &'static str = \"UPDATE posts SET tags = tags - ? WHERE category = ? AND id = ?\"; \
                    pub const PULL_COMMENTS_QUERY: &'static str = \"UPDATE posts SET comments = comments - ? WHERE category = ? AND id = ?\";";
    assert_eq!(tokens.to_string(), tokens_text(expected));
}

#[test]
fn push_funs_tokens() {
    let fields = RecordFields {
        db_fields: vec![field("tags", "Set < Text >")],
        primary_key_fields: keys(&["id"]),
    };
    let tokens = push_to_collection_funs(&fields).unwrap();
    let expected = "pub async fn push_tags(&self, session: &charybdis::CachingSession, value: &impl charybdis::SerializeCql) \
                    -> Result<charybdis::QueryResult, charybdis::errors::CharybdisError> { \
                    let res = charybdis::operations::execute(session, Self::PUSH_TAGS_QUERY, (value, self.id.clone())).await?; \
                    Ok(res) }";
    assert_eq!(tokens.to_string(), tokens_text(expected));
}

#[test]
fn pull_funs_tokens() {
    let fields = RecordFields {
        db_fields: vec![field("tags", "Set < Text >")],
        primary_key_fields: keys(&["id"]),
    };
    let tokens = pull_from_collection_funs(&fields).unwrap();
    let expected = "pub async fn pull_tags(&self, session: &charybdis::CachingSession, value: &impl charybdis::SerializeCql) \
                    -> Result<charybdis::QueryResult, charybdis::errors::CharybdisError> { \
                    let res = charybdis::operations::execute(session, Self::PULL_TAGS_QUERY, (value, self.id.clone())).await?; \
                    Ok(res) }";
    assert_eq!(tokens.to_string(), tokens_text(expected));
}

#[test]
fn table_name_with_quote_is_escaped_in_tokens() {
    let fields = RecordFields {
        db_fields: vec![field("tags", "Set < Text >")],
        primary_key_fields: keys(&["id"]),
    };
    let tokens = push_to_collection_consts("a\"b", &fields).unwrap();
    let expected = "pub const PUSH_TAGS_QUERY: &'static str = \"UPDATE a\\\"b SET tags = tags + ? WHERE id = ?\";";
    assert_eq!(tokens.to_string(), tokens_text(expected));
}

#[test]
fn malformed_text_is_an_error() {
    assert!(matches!(to_tokens("\"unterminated"), Err(GenError::MalformedTokens)));
    assert!(matches!(to_tokens("a ) b"), Err(GenError::MalformedTokens)));
    assert!(to_tokens("").unwrap().is_empty());
    assert_eq!(to_tokens("a + b").unwrap().to_string(), "a + b");
}
