use findable_by::attrs::parse_attribute_list;
use findable_by::definition::{FieldDef, TypeDefinition, TypeShape};
use findable_by::emit::gen_find_by_func;
use findable_by::error::TransformError;
use findable_by::table::get_table_name;
use findable_by::transform::findable_by;

const USER_SOURCE: &str = "#[table_name = \"users\"]\npub struct User {\n    id: i32,\n    email: String,\n}";

fn user_fields() -> Vec<FieldDef> {
    vec![
        FieldDef::new("id".to_string(), "i32".to_string()),
        FieldDef::new("email".to_string(), "String".to_string()),
    ]
}

fn user_with_source(source: &str) -> TypeDefinition {
    TypeDefinition::new("User".to_string(), TypeShape::Struct(user_fields()), source.to_string())
}

fn user() -> TypeDefinition {
    user_with_source(USER_SOURCE)
}

fn email_block() -> String {
    "\nimpl User { pub fn find_by_email(attr: &String, conn: &PgConnection) -> Option<User> { \
use crate::schema::users::dsl::email as email_col; \
match users::table.filter(email_col.eq(attr)).first(conn) { Ok(res) => Some(res), Err(_) => None, } } \
pub fn find_all_by_email(attr: &String, conn: &PgConnection) -> Result<Vec<User>, ::diesel::result::Error> { \
use crate::schema::users::dsl::email as email_col; \
users::table.filter(email_col.eq(attr)).get_results(conn) } }"
        .to_string()
}

#[test]
fn user_email_example() {
    let out = findable_by("\"email\"", &user()).unwrap();
    assert_eq!(out, format!("{}{}", USER_SOURCE, email_block()));
}

#[test]
fn two_functions_per_requested_field_in_order() {
    let out = findable_by("email, id", &user()).unwrap();
    assert!(out.starts_with(USER_SOURCE));
    assert_eq!(out.matches("pub fn ").count(), 4);
    let one_email = out.find("fn find_by_email(attr: &String").unwrap();
    let all_email = out.find("fn find_all_by_email(attr: &String").unwrap();
    let one_id = out.find("fn find_by_id(attr: &i32").unwrap();
    let all_id = out.find("fn find_all_by_id(attr: &i32").unwrap();
    assert!(one_email < all_email && all_email < one_id && one_id < all_id);
    assert_eq!(out.matches("crate::schema::users::dsl::").count(), 4);
}

#[test]
fn duplicate_requests_are_not_merged() {
    let out = findable_by("email,email", &user()).unwrap();
    assert_eq!(out, format!("{}{}{}", USER_SOURCE, email_block(), email_block()));
}

#[test]
fn unknown_field_aborts() {
    match findable_by("email, name", &user()) {
        Err(TransformError::UnknownField { field, struct_name }) => {
            assert_eq!(field, "name");
            assert_eq!(struct_name, "User");
        }
        other => panic!("unexpected {:?}", other),
    }
}

#[test]
fn trailing_comma_gives_empty_unknown_field() {
    match findable_by("email,", &user()) {
        Err(TransformError::UnknownField { field, .. }) => assert_eq!(field, ""),
        other => panic!("unexpected {:?}", other),
    }
}

#[test]
fn field_names_are_case_sensitive() {
    assert!(matches!(
        findable_by("Email", &user()),
        Err(TransformError::UnknownField { .. })
    ));
}

#[test]
fn missing_annotation_aborts() {
    let def = user_with_source("pub struct User {\n    id: i32,\n    email: String,\n}");
    assert!(matches!(
        findable_by("email", &def),
        Err(TransformError::MissingTableAnnotation)
    ));
}

#[test]
fn annotation_without_quoted_value_is_malformed() {
    let def = user_with_source("#[table_name = ]\npub struct User {\n    id: i32,\n}");
    assert!(matches!(
        findable_by("email", &def),
        Err(TransformError::MalformedAnnotation)
    ));
}

#[test]
fn sum_and_opaque_shapes_are_refused() {
    for shape in [TypeShape::Enum, TypeShape::Union, TypeShape::TupleStruct] {
        let def = TypeDefinition::new("User".to_string(), shape, String::new());
        assert!(matches!(
            findable_by("anything, at all,", &def),
            Err(TransformError::UnsupportedShape)
        ));
    }
}

#[test]
fn shape_is_checked_before_annotation_and_fields() {
    let def = TypeDefinition::new("E".to_string(), TypeShape::Enum, USER_SOURCE.to_string());
    assert!(matches!(
        findable_by("email", &def),
        Err(TransformError::UnsupportedShape)
    ));
}

#[test]
fn same_inputs_give_same_output() {
    let a = findable_by("id, email", &user()).unwrap();
    let b = findable_by("id, email", &user()).unwrap();
    assert_eq!(a, b);
    let c = findable_by("email, id", &user()).unwrap();
    assert_ne!(a, c);
    assert!(a.find("find_by_id").unwrap() < a.find("find_by_email").unwrap());
}

#[test]
fn unit_struct_has_no_fields() {
    let def = TypeDefinition::new(
        "Marker".to_string(),
        TypeShape::Struct(vec![]),
        "#[table_name = \"markers\"]\nstruct Marker;".to_string(),
    );
    assert!(matches!(
        findable_by("id", &def),
        Err(TransformError::UnknownField { .. })
    ));
}

#[test]
fn attribute_list_strips_whitespace_and_quotes() {
    assert_eq!(parse_attribute_list("email, \"username\""), vec!["email", "username"]);
    assert_eq!(parse_attribute_list(" a ,\tb\n, c "), vec!["a", "b", "c"]);
    assert_eq!(parse_attribute_list("u s e r"), vec!["user"]);
}

#[test]
fn attribute_list_keeps_empty_pieces() {
    assert_eq!(parse_attribute_list(""), vec![""]);
    assert_eq!(parse_attribute_list("a,,b,"), vec!["a", "", "b", ""]);
}

#[test]
fn table_name_after_leading_whitespace() {
    let src = "/// doc\n   #[table_name = \"accounts\"]\nstruct A { x: u8 }";
    assert_eq!(get_table_name(src).unwrap(), "accounts");
}

#[test]
fn table_name_first_annotation_wins() {
    let src = "#[table_name = \"first\"]\n#[table_name = \"second\"]\nstruct A;";
    assert_eq!(get_table_name(src).unwrap(), "first");
}

#[test]
fn table_name_with_crlf_line_endings() {
    let src = "#[table_name = \"t\"]\r\nstruct A;";
    assert_eq!(get_table_name(src).unwrap(), "t");
}

#[test]
fn table_name_capture_is_greedy() {
    let src = "#[table_name = \"a\"] #[other = \"b\"]\nstruct A;";
    assert_eq!(get_table_name(src).unwrap(), "a\"] #[other = \"b");
}

#[test]
fn table_name_empty_quotes() {
    assert_eq!(get_table_name("#[table_name = \"\"]").unwrap(), "");
}

#[test]
fn table_name_missing_or_malformed() {
    assert!(matches!(
        get_table_name("struct A;\n// #[table_name = \"x\"] in a comment"),
        Err(TransformError::MissingTableAnnotation)
    ));
    assert!(matches!(get_table_name(""), Err(TransformError::MissingTableAnnotation)));
    assert!(matches!(
        get_table_name("#[table_name = users]"),
        Err(TransformError::MalformedAnnotation)
    ));
    assert!(matches!(
        get_table_name("#[table_name =\"users\"]"),
        Err(TransformError::MalformedAnnotation)
    ));
}

#[test]
fn first_declared_field_of_a_name_is_used() {
    let fields = vec![
        FieldDef::new("id".to_string(), "i32".to_string()),
        FieldDef::new("id".to_string(), "i64".to_string()),
    ];
    let out = gen_find_by_func("Row", "rows", &"id".to_string(), &fields).unwrap();
    assert!(out.contains("find_by_id(attr: &i32"));
    assert!(!out.contains("i64"));
    assert!(out.contains("rows::table.filter(id_col.eq(attr)).first(conn)"));
    assert!(out.contains("rows::table.filter(id_col.eq(attr)).get_results(conn)"));
}

#[test]
fn error_messages_name_field_and_type() {
    let e = TransformError::UnknownField { field: "name".to_string(), struct_name: "User".to_string() };
    assert_eq!(e.message(), "Attribute name not found in User");
    assert_eq!(
        TransformError::MalformedAnnotation.message(),
        "Malformed table_name attribute"
    );
}
