use sql_query_builder::{Field, FieldValue, QueryBuilder, QueryError, Scalar, SqlQueryBuilder};

fn text(value: &str) -> Scalar {
    Scalar::Text(value.to_string())
}

#[test]
fn should_insert_and_return() {
    let query = SqlQueryBuilder::table("users")
        .INSERT_AS_SLICE(&[("id", "1"), ("name", "John")])
        .RETURNING(&["*"])
        .build()
        .unwrap();

    assert_eq!(
        query,
        "INSERT INTO users (id, name) VALUES ('1', 'John') RETURNING *;"
    );
}

#[test]
fn should_insert_and_return_from_struct() {
    let user = vec![
        Field::new("id", FieldValue::Optional(Some(Scalar::I32(1)))),
        Field::new("name", FieldValue::Optional(Some(text("John")))),
    ];

    let query = SqlQueryBuilder::table("users")
        .INSERT(&user)
        .RETURNING(&["*"])
        .build()
        .unwrap();

    assert_eq!(
        query,
        "INSERT INTO users (id, name) VALUES ('1', 'John') RETURNING *;"
    );
}

#[test]
fn should_select_where_id_equal_1() {
    let query = SqlQueryBuilder::new()
        .SELECT(&["id", "name"])
        .FROM("users")
        .WHERE("id", "=", "1")
        .build()
        .unwrap();

    assert_eq!(query, "SELECT id, name FROM users WHERE id = '1';");
}

#[test]
fn should_select_where_id_equal_1_and_name_equal_john() {
    let query = SqlQueryBuilder::new()
        .SELECT(&["id", "name"])
        .FROM("users")
        .WHERE("id", "=", "1")
        .AND("name", "=", "John")
        .build()
        .unwrap();

    assert_eq!(
        query,
        "SELECT id, name FROM users WHERE id = '1' AND name = 'John';"
    );
}

#[test]
fn should_update_users_set_name_equal_john_where_id_equal_1() {
    let user = vec![
        Field::new("name", FieldValue::Optional(Some(text("John")))),
        Field::new("id", FieldValue::Optional(None)),
    ];

    let query = SqlQueryBuilder::table("users")
        .UPDATE(&user)
        .WHERE("id", "=", "1")
        .build()
        .unwrap();

    assert_eq!(query, "UPDATE users SET name = 'John' WHERE id = '1';");
}

#[test]
fn should_use_multiple_where_and() {
    let user = vec![
        Field::new("user_name", FieldValue::Optional(Some(text("John")))),
        Field::new("id", FieldValue::Optional(Some(text("1")))),
    ];

    let query = SqlQueryBuilder::new()
        .SELECT(&["*"])
        .WHERE_AND(&user)
        .build()
        .unwrap();

    assert_eq!(query, "SELECT * WHERE user_name = 'John' AND id = '1';");
}

#[test]
fn a_builder_without_clauses_has_no_statement() {
    assert_eq!(SqlQueryBuilder::new().build(), Err(QueryError::NoQuery));
    assert_eq!(SqlQueryBuilder::new().to_string(), Err(QueryError::NoQuery));
    assert_eq!(SqlQueryBuilder::table("users").build(), Err(QueryError::NoQuery));
    assert_eq!(SqlQueryBuilder::default().build(), Err(QueryError::NoQuery));
}

#[test]
fn to_string_gives_what_build_gives() {
    let mut builder = SqlQueryBuilder::new();
    builder.SELECT(&["id"]).FROM("users");
    assert_eq!(builder.to_string(), builder.build());
    assert_eq!(builder.to_string().unwrap(), "SELECT id FROM users;");
}

#[test]
fn an_insert_without_pairs_is_an_error() {
    let none: [(&str, &str); 0] = [];
    let built = SqlQueryBuilder::table("users").INSERT_AS_SLICE(&none).build();
    assert_eq!(built, Err(QueryError::EmptyColumnSet));

    let nothing_rendered = vec![
        Field::new("id", FieldValue::Optional(None)),
        Field::new("tags", FieldValue::Unsupported),
    ];
    let built = SqlQueryBuilder::table("users").INSERT(&nothing_rendered).build();
    assert_eq!(built, Err(QueryError::EmptyColumnSet));
}

#[test]
fn an_update_without_pairs_is_an_error() {
    let none: [(&str, &str); 0] = [];
    let built = SqlQueryBuilder::table("users").UPDATE_AS_SLICE(&none).build();
    assert_eq!(built, Err(QueryError::EmptyColumnSet));

    let no_fields: Vec<Field> = Vec::new();
    let built = SqlQueryBuilder::table("users").UPDATE(&no_fields).build();
    assert_eq!(built, Err(QueryError::EmptyColumnSet));
}

#[test]
fn an_error_stays_while_clauses_are_added() {
    let none: [(&str, &str); 0] = [];
    let built = SqlQueryBuilder::table("users")
        .UPDATE_AS_SLICE(&none)
        .WHERE("id", "=", "1")
        .build();
    assert_eq!(built, Err(QueryError::EmptyColumnSet));
}

#[test]
fn an_update_passes_over_empty_and_null_texts() {
    let user = vec![
        Field::new("name", FieldValue::Direct(text(""))),
        Field::new("nick", FieldValue::Direct(text("null"))),
        Field::new("age", FieldValue::Direct(Scalar::U8(42))),
        Field::new("town", FieldValue::Direct(text("nullable"))),
    ];
    let query = SqlQueryBuilder::table("users").UPDATE(&user).build().unwrap();
    assert_eq!(query, "UPDATE users SET age = '42', town = 'nullable';");

    let unusable = vec![
        Field::new("name", FieldValue::Direct(text(""))),
        Field::new("nick", FieldValue::Direct(text("null"))),
    ];
    let built = SqlQueryBuilder::table("users").UPDATE(&unusable).build();
    assert_eq!(built, Err(QueryError::EmptyColumnSet));
}

#[test]
fn an_update_from_pairs_keeps_empty_and_null_texts() {
    let query = SqlQueryBuilder::table("users")
        .UPDATE_AS_SLICE(&[("name", ""), ("nick", "null")])
        .build()
        .unwrap();
    assert_eq!(query, "UPDATE users SET name = '', nick = 'null';");
}

#[test]
fn an_insert_keeps_empty_and_null_texts() {
    let user = vec![
        Field::new("name", FieldValue::Direct(text(""))),
        Field::new("nick", FieldValue::Direct(text("null"))),
    ];
    let query = SqlQueryBuilder::table("users").INSERT(&user).build().unwrap();
    assert_eq!(query, "INSERT INTO users (name, nick) VALUES ('', 'null');");
}

#[test]
fn a_where_over_no_fields_adds_nothing() {
    let no_fields: Vec<Field> = Vec::new();
    let query = SqlQueryBuilder::new()
        .SELECT(&["*"])
        .WHERE_AND(&no_fields)
        .build()
        .unwrap();
    assert_eq!(query, "SELECT *;");

    let absent = vec![Field::new("id", FieldValue::Optional(None))];
    assert_eq!(
        SqlQueryBuilder::new().WHERE_AND(&absent).build(),
        Err(QueryError::NoQuery)
    );
}

#[test]
fn a_where_over_fields_keeps_empty_and_null_texts() {
    let user = vec![
        Field::new("name", FieldValue::Direct(text("null"))),
        Field::new("active", FieldValue::Direct(Scalar::Bool(true))),
    ];
    let query = SqlQueryBuilder::new().WHERE_AND(&user).build().unwrap();
    assert_eq!(query, "WHERE name = 'null' AND active = 'true';");
}

#[test]
fn predicates_take_their_keyword() {
    let query = SqlQueryBuilder::new()
        .WHERE_NOT("a", "=", "1")
        .AND_NOT("b", "<", "2")
        .OR("c", ">", "3")
        .OR_NOT("d", "<>", "4")
        .build()
        .unwrap();
    assert_eq!(
        query,
        "WHERE NOT a = '1' AND NOT b < '2' OR c > '3' OR NOT d <> '4';"
    );
}

#[test]
fn predicates_are_sanitized() {
    let query = SqlQueryBuilder::new()
        .WHERE("na'me", "=", "O'Brien\n")
        .build()
        .unwrap();
    assert_eq!(query, "WHERE na\\'me = 'O\\'Brien\\n';");
}

#[test]
fn column_clauses_take_their_keyword() {
    let query = SqlQueryBuilder::new()
        .SELECT_DISTINCT(&["id", "name"])
        .FROM("users")
        .ORDER_BY(&["name", "id"])
        .build()
        .unwrap();
    assert_eq!(query, "SELECT DISTINCT id, name FROM users ORDER BY name, id;");

    let query = SqlQueryBuilder::new().SET(&["a", "b", "c"]).build().unwrap();
    assert_eq!(query, "SET a, b, c;");

    let query = SqlQueryBuilder::new().RETURNING(&["id"]).build().unwrap();
    assert_eq!(query, "RETURNING id;");
}

#[test]
fn a_column_clause_without_columns_is_its_keyword() {
    let none: [&str; 0] = [];
    let query = SqlQueryBuilder::new().SELECT(&none).FROM("users").build().unwrap();
    assert_eq!(query, "SELECT  FROM users;");
}

#[test]
fn a_join_sanitizes_all_but_the_operator() {
    let query = SqlQueryBuilder::new()
        .SELECT(&["*"])
        .FROM("users")
        .JOIN("orders", "users.id", "=", "orders.user_id")
        .build()
        .unwrap();
    assert_eq!(
        query,
        "SELECT * FROM users JOIN orders ON users.id = orders.user_id;"
    );

    let query = SqlQueryBuilder::new()
        .JOIN("o'rders", "a'", "'='", "b'")
        .build()
        .unwrap();
    assert_eq!(query, "JOIN o\\'rders ON a\\' '=' b\\';");
}

#[test]
fn limit_and_offset_are_written_in_decimal() {
    let query = SqlQueryBuilder::new()
        .SELECT(&["*"])
        .FROM("users")
        .LIMIT(10)
        .OFFSET(4294967295)
        .build()
        .unwrap();
    assert_eq!(query, "SELECT * FROM users LIMIT 10 OFFSET 4294967295;");

    let query = SqlQueryBuilder::new().LIMIT(0).build().unwrap();
    assert_eq!(query, "LIMIT 0;");
}

#[test]
fn the_statement_is_trimmed() {
    let query = SqlQueryBuilder::new().FROM("users \t").build().unwrap();
    assert_eq!(query, "FROM users \\t;");

    let query = SqlQueryBuilder::new().FROM("users  ").build().unwrap();
    assert_eq!(query, "FROM users;");

    let query = SqlQueryBuilder::new()
        .SELECT(&["\u{a0}id\u{2003}"])
        .build()
        .unwrap();
    assert_eq!(query, "SELECT \u{a0}id;");
}

#[test]
fn the_table_is_sanitized() {
    let query = SqlQueryBuilder::table("us'ers")
        .INSERT_AS_SLICE(&[("id", "1")])
        .build()
        .unwrap();
    assert_eq!(query, "INSERT INTO us\\'ers (id) VALUES ('1');");

    let query = SqlQueryBuilder::table("users -- all of them")
        .UPDATE_AS_SLICE(&[("id", "1")])
        .build()
        .unwrap();
    assert_eq!(query, "UPDATE users -- all of them SET id = '1';");

    let query = SqlQueryBuilder::table("--users")
        .UPDATE_AS_SLICE(&[("id", "1")])
        .build()
        .unwrap();
    assert_eq!(query, "UPDATE  SET id = '1';");
}

#[test]
fn pairs_are_sanitized() {
    let query = SqlQueryBuilder::table("users")
        .INSERT_AS_SLICE(&[("na\"me", "a\\b"), ("id", "1\t2")])
        .build()
        .unwrap();
    assert_eq!(
        query,
        "INSERT INTO users (na\\\"me, id) VALUES ('a\\\\b', '1\\t2');"
    );
}

#[test]
fn errors_say_what_went_wrong() {
    assert_eq!(QueryError::NoQuery.message(), "No query has been built");
    assert_eq!(
        QueryError::EmptyColumnSet.message(),
        "No columns and values provided"
    );
}

#[test]
fn a_builder_can_be_cloned() {
    let mut builder = SqlQueryBuilder::new();
    builder.SELECT(&["id"]);
    let mut copy = builder.clone();
    copy.FROM("users");
    assert_eq!(builder.build().unwrap(), "SELECT id;");
    assert_eq!(copy.build().unwrap(), "SELECT id FROM users;");
}
