//! The statement builder: each call appends one clause to the statement.

use crate::decimal::{decimal, unsigned_text};
use crate::field_map::owned_pairs;
use crate::iterate_struct::{extracted_pairs, iterate_struct};
use crate::record::{record_view, Field};
use crate::sanitize::{sanitized, sql_injection_prevention};
use crate::text::{
    append_joined, chars_of, count_leading_whitespace, count_trailing_whitespace, joined,
    push_char, string_of, texts, trimmed,
};
use vstd::prelude::*;
use vstd::string::StringExecFns;

verus! {

/// Why a builder has no statement to give.
#[derive(Clone, Copy, Debug, PartialEq, Eq)]
pub enum QueryError {
    /// No clause was ever added.
    NoQuery,
    /// A clause was asked for that takes its columns from pairs, and there
    /// was no pair to take them from.
    EmptyColumnSet,
}

impl QueryError {
    /// The error in words.
    pub fn message(&self) -> (text: String)
        ensures
            text@ == match *self {
                QueryError::NoQuery => "No query has been built"@,
                QueryError::EmptyColumnSet => "No columns and values provided"@,
            },
    {
        match self {
            QueryError::NoQuery => String::from_str("No query has been built"),
            QueryError::EmptyColumnSet => String::from_str("No columns and values provided"),
        }
    }
}

/// What a builder holds: the statement so far, the table that `INSERT`
/// and `UPDATE` name, and the first error met.
pub struct BuilderView {
    pub query: Seq<char>,
    pub table: Seq<char>,
    pub error: Option<QueryError>,
}

/// A predicate: operand, operator and, between single quotes, the value
/// compared with, each sanitized.
pub open spec fn predicate(operand: Seq<char>, operator: Seq<char>, result: Seq<char>) -> Seq<
    char,
> {
    sanitized(operand) + " "@ + sanitized(operator) + " '"@ + sanitized(result) + "'"@
}

/// The sanitized columns, with a comma and a space between them.
pub open spec fn column_list(columns: Seq<Seq<char>>) -> Seq<char> {
    joined(columns.map_values(|column: Seq<char>| sanitized(column)), ", "@)
}

/// A join clause. The operator goes in as it is given.
pub open spec fn join_clause(
    table: Seq<char>,
    column1: Seq<char>,
    operator: Seq<char>,
    column2: Seq<char>,
) -> Seq<char> {
    "JOIN "@ + sanitized(table) + " ON "@ + sanitized(column1) + " "@ + operator + " "@
        + sanitized(column2) + " "@
}

/// The sanitized column of a pair.
pub open spec fn column_of(pair: (Seq<char>, Seq<char>)) -> Seq<char> {
    sanitized(pair.0)
}

/// The sanitized value of a pair, between single quotes.
pub open spec fn literal_of(pair: (Seq<char>, Seq<char>)) -> Seq<char> {
    "'"@ + sanitized(pair.1) + "'"@
}

/// A pair as `column = 'value'`, column and value sanitized.
pub open spec fn assignment_of(pair: (Seq<char>, Seq<char>)) -> Seq<char> {
    sanitized(pair.0) + " = '"@ + sanitized(pair.1) + "'"@
}

/// An insert clause: the columns of the pairs, then their values.
pub open spec fn insert_clause(table: Seq<char>, pairs: Seq<(Seq<char>, Seq<char>)>) -> Seq<char> {
    "INSERT INTO "@ + table + " ("@ + joined(
        pairs.map_values(|pair: (Seq<char>, Seq<char>)| column_of(pair)),
        ", "@,
    ) + ") VALUES ("@ + joined(
        pairs.map_values(|pair: (Seq<char>, Seq<char>)| literal_of(pair)),
        ", "@,
    ) + ") "@
}

/// An update clause: one assignment for each pair.
pub open spec fn update_clause(table: Seq<char>, pairs: Seq<(Seq<char>, Seq<char>)>) -> Seq<char> {
    "UPDATE "@ + table + " SET "@ + joined(
        pairs.map_values(|pair: (Seq<char>, Seq<char>)| assignment_of(pair)),
        ", "@,
    ) + " "@
}

/// A where clause that asks for every pair at once.
pub open spec fn where_and_clause(pairs: Seq<(Seq<char>, Seq<char>)>) -> Seq<char> {
    "WHERE "@ + joined(
        pairs.map_values(|pair: (Seq<char>, Seq<char>)| assignment_of(pair)),
        " AND "@,
    ) + " "@
}

/// Whether a pair can stand in an update: its text is neither empty nor
/// the word `null`.
pub open spec fn is_usable(pair: (Seq<char>, Seq<char>)) -> bool {
    pair.1.len() > 0 && pair.1 != "null"@
}

impl BuilderView {
    /// The builder after `text` is appended to its statement.
    pub open spec fn with_text(self, text: Seq<char>) -> BuilderView {
        BuilderView { query: self.query + text, ..self }
    }

    /// The builder after an error is met: the first error stays.
    pub open spec fn with_error(self, error: QueryError) -> BuilderView {
        BuilderView {
            error: if self.error is Some {
                self.error
            } else {
                Some(error)
            },
            ..self
        }
    }

    /// The builder after an insert clause is asked for.
    pub open spec fn with_insert(self, pairs: Seq<(Seq<char>, Seq<char>)>) -> BuilderView {
        if pairs.len() == 0 {
            self.with_error(QueryError::EmptyColumnSet)
        } else {
            self.with_text(insert_clause(self.table, pairs))
        }
    }

    /// The builder after an update clause is asked for.
    pub open spec fn with_update(self, pairs: Seq<(Seq<char>, Seq<char>)>) -> BuilderView {
        if pairs.len() == 0 {
            self.with_error(QueryError::EmptyColumnSet)
        } else {
            self.with_text(update_clause(self.table, pairs))
        }
    }

    /// The builder after a where clause over pairs is asked for: without
    /// pairs there is nothing to ask, and the builder stays as it is.
    pub open spec fn with_where_and(self, pairs: Seq<(Seq<char>, Seq<char>)>) -> BuilderView {
        if pairs.len() == 0 {
            self
        } else {
            self.with_text(where_and_clause(pairs))
        }
    }

    /// The statement that the builder gives: its text without the white
    /// space around it, closed by a semicolon; or the first error met; or,
    /// where nothing was built, that error.
    pub open spec fn built(self) -> Result<Seq<char>, QueryError> {
        match self.error {
            Some(error) => Err(error),
            None => if self.query.len() == 0 {
                Err(QueryError::NoQuery)
            } else {
                Ok(trimmed(self.query).push(';'))
            },
        }
    }
}

/// The texts of the strings of a list of borrowed strings.
pub open spec fn borrowed_texts(items: Seq<&str>) -> Seq<Seq<char>> {
    items.map_values(|item: &str| item@)
}

/// The texts of a list of pairs of borrowed strings.
pub open spec fn borrowed_pairs(pairs: Seq<(&str, &str)>) -> Seq<(Seq<char>, Seq<char>)> {
    pairs.map_values(|pair: (&str, &str)| (pair.0@, pair.1@))
}

/// The result of a build, by the texts it holds.
pub open spec fn result_view(result: Result<String, QueryError>) -> Result<Seq<char>, QueryError> {
    match result {
        Ok(text) => Ok(text@),
        Err(error) => Err(error),
    }
}

/// A builder of SQL statements.
#[derive(Clone, Debug)]
pub struct SqlQueryBuilder {
    query: String,
    table: String,
    error: Option<QueryError>,
}

impl View for SqlQueryBuilder {
    type V = BuilderView;

    closed spec fn view(&self) -> BuilderView {
        BuilderView { query: self.query@, table: self.table@, error: self.error }
    }
}

impl Default for SqlQueryBuilder {
    /// A builder without a table and without clauses.
    fn default() -> (builder: Self)
        ensures
            builder@ == (BuilderView { query: Seq::empty(), table: Seq::empty(), error: None }),
    {
        SqlQueryBuilder { query: String::new(), table: String::new(), error: None }
    }
}

impl SqlQueryBuilder {
    /// Appends a keyword, a predicate and a space.
    fn push_predicate(&mut self, keyword: &str, operand: &str, operator: &str, result: &str)
        ensures
            final(self)@ == old(self)@.with_text(
                keyword@ + predicate(operand@, operator@, result@) + " "@,
            ),
    {
        let clean_operand = sql_injection_prevention(operand);
        let clean_operator = sql_injection_prevention(operator);
        let clean_result = sql_injection_prevention(result);
        self.query.append(keyword);
        self.query.append(clean_operand.as_str());
        self.query.append(" ");
        self.query.append(clean_operator.as_str());
        self.query.append(" '");
        self.query.append(clean_result.as_str());
        self.query.append("'");
        self.query.append(" ");
        assert(self.query@ =~= old(self).query@ + (keyword@ + predicate(
            operand@,
            operator@,
            result@,
        ) + " "@));
    }

    /// Appends a keyword, the sanitized columns and a space.
    fn push_columns(&mut self, keyword: &str, columns: &[&str])
        ensures
            final(self)@ == old(self)@.with_text(
                keyword@ + column_list(borrowed_texts(columns@)) + " "@,
            ),
    {
        let mut sanitized_columns: Vec<String> = Vec::new();
        let mut i: usize = 0;
        while i < columns.len()
            invariant
                i <= columns.len(),
                sanitized_columns.len() == i,
                forall|k: int|
                    0 <= k < i ==> (#[trigger] sanitized_columns@[k])@ == sanitized(columns@[k]@),
            decreases columns.len() - i,
        {
            sanitized_columns.push(sql_injection_prevention(columns[i]));
            i = i + 1;
        }
        assert(texts(sanitized_columns@) =~= borrowed_texts(columns@).map_values(
            |column: Seq<char>| sanitized(column),
        ));
        self.query.append(keyword);
        append_joined(&mut self.query, &sanitized_columns, ", ");
        self.query.append(" ");
        assert(self.query@ =~= old(self).query@ + (keyword@ + column_list(
            borrowed_texts(columns@),
        ) + " "@));
    }
}

/// The pairs of a list of pairs of borrowed strings, as strings.
fn pairs_of(columns_and_values: &[(&str, &str)]) -> (pairs: Vec<(String, String)>)
    ensures
        owned_pairs(pairs@) == borrowed_pairs(columns_and_values@),
{
    let mut pairs: Vec<(String, String)> = Vec::new();
    let mut i: usize = 0;
    while i < columns_and_values.len()
        invariant
            i <= columns_and_values.len(),
            pairs.len() == i,
            forall|k: int|
                0 <= k < i ==> (#[trigger] pairs@[k]).0@ == columns_and_values@[k].0@ && pairs@[k].1@
                    == columns_and_values@[k].1@,
        decreases columns_and_values.len() - i,
    {
        let column = String::from_str(columns_and_values[i].0);
        let value = String::from_str(columns_and_values[i].1);
        pairs.push((column, value));
        i = i + 1;
    }
    assert(owned_pairs(pairs@) =~= borrowed_pairs(columns_and_values@));
    pairs
}

/// The pairs that can stand in an update, in their order.
fn usable_pairs(entries: &Vec<(String, String)>) -> (pairs: Vec<(String, String)>)
    ensures
        owned_pairs(pairs@) == owned_pairs(entries@).filter(
            |pair: (Seq<char>, Seq<char>)| is_usable(pair),
        ),
{
    let ghost all = owned_pairs(entries@);
    let ghost usable = |pair: (Seq<char>, Seq<char>)| is_usable(pair);
    let null = String::from_str("null");
    let mut pairs: Vec<(String, String)> = Vec::new();
    let mut i: usize = 0;
    proof {
        reveal(Seq::filter);
        assert(all.take(0) =~= Seq::<(Seq<char>, Seq<char>)>::empty());
        assert(owned_pairs(pairs@) =~= all.take(0).filter(usable));
    }
    while i < entries.len()
        invariant
            i <= entries.len(),
            all == owned_pairs(entries@),
            usable == (|pair: (Seq<char>, Seq<char>)| is_usable(pair)),
            null@ == "null"@,
            owned_pairs(pairs@) == all.take(i as int).filter(usable),
        decreases entries.len() - i,
    {
        proof {
            reveal(Seq::filter);
            assert(all.take(i + 1).drop_last() =~= all.take(i as int));
            assert(all.take(i + 1).last() == all[i as int]);
        }
        let ghost before = owned_pairs(pairs@);
        if !entries[i].1.as_str().is_empty() && !(entries[i].1 == null) {
            pairs.push((entries[i].0.clone(), entries[i].1.clone()));
            assert(owned_pairs(pairs@) =~= before.push(all[i as int]));
        }
        i = i + 1;
    }
    assert(all.take(i as int) =~= all);
    pairs
}

/// One text for each pair: its sanitized column.
fn columns_of(pairs: &Vec<(String, String)>) -> (columns: Vec<String>)
    ensures
        texts(columns@) == owned_pairs(pairs@).map_values(
            |pair: (Seq<char>, Seq<char>)| column_of(pair),
        ),
{
    let mut columns: Vec<String> = Vec::new();
    let mut i: usize = 0;
    while i < pairs.len()
        invariant
            i <= pairs.len(),
            columns.len() == i,
            forall|k: int|
                0 <= k < i ==> (#[trigger] columns@[k])@ == column_of(owned_pairs(pairs@)[k]),
        decreases pairs.len() - i,
    {
        columns.push(sql_injection_prevention(pairs[i].0.as_str()));
        i = i + 1;
    }
    assert(texts(columns@) =~= owned_pairs(pairs@).map_values(
        |pair: (Seq<char>, Seq<char>)| column_of(pair),
    ));
    columns
}

/// One text for each pair: its sanitized value between single quotes.
fn literals_of(pairs: &Vec<(String, String)>) -> (literals: Vec<String>)
    ensures
        texts(literals@) == owned_pairs(pairs@).map_values(
            |pair: (Seq<char>, Seq<char>)| literal_of(pair),
        ),
{
    let mut literals: Vec<String> = Vec::new();
    let mut i: usize = 0;
    while i < pairs.len()
        invariant
            i <= pairs.len(),
            literals.len() == i,
            forall|k: int|
                0 <= k < i ==> (#[trigger] literals@[k])@ == literal_of(owned_pairs(pairs@)[k]),
        decreases pairs.len() - i,
    {
        let mut literal = String::from_str("'");
        literal.append(sql_injection_prevention(pairs[i].1.as_str()).as_str());
        literal.append("'");
        literals.push(literal);
        i = i + 1;
    }
    assert(texts(literals@) =~= owned_pairs(pairs@).map_values(
        |pair: (Seq<char>, Seq<char>)| literal_of(pair),
    ));
    literals
}

/// One text for each pair: the pair as `column = 'value'`.
fn assignments_of(pairs: &Vec<(String, String)>) -> (assignments: Vec<String>)
    ensures
        texts(assignments@) == owned_pairs(pairs@).map_values(
            |pair: (Seq<char>, Seq<char>)| assignment_of(pair),
        ),
{
    let mut assignments: Vec<String> = Vec::new();
    let mut i: usize = 0;
    while i < pairs.len()
        invariant
            i <= pairs.len(),
            assignments.len() == i,
            forall|k: int|
                0 <= k < i ==> (#[trigger] assignments@[k])@ == assignment_of(
                    owned_pairs(pairs@)[k],
                ),
        decreases pairs.len() - i,
    {
        let mut assignment = sql_injection_prevention(pairs[i].0.as_str());
        assignment.append(" = '");
        assignment.append(sql_injection_prevention(pairs[i].1.as_str()).as_str());
        assignment.append("'");
        assignments.push(assignment);
        i = i + 1;
    }
    assert(texts(assignments@) =~= owned_pairs(pairs@).map_values(
        |pair: (Seq<char>, Seq<char>)| assignment_of(pair),
    ));
    assignments
}

/// The characters from `start` up to `end`, closed by a semicolon.
pub fn terminated(chars: &Vec<char>, start: usize, end: usize) -> (statement: String)
    requires
        start <= end <= chars.len(),
    ensures
        statement@ == chars@.subrange(start as int, end as int).push(';'),
{
    let mut statement = String::new();
    let mut i: usize = start;
    while i < end
        invariant
            start <= i <= end <= chars.len(),
            statement@ == chars@.subrange(start as int, i as int),
        decreases end - i,
    {
        push_char(&mut statement, chars[i]);
        assert(statement@ =~= chars@.subrange(start as int, i + 1));
        i = i + 1;
    }
    push_char(&mut statement, ';');
    statement
}

impl SqlQueryBuilder {
    /// Notes an error, unless one is noted already.
    fn note_error(&mut self, error: QueryError)
        ensures
            final(self)@ == old(self)@.with_error(error),
    {
        if self.error.is_none() {
            self.error = Some(error);
        }
    }

    /// Appends an insert clause over the pairs, or notes that there are
    /// none.
    fn push_insert(&mut self, pairs: &Vec<(String, String)>)
        ensures
            final(self)@ == old(self)@.with_insert(owned_pairs(pairs@)),
    {
        if pairs.len() == 0 {
            self.note_error(QueryError::EmptyColumnSet);
        } else {
            let columns = columns_of(pairs);
            let literals = literals_of(pairs);
            self.query.append("INSERT INTO ");
            self.query.append(self.table.as_str());
            self.query.append(" ");
            self.query.append("(");
            append_joined(&mut self.query, &columns, ", ");
            self.query.append(") ");
            self.query.append("VALUES ");
            self.query.append("(");
            append_joined(&mut self.query, &literals, ", ");
            self.query.append(") ");
            proof {
                reveal_strlit(" ");
                reveal_strlit("(");
                reveal_strlit(" (");
                reveal_strlit(") ");
                reveal_strlit("VALUES ");
                reveal_strlit(") VALUES (");
            }
            assert(self.query@ =~= old(self).query@ + insert_clause(
                old(self).table@,
                owned_pairs(pairs@),
            ));
        }
    }

    /// Appends an update clause over the pairs, or notes that there are
    /// none.
    fn push_update(&mut self, pairs: &Vec<(String, String)>)
        ensures
            final(self)@ == old(self)@.with_update(owned_pairs(pairs@)),
    {
        if pairs.len() == 0 {
            self.note_error(QueryError::EmptyColumnSet);
        } else {
            let assignments = assignments_of(pairs);
            self.query.append("UPDATE ");
            self.query.append(self.table.as_str());
            self.query.append(" SET ");
            append_joined(&mut self.query, &assignments, ", ");
            self.query.append(" ");
            assert(self.query@ =~= old(self).query@ + update_clause(
                old(self).table@,
                owned_pairs(pairs@),
            ));
        }
    }

    /// Appends a where clause that asks for every pair, where there is one.
    fn push_where_and(&mut self, pairs: &Vec<(String, String)>)
        ensures
            final(self)@ == old(self)@.with_where_and(owned_pairs(pairs@)),
    {
        if pairs.len() > 0 {
            let assignments = assignments_of(pairs);
            self.query.append("WHERE ");
            append_joined(&mut self.query, &assignments, " AND ");
            self.query.append(" ");
            assert(self.query@ =~= old(self).query@ + where_and_clause(owned_pairs(pairs@)));
        }
    }
}

/// The clauses of a statement, each as a call that can be chained, and the
/// statement at the end.
#[allow(non_snake_case)]
pub trait QueryBuilder: Clone + Default + Sized {
    /// A builder without a table and without clauses.
    fn new() -> Self;

    /// A builder for the given table, without clauses.
    fn table(table: &str) -> Self;

    /// Adds an `AND NOT` clause.
    fn AND_NOT(&mut self, operand: &str, operator: &str, result: &str) -> &mut Self;

    /// Adds an `AND` clause.
    fn AND(&mut self, operand: &str, operator: &str, result: &str) -> &mut Self;

    /// Adds a `FROM` clause.
    fn FROM(&mut self, table: &str) -> &mut Self;

    /// Adds an `INSERT INTO` clause from pairs of column and value.
    fn INSERT_AS_SLICE(&mut self, columns_and_values: &[(&str, &str)]) -> &mut Self;

    /// Adds an `INSERT INTO` clause from the fields of a record.
    fn INSERT(&mut self, columns: &[Field]) -> &mut Self;

    /// Adds a `JOIN` clause.
    fn JOIN(&mut self, table: &str, column1: &str, operator: &str, column2: &str) -> &mut Self;

    /// Adds a `LIMIT` clause.
    fn LIMIT(&mut self, limit: u32) -> &mut Self;

    /// Adds an `OFFSET` clause.
    fn OFFSET(&mut self, limit: u32) -> &mut Self;

    /// Adds an `OR NOT` clause.
    fn OR_NOT(&mut self, operand: &str, operator: &str, result: &str) -> &mut Self;

    /// Adds an `OR` clause.
    fn OR(&mut self, operand: &str, operator: &str, result: &str) -> &mut Self;

    /// Adds an `ORDER BY` clause.
    fn ORDER_BY(&mut self, columns: &[&str]) -> &mut Self;

    /// Adds a `RETURNING` clause.
    fn RETURNING(&mut self, columns: &[&str]) -> &mut Self;

    /// Adds a `SELECT DISTINCT` clause.
    fn SELECT_DISTINCT(&mut self, columns: &[&str]) -> &mut Self;

    /// Adds a `SELECT` clause.
    fn SELECT(&mut self, columns: &[&str]) -> &mut Self;

    /// Adds a `SET` clause.
    fn SET(&mut self, columns: &[&str]) -> &mut Self;

    /// Adds an `UPDATE` clause from pairs of column and value.
    fn UPDATE_AS_SLICE(&mut self, columns_and_values: &[(&str, &str)]) -> &mut Self;

    /// Adds an `UPDATE` clause from the fields of a record.
    fn UPDATE(&mut self, columns: &[Field]) -> &mut Self;

    /// Adds a `WHERE` clause that asks for each field of a record.
    fn WHERE_AND(&mut self, columns: &[Field]) -> &mut Self;

    /// Adds a `WHERE NOT` clause.
    fn WHERE_NOT(&mut self, operand: &str, operator: &str, result: &str) -> &mut Self;

    /// Adds a `WHERE` clause.
    fn WHERE(&mut self, operand: &str, operator: &str, result: &str) -> &mut Self;

    /// The statement built.
    fn to_string(&self) -> Result<String, QueryError>;

    /// The statement built.
    fn build(&self) -> Result<String, QueryError>;
}

#[allow(non_snake_case)]
impl QueryBuilder for SqlQueryBuilder {
    fn new() -> (builder: Self)
        ensures
            builder@ == (BuilderView { query: Seq::empty(), table: Seq::empty(), error: None }),
    {
        SqlQueryBuilder { query: String::new(), table: String::new(), error: None }
    }

    fn table(table: &str) -> (builder: Self)
        ensures
            builder@ == (BuilderView {
                query: Seq::empty(),
                table: sanitized(table@),
                error: None,
            }),
    {
        SqlQueryBuilder { query: String::new(), table: sql_injection_prevention(table), error: None }
    }

    fn AND_NOT(&mut self, operand: &str, operator: &str, result: &str) -> (chained: &mut Self)
        ensures
            chained@ == old(self)@.with_text(
                "AND NOT "@ + predicate(operand@, operator@, result@) + " "@,
            ),
            *final(self) == *final(chained),
    {
        self.push_predicate("AND NOT ", operand, operator, result);
        self
    }

    fn AND(&mut self, operand: &str, operator: &str, result: &str) -> (chained: &mut Self)
        ensures
            chained@ == old(self)@.with_text(
                "AND "@ + predicate(operand@, operator@, result@) + " "@,
            ),
            *final(self) == *final(chained),
    {
        self.push_predicate("AND ", operand, operator, result);
        self
    }

    fn FROM(&mut self, table: &str) -> (chained: &mut Self)
        ensures
            chained@ == old(self)@.with_text("FROM "@ + sanitized(table@) + " "@),
            *final(self) == *final(chained),
    {
        let clean_table = sql_injection_prevention(table);
        self.query.append("FROM ");
        self.query.append(clean_table.as_str());
        self.query.append(" ");
        assert(self.query@ =~= old(self).query@ + ("FROM "@ + sanitized(table@) + " "@));
        self
    }

    fn INSERT_AS_SLICE(&mut self, columns_and_values: &[(&str, &str)]) -> (chained: &mut Self)
        ensures
            chained@ == old(self)@.with_insert(borrowed_pairs(columns_and_values@)),
            *final(self) == *final(chained),
    {
        let pairs = pairs_of(columns_and_values);
        self.push_insert(&pairs);
        self
    }

    fn INSERT(&mut self, columns: &[Field]) -> (chained: &mut Self)
        ensures
            chained@ == old(self)@.with_insert(extracted_pairs(record_view(columns@))),
            *final(self) == *final(chained),
    {
        let extracted = iterate_struct(columns);
        self.push_insert(extracted.entries());
        self
    }

    fn JOIN(&mut self, table: &str, column1: &str, operator: &str, column2: &str) -> (chained:
        &mut Self)
        ensures
            chained@ == old(self)@.with_text(join_clause(table@, column1@, operator@, column2@)),
            *final(self) == *final(chained),
    {
        let clean_table = sql_injection_prevention(table);
        let clean_column1 = sql_injection_prevention(column1);
        let clean_column2 = sql_injection_prevention(column2);
        self.query.append("JOIN ");
        self.query.append(clean_table.as_str());
        self.query.append(" ON ");
        self.query.append(clean_column1.as_str());
        self.query.append(" ");
        self.query.append(operator);
        self.query.append(" ");
        self.query.append(clean_column2.as_str());
        self.query.append(" ");
        assert(self.query@ =~= old(self).query@ + join_clause(
            table@,
            column1@,
            operator@,
            column2@,
        ));
        self
    }

    fn LIMIT(&mut self, limit: u32) -> (chained: &mut Self)
        ensures
            chained@ == old(self)@.with_text("LIMIT "@ + decimal(limit as int) + " "@),
            *final(self) == *final(chained),
    {
        let digits = string_of(&unsigned_text(limit as u64));
        self.query.append("LIMIT ");
        self.query.append(digits.as_str());
        self.query.append(" ");
        assert(self.query@ =~= old(self).query@ + ("LIMIT "@ + decimal(limit as int) + " "@));
        self
    }

    fn OFFSET(&mut self, limit: u32) -> (chained: &mut Self)
        ensures
            chained@ == old(self)@.with_text("OFFSET "@ + decimal(limit as int) + " "@),
            *final(self) == *final(chained),
    {
        let digits = string_of(&unsigned_text(limit as u64));
        self.query.append("OFFSET ");
        self.query.append(digits.as_str());
        self.query.append(" ");
        assert(self.query@ =~= old(self).query@ + ("OFFSET "@ + decimal(limit as int) + " "@));
        self
    }

    fn OR_NOT(&mut self, operand: &str, operator: &str, result: &str) -> (chained: &mut Self)
        ensures
            chained@ == old(self)@.with_text(
                "OR NOT "@ + predicate(operand@, operator@, result@) + " "@,
            ),
            *final(self) == *final(chained),
    {
        self.push_predicate("OR NOT ", operand, operator, result);
        self
    }

    fn OR(&mut self, operand: &str, operator: &str, result: &str) -> (chained: &mut Self)
        ensures
            chained@ == old(self)@.with_text(
                "OR "@ + predicate(operand@, operator@, result@) + " "@,
            ),
            *final(self) == *final(chained),
    {
        self.push_predicate("OR ", operand, operator, result);
        self
    }

    fn ORDER_BY(&mut self, columns: &[&str]) -> (chained: &mut Self)
        ensures
            chained@ == old(self)@.with_text(
                "ORDER BY "@ + column_list(borrowed_texts(columns@)) + " "@,
            ),
            *final(self) == *final(chained),
    {
        self.push_columns("ORDER BY ", columns);
        self
    }

    fn RETURNING(&mut self, columns: &[&str]) -> (chained: &mut Self)
        ensures
            chained@ == old(self)@.with_text(
                "RETURNING "@ + column_list(borrowed_texts(columns@)) + " "@,
            ),
            *final(self) == *final(chained),
    {
        self.push_columns("RETURNING ", columns);
        self
    }

    fn SELECT_DISTINCT(&mut self, columns: &[&str]) -> (chained: &mut Self)
        ensures
            chained@ == old(self)@.with_text(
                "SELECT DISTINCT "@ + column_list(borrowed_texts(columns@)) + " "@,
            ),
            *final(self) == *final(chained),
    {
        self.push_columns("SELECT DISTINCT ", columns);
        self
    }

    fn SELECT(&mut self, columns: &[&str]) -> (chained: &mut Self)
        ensures
            chained@ == old(self)@.with_text(
                "SELECT "@ + column_list(borrowed_texts(columns@)) + " "@,
            ),
            *final(self) == *final(chained),
    {
        self.push_columns("SELECT ", columns);
        self
    }

    fn SET(&mut self, columns: &[&str]) -> (chained: &mut Self)
        ensures
            chained@ == old(self)@.with_text(
                "SET "@ + column_list(borrowed_texts(columns@)) + " "@,
            ),
            *final(self) == *final(chained),
    {
        self.push_columns("SET ", columns);
        self
    }

    fn UPDATE_AS_SLICE(&mut self, columns_and_values: &[(&str, &str)]) -> (chained: &mut Self)
        ensures
            chained@ == old(self)@.with_update(borrowed_pairs(columns_and_values@)),
            *final(self) == *final(chained),
    {
        let pairs = pairs_of(columns_and_values);
        self.push_update(&pairs);
        self
    }

    fn UPDATE(&mut self, columns: &[Field]) -> (chained: &mut Self)
        ensures
            chained@ == old(self)@.with_update(
                extracted_pairs(record_view(columns@)).filter(
                    |pair: (Seq<char>, Seq<char>)| is_usable(pair),
                ),
            ),
            *final(self) == *final(chained),
    {
        let extracted = iterate_struct(columns);
        let pairs = usable_pairs(extracted.entries());
        self.push_update(&pairs);
        self
    }

    fn WHERE_AND(&mut self, columns: &[Field]) -> (chained: &mut Self)
        ensures
            chained@ == old(self)@.with_where_and(extracted_pairs(record_view(columns@))),
            *final(self) == *final(chained),
    {
        let extracted = iterate_struct(columns);
        self.push_where_and(extracted.entries());
        self
    }

    fn WHERE_NOT(&mut self, operand: &str, operator: &str, result: &str) -> (chained: &mut Self)
        ensures
            chained@ == old(self)@.with_text(
                "WHERE NOT "@ + predicate(operand@, operator@, result@) + " "@,
            ),
            *final(self) == *final(chained),
    {
        self.push_predicate("WHERE NOT ", operand, operator, result);
        self
    }

    fn WHERE(&mut self, operand: &str, operator: &str, result: &str) -> (chained: &mut Self)
        ensures
            chained@ == old(self)@.with_text(
                "WHERE "@ + predicate(operand@, operator@, result@) + " "@,
            ),
            *final(self) == *final(chained),
    {
        self.push_predicate("WHERE ", operand, operator, result);
        self
    }

    fn to_string(&self) -> (statement: Result<String, QueryError>)
        ensures
            result_view(statement) == self@.built(),
    {
        self.build()
    }

    fn build(&self) -> (statement: Result<String, QueryError>)
        ensures
            result_view(statement) == self@.built(),
    {
        match self.error {
            Some(error) => Err(error),
            None => {
                if self.query.as_str().is_empty() {
                    Err(QueryError::NoQuery)
                } else {
                    let chars = chars_of(self.query.as_str());
                    let start = count_leading_whitespace(&chars);
                    let trailing = count_trailing_whitespace(&chars, start);
                    let statement = terminated(&chars, start, chars.len() - trailing);
                    assert(trimmed(self.query@) =~= chars@.subrange(
                        start as int,
                        chars.len() - trailing,
                    ));
                    Ok(statement)
                }
            },
        }
    }
}

} // verus!
