//! The SQL statements that the data layer sends to SQLite.
//!
//! Table and field names are placed into the statement text as given; row ids
//! and values are bound as positional parameters (`?1`, `?2`).
use vstd::prelude::*;
use crate::text::{push_u64_text, nat_text};

verus! {

/// `INSERT INTO <table> DEFAULT VALUES;`
pub open spec fn insert_row_sql(table: Seq<char>) -> Seq<char> {
    "INSERT INTO "@ + table + " DEFAULT VALUES;"@
}

/// `UPDATE <table> SET <field> = ?1 WHERE id = ?2`
pub open spec fn update_field_sql(table: Seq<char>, field: Seq<char>) -> Seq<char> {
    "UPDATE "@ + table + " SET "@ + field + " = ?1 WHERE id = ?2"@
}

/// One assignment of a row update, `<field> = ?<position>`.
pub open spec fn assignment_sql(field: Seq<char>, position: nat) -> Seq<char> {
    field + " = ?"@ + nat_text(position)
}

/// The assignments of all `fields`, one after the other, each bound to the
/// parameter at `position`.
pub open spec fn assignments_sql(fields: Seq<Seq<char>>, position: nat) -> Seq<char>
    decreases fields.len(),
{
    if fields.len() == 0 {
        Seq::empty()
    } else {
        assignments_sql(fields.drop_last(), position) + assignment_sql(fields.last(), position)
    }
}

/// `UPDATE <table> SET <assignments> WHERE id = ?1`
pub open spec fn update_row_sql(table: Seq<char>, assignments: Seq<char>) -> Seq<char> {
    "UPDATE "@ + table + " SET "@ + assignments + " WHERE id = ?1"@
}

/// `SELECT id FROM <table>`
pub open spec fn select_ids_sql(table: Seq<char>) -> Seq<char> {
    "SELECT id FROM "@ + table
}

/// `SELECT <field> FROM <table> WHERE id = ?1`
pub open spec fn select_field_sql(table: Seq<char>, field: Seq<char>) -> Seq<char> {
    "SELECT "@ + field + " FROM "@ + table + " WHERE id = ?1"@
}

/// `DELETE FROM <table> WHERE id = ?1`
pub open spec fn delete_row_sql(table: Seq<char>) -> Seq<char> {
    "DELETE FROM "@ + table + " WHERE id = ?1"@
}

/// The statement that adds a row of default values to `table`.
pub fn insert_row_statement(table: &str) -> (r: String)
    ensures
        r@ == insert_row_sql(table@),
{
    let mut s = String::from_str("INSERT INTO ");
    s.append(table);
    s.append(" DEFAULT VALUES;");
    s
}

/// The statement that sets `field` of one row of `table`.
pub fn update_field_statement(table: &str, field: &str) -> (r: String)
    ensures
        r@ == update_field_sql(table@, field@),
{
    let mut s = String::from_str("UPDATE ");
    s.append(table);
    s.append(" SET ");
    s.append(field);
    s.append(" = ?1 WHERE id = ?2");
    s
}

/// The assignments of a row update for the given field names, all bound to
/// the parameter at `position`.
pub fn assignments_statement(fields: &Vec<String>, position: u64) -> (r: String)
    ensures
        r@ == assignments_sql(fields@.map_values(|f: String| f@), position as nat),
{
    let ghost names = fields@.map_values(|f: String| f@);
    let mut s = String::new();
    let mut i: usize = 0;
    while i < fields.len()
        invariant
            i <= fields.len(),
            names == fields@.map_values(|f: String| f@),
            s@ == assignments_sql(names.subrange(0, i as int), position as nat),
        decreases fields.len() - i,
    {
        let ghost before = s@;
        s.append(fields[i].as_str());
        s.append(" = ?");
        push_u64_text(&mut s, position);
        proof {
            let next = names.subrange(0, i + 1);
            assert(next.drop_last() =~= names.subrange(0, i as int));
            assert(next.last() == fields@[i as int]@);
            assert(s@ =~= before + assignment_sql(fields@[i as int]@, position as nat));
        }
        i = i + 1;
    }
    assert(names.subrange(0, fields.len() as int) =~= names);
    s
}

/// The statement that updates one row of `table` with the given assignments.
pub fn update_row_statement(table: &str, assignments: &str) -> (r: String)
    ensures
        r@ == update_row_sql(table@, assignments@),
{
    let mut s = String::from_str("UPDATE ");
    s.append(table);
    s.append(" SET ");
    s.append(assignments);
    s.append(" WHERE id = ?1");
    s
}

/// The query for the ids of all rows of `table`.
pub fn select_ids_statement(table: &str) -> (r: String)
    ensures
        r@ == select_ids_sql(table@),
{
    let mut s = String::from_str("SELECT id FROM ");
    s.append(table);
    s
}

/// The query for `field` of one row of `table`.
pub fn select_field_statement(table: &str, field: &str) -> (r: String)
    ensures
        r@ == select_field_sql(table@, field@),
{
    let mut s = String::from_str("SELECT ");
    s.append(field);
    s.append(" FROM ");
    s.append(table);
    s.append(" WHERE id = ?1");
    s
}

/// The statement that removes one row of `table`.
pub fn delete_row_statement(table: &str) -> (r: String)
    ensures
        r@ == delete_row_sql(table@),
{
    let mut s = String::from_str("DELETE FROM ");
    s.append(table);
    s.append(" WHERE id = ?1");
    s
}

/// `before + part + after` holds `before`, `part` and `after` one after the
/// other, at their places.
proof fn lemma_three_pieces(before: Seq<char>, part: Seq<char>, after: Seq<char>)
    ensures
        (before + part + after).len() == (before.len() + part.len() + after.len()) as int,
        (before + part + after).subrange(0, before.len() as int) == before,
        (before + part + after).subrange(before.len() as int, (before.len() + part.len()) as int) == part,
        (before + part + after).subrange(
            (before.len() + part.len()) as int,
            (before.len() + part.len() + after.len()) as int,
        ) == after,
{
    let whole = before + part + after;
    assert(whole.subrange(0, before.len() as int) =~= before);
    assert(whole.subrange(before.len() as int, (before.len() + part.len()) as int) =~= part);
    assert(whole.subrange((before.len() + part.len()) as int, (before.len() + part.len() + after.len()) as int)
        =~= after);
}

/// `a + x + b + y + c` holds its five pieces one after the other, at their
/// places.
proof fn lemma_five_pieces(a: Seq<char>, x: Seq<char>, b: Seq<char>, y: Seq<char>, c: Seq<char>)
    ensures
        (a + x + b + y + c).len() == (a.len() + x.len() + b.len() + y.len() + c.len()) as int,
        (a + x + b + y + c).subrange(0, a.len() as int) == a,
        (a + x + b + y + c).subrange(a.len() as int, (a.len() + x.len()) as int) == x,
        (a + x + b + y + c).subrange((a.len() + x.len()) as int, (a.len() + x.len() + b.len()) as int) == b,
        (a + x + b + y + c).subrange(
            (a.len() + x.len() + b.len()) as int,
            (a.len() + x.len() + b.len() + y.len()) as int,
        ) == y,
        (a + x + b + y + c).subrange(
            (a.len() + x.len() + b.len() + y.len()) as int,
            (a.len() + x.len() + b.len() + y.len() + c.len()) as int,
        ) == c,
{
    let whole = a + x + b + y + c;
    assert(whole =~= a + x + (b + y + c));
    lemma_three_pieces(a, x, b + y + c);
    assert(whole =~= (a + x) + b + (y + c));
    lemma_three_pieces(a + x, b, y + c);
    assert((a + x).subrange(0, a.len() as int) =~= a);
    lemma_three_pieces(a + x + b, y, c);
    assert(whole.subrange(0, a.len() as int) =~= whole.subrange(0, (a + x).len() as int).subrange(
        0,
        a.len() as int,
    ));
}

/// The insert statement names the table exactly as given, whatever the
/// name: `INSERT INTO `, the name, then ` DEFAULT VALUES;`. So two names
/// give the same statement only when they are the same name.
pub proof fn law_insert_row_sql_names_table(table: Seq<char>, other: Seq<char>)
    ensures
        insert_row_sql(table).len() == table.len() + 28,
        insert_row_sql(table).subrange(0, 12) == "INSERT INTO "@,
        insert_row_sql(table).subrange(12, 12int + table.len()) == table,
        insert_row_sql(table).subrange(12int + table.len(), 28int + table.len()) == " DEFAULT VALUES;"@,
        insert_row_sql(table) == insert_row_sql(other) <==> table == other,
{
    reveal_strlit("INSERT INTO ");
    reveal_strlit(" DEFAULT VALUES;");
    lemma_three_pieces("INSERT INTO "@, table, " DEFAULT VALUES;"@);
    lemma_three_pieces("INSERT INTO "@, other, " DEFAULT VALUES;"@);
}

/// The update statement of one field names the table and the field exactly
/// as given: `UPDATE `, the table, ` SET `, the field, then
/// ` = ?1 WHERE id = ?2` (the value is the first parameter, the row id the
/// second). For one table, two fields give the same statement only when they
/// are the same field; for one field, likewise for two tables.
pub proof fn law_update_field_sql_names_table_and_field(
    table: Seq<char>,
    field: Seq<char>,
    other_table: Seq<char>,
    other_field: Seq<char>,
)
    ensures
        update_field_sql(table, field).len() == table.len() + field.len() + 31,
        update_field_sql(table, field).subrange(0, 7) == "UPDATE "@,
        update_field_sql(table, field).subrange(7, 7int + table.len()) == table,
        update_field_sql(table, field).subrange(7int + table.len(), 12int + table.len()) == " SET "@,
        update_field_sql(table, field).subrange(12int + table.len(), 12int + table.len() + field.len())
            == field,
        update_field_sql(table, field).subrange(
            12int + table.len() + field.len(),
            31int + table.len() + field.len(),
        ) == " = ?1 WHERE id = ?2"@,
        update_field_sql(table, field) == update_field_sql(table, other_field) <==> field
            == other_field,
        update_field_sql(table, field) == update_field_sql(other_table, field) <==> table
            == other_table,
{
    reveal_strlit("UPDATE ");
    reveal_strlit(" SET ");
    reveal_strlit(" = ?1 WHERE id = ?2");
    lemma_five_pieces("UPDATE "@, table, " SET "@, field, " = ?1 WHERE id = ?2"@);
    lemma_five_pieces("UPDATE "@, table, " SET "@, other_field, " = ?1 WHERE id = ?2"@);
    lemma_five_pieces("UPDATE "@, other_table, " SET "@, field, " = ?1 WHERE id = ?2"@);
}

/// The update statement of a whole row names the table and holds the
/// assignments exactly as given: `UPDATE `, the table, ` SET `, the
/// assignments, then ` WHERE id = ?1`. For one table, two lists of
/// assignments give the same statement only when they are the same; for one
/// list, likewise for two tables.
pub proof fn law_update_row_sql_names_table(
    table: Seq<char>,
    assignments: Seq<char>,
    other_table: Seq<char>,
    other_assignments: Seq<char>,
)
    ensures
        update_row_sql(table, assignments).len() == table.len() + assignments.len() + 26,
        update_row_sql(table, assignments).subrange(0, 7) == "UPDATE "@,
        update_row_sql(table, assignments).subrange(7, 7int + table.len()) == table,
        update_row_sql(table, assignments).subrange(7int + table.len(), 12int + table.len()) == " SET "@,
        update_row_sql(table, assignments).subrange(
            12int + table.len(),
            12int + table.len() + assignments.len(),
        ) == assignments,
        update_row_sql(table, assignments).subrange(
            12int + table.len() + assignments.len(),
            26int + table.len() + assignments.len(),
        ) == " WHERE id = ?1"@,
        update_row_sql(table, assignments) == update_row_sql(table, other_assignments) <==> assignments
            == other_assignments,
        update_row_sql(table, assignments) == update_row_sql(other_table, assignments) <==> table
            == other_table,
{
    reveal_strlit("UPDATE ");
    reveal_strlit(" SET ");
    reveal_strlit(" WHERE id = ?1");
    lemma_five_pieces("UPDATE "@, table, " SET "@, assignments, " WHERE id = ?1"@);
    lemma_five_pieces("UPDATE "@, table, " SET "@, other_assignments, " WHERE id = ?1"@);
    lemma_five_pieces("UPDATE "@, other_table, " SET "@, assignments, " WHERE id = ?1"@);
}

/// The query of one field names the field and the table exactly as given:
/// `SELECT `, the field, ` FROM `, the table, then ` WHERE id = ?1` (the row
/// id is the only parameter). For one table, two fields give the same query
/// only when they are the same field; for one field, likewise for two
/// tables.
pub proof fn law_select_field_sql_names_field_and_table(
    table: Seq<char>,
    field: Seq<char>,
    other_table: Seq<char>,
    other_field: Seq<char>,
)
    ensures
        select_field_sql(table, field).len() == table.len() + field.len() + 27,
        select_field_sql(table, field).subrange(0, 7) == "SELECT "@,
        select_field_sql(table, field).subrange(7, 7int + field.len()) == field,
        select_field_sql(table, field).subrange(7int + field.len(), 13int + field.len()) == " FROM "@,
        select_field_sql(table, field).subrange(13int + field.len(), 13int + field.len() + table.len())
            == table,
        select_field_sql(table, field).subrange(
            13int + field.len() + table.len(),
            27int + field.len() + table.len(),
        ) == " WHERE id = ?1"@,
        select_field_sql(table, field) == select_field_sql(table, other_field) <==> field
            == other_field,
        select_field_sql(table, field) == select_field_sql(other_table, field) <==> table
            == other_table,
{
    reveal_strlit("SELECT ");
    reveal_strlit(" FROM ");
    reveal_strlit(" WHERE id = ?1");
    lemma_five_pieces("SELECT "@, field, " FROM "@, table, " WHERE id = ?1"@);
    lemma_five_pieces("SELECT "@, other_field, " FROM "@, table, " WHERE id = ?1"@);
    lemma_five_pieces("SELECT "@, field, " FROM "@, other_table, " WHERE id = ?1"@);
}

/// The query of all row ids names the table exactly as given:
/// `SELECT id FROM `, then the name. Two names give the same query only when
/// they are the same name.
pub proof fn law_select_ids_sql_names_table(table: Seq<char>, other: Seq<char>)
    ensures
        select_ids_sql(table).len() == table.len() + 15,
        select_ids_sql(table).subrange(0, 15) == "SELECT id FROM "@,
        select_ids_sql(table).subrange(15, 15int + table.len()) == table,
        select_ids_sql(table) == select_ids_sql(other) <==> table == other,
{
    reveal_strlit("SELECT id FROM ");
    lemma_three_pieces("SELECT id FROM "@, table, Seq::empty());
    lemma_three_pieces("SELECT id FROM "@, other, Seq::empty());
    assert("SELECT id FROM "@ + table + Seq::<char>::empty() =~= select_ids_sql(table));
    assert("SELECT id FROM "@ + other + Seq::<char>::empty() =~= select_ids_sql(other));
}

/// The delete statement names the table exactly as given: `DELETE FROM `,
/// the name, then ` WHERE id = ?1` (the row id is the only parameter). Two
/// names give the same statement only when they are the same name.
pub proof fn law_delete_row_sql_names_table(table: Seq<char>, other: Seq<char>)
    ensures
        delete_row_sql(table).len() == table.len() + 26,
        delete_row_sql(table).subrange(0, 12) == "DELETE FROM "@,
        delete_row_sql(table).subrange(12, 12int + table.len()) == table,
        delete_row_sql(table).subrange(12int + table.len(), 26int + table.len()) == " WHERE id = ?1"@,
        delete_row_sql(table) == delete_row_sql(other) <==> table == other,
{
    reveal_strlit("DELETE FROM ");
    reveal_strlit(" WHERE id = ?1");
    lemma_three_pieces("DELETE FROM "@, table, " WHERE id = ?1"@);
    lemma_three_pieces("DELETE FROM "@, other, " WHERE id = ?1"@);
}

/// The assignments of a row update follow one another with nothing between
/// them, each `<field> = ?<position>` with the position in decimal: no
/// fields give no text, one field `f` at position 2 gives `f = ?2`, and two
/// fields `f`, `g` give `f = ?2g = ?2`; adding a field adds its assignment
/// at the end.
pub proof fn law_assignments_sql_shape(
    fields: Seq<Seq<char>>,
    field: Seq<char>,
    other: Seq<char>,
    position: nat,
)
    ensures
        assignments_sql(Seq::empty(), position) == Seq::<char>::empty(),
        assignments_sql(fields.push(field), position) == assignments_sql(fields, position) + field
            + " = ?"@ + nat_text(position),
        assignments_sql(seq![field], 2) == field + " = ?2"@,
        assignments_sql(seq![field, other], 2) == field + " = ?2"@ + other + " = ?2"@,
{
    reveal_strlit(" = ?");
    reveal_strlit(" = ?2");
    assert(fields.push(field).drop_last() =~= fields);
    assert(nat_text(2) =~= seq!['2']);
    assert(" = ?"@ + nat_text(2) =~= " = ?2"@);
    assert(seq![field].drop_last() =~= Seq::<Seq<char>>::empty());
    assert(seq![field].last() == field);
    assert(seq![field, other].last() == other);
    assert(assignment_sql(field, 2) =~= field + " = ?2"@);
    assert(assignment_sql(other, 2) =~= other + " = ?2"@);
    assert(Seq::<char>::empty() + assignment_sql(field, 2) =~= assignment_sql(field, 2));
    assert(assignments_sql(Seq::<Seq<char>>::empty(), 2) == Seq::<char>::empty());
    assert(assignments_sql(seq![field], 2) == assignments_sql(seq![field].drop_last(), 2)
        + assignment_sql(seq![field].last(), 2));
    assert(assignments_sql(seq![field], 2) =~= field + " = ?2"@);
    assert(seq![field, other].drop_last() =~= seq![field]);
    assert(assignments_sql(seq![field, other], 2) =~= field + " = ?2"@ + other + " = ?2"@);
}

} // verus!
