//! SQL text shared by the services: the song detail query, placeholder
//! lists and `UPDATE` statements built from the fields a request sets.

use vstd::prelude::*;

verus! {

/// The query selecting songs joined with their album and artist, in the
/// shape of `SongDetailDto`; callers append a `WHERE` clause.
pub open spec fn detail_sql_text() -> Seq<char> {
    "SELECT s.id, s.title, 
            ar.name as artist, 
            s.artist_id, 
            al.name as album, 
            s.album_id, 
            s.track_number, s.disc_number, s.duration, s.bit_rate, s.genre,
            s.year, s.content_type, s.file_path as path,
            al.cover_art_path as cover_art
         FROM songs s
         JOIN albums al ON s.album_id = al.id
         JOIN artists ar ON s.artist_id = ar.id"@
}

/// The song detail query (see `detail_sql_text`).
pub fn detail_sql() -> (s: String)
    ensures
        s@ == detail_sql_text(),
{
    String::from_str(
        "SELECT s.id, s.title, 
            ar.name as artist, 
            s.artist_id, 
            al.name as album, 
            s.album_id, 
            s.track_number, s.disc_number, s.duration, s.bit_rate, s.genre,
            s.year, s.content_type, s.file_path as path,
            al.cover_art_path as cover_art
         FROM songs s
         JOIN albums al ON s.album_id = al.id
         JOIN artists ar ON s.artist_id = ar.id",
    )
}

/// The song detail query binds nothing itself.
pub proof fn lemma_detail_sql_plain()
    ensures
        count_char(detail_sql_text(), '?') == 0,
{
    reveal_strlit("SELECT s.id, s.title, 
            ar.name as artist, 
            s.artist_id, 
            al.name as album, 
            s.album_id, 
            s.track_number, s.disc_number, s.duration, s.bit_rate, s.genre,
            s.year, s.content_type, s.file_path as path,
            al.cover_art_path as cover_art
         FROM songs s
         JOIN albums al ON s.album_id = al.id
         JOIN artists ar ON s.artist_id = ar.id");
    lemma_no_question_mark(detail_sql_text());
}

/// A value bound to a `?` placeholder.
#[derive(Debug)]
pub enum SqlValue {
    Null,
    Int(i64),
    Bool(bool),
    Text(String),
}

/// How many times `c` occurs in `s`.
pub open spec fn count_char(s: Seq<char>, c: char) -> nat
    decreases s.len(),
{
    if s.len() == 0 {
        0
    } else {
        count_char(s.drop_last(), c) + (if s.last() == c { 1nat } else { 0nat })
    }
}

/// Counting over a concatenation adds up.
pub proof fn lemma_count_char_concat(a: Seq<char>, b: Seq<char>, c: char)
    ensures
        count_char(a + b, c) == count_char(a, c) + count_char(b, c),
    decreases b.len(),
{
    if b.len() == 0 {
        assert(a + b =~= a);
    } else {
        lemma_count_char_concat(a, b.drop_last(), c);
        assert((a + b).drop_last() =~= a + b.drop_last());
    }
}

/// `n` placeholders separated by commas: `?,?,?`.
pub open spec fn placeholders_of(n: nat) -> Seq<char>
    decreases n,
{
    if n == 0 {
        Seq::empty()
    } else if n == 1 {
        "?"@
    } else {
        placeholders_of((n - 1) as nat) + ",?"@
    }
}

/// The placeholder list for `n` values.
pub fn placeholders(n: usize) -> (s: String)
    ensures
        s@ == placeholders_of(n as nat),
{
    proof {
        reveal_strlit("");
        reveal_strlit("?");
        reveal_strlit(",?");
    }
    let mut s = String::from_str("");
    let mut i: usize = 0;
    while i < n
        invariant
            i <= n,
            s@ == placeholders_of(i as nat),
        decreases n - i,
    {
        if i == 0 {
            s.append("?");
        } else {
            s.append(",?");
        }
        i = i + 1;
    }
    s
}

/// A placeholder list holds exactly one `?` per value.
pub proof fn lemma_placeholders_count(n: nat)
    ensures
        count_char(placeholders_of(n), '?') == n,
    decreases n,
{
    reveal_strlit("?");
    reveal_strlit(",?");
    reveal_strlit(",");
    assert("?"@.drop_last() =~= Seq::<char>::empty());
    assert("?"@.len() == 1 && "?"@.last() == '?');
    assert(count_char(Seq::<char>::empty(), '?') == 0);
    assert(count_char("?"@, '?') == 1);
    assert(","@.drop_last() =~= Seq::<char>::empty());
    assert(","@.len() == 1 && ","@.last() == ',');
    assert(count_char(","@, '?') == 0);
    assert(",?"@.drop_last() =~= ","@);
    assert(",?"@.len() == 2 && ",?"@.last() == '?');
    assert(count_char(",?"@, '?') == 1);
    if n > 1 {
        lemma_placeholders_count((n - 1) as nat);
        lemma_count_char_concat(placeholders_of((n - 1) as nat), ",?"@, '?');
    }
}

/// The `SET` list of an update: `a = ?, b = ?` for the columns in order.
pub open spec fn set_clause_of(cols: Seq<Seq<char>>) -> Seq<char>
    decreases cols.len(),
{
    if cols.len() == 0 {
        Seq::empty()
    } else if cols.len() == 1 {
        cols[0] + " = ?"@
    } else {
        set_clause_of(cols.drop_last()) + ", "@ + cols.last() + " = ?"@
    }
}

/// An `UPDATE` of `table` that sets the columns, stamps `updated_at` and
/// selects the row by `key_col`.
pub open spec fn update_sql_of(table: Seq<char>, cols: Seq<Seq<char>>, key_col: Seq<char>) -> Seq<char> {
    "UPDATE "@ + table + " SET "@ + set_clause_of(cols) + ", updated_at = CURRENT_TIMESTAMP WHERE "@
        + key_col + " = ?"@
}

/// Counts of `?` in the fixed pieces of an update.
proof fn lemma_update_pieces_count()
    ensures
        count_char(" = ?"@, '?') == 1,
        count_char(", "@, '?') == 0,
        count_char("UPDATE "@, '?') == 0,
        count_char(" SET "@, '?') == 0,
        count_char(", updated_at = CURRENT_TIMESTAMP WHERE "@, '?') == 0,
{
    reveal_strlit(" = ?");
    reveal_strlit(", ");
    reveal_strlit("UPDATE ");
    reveal_strlit(" SET ");
    reveal_strlit(", updated_at = CURRENT_TIMESTAMP WHERE ");
    lemma_no_question_mark(", "@);
    lemma_no_question_mark("UPDATE "@);
    lemma_no_question_mark(" SET "@);
    lemma_no_question_mark(", updated_at = CURRENT_TIMESTAMP WHERE "@);
    reveal_strlit(" = ");
    lemma_no_question_mark(" = "@);
    assert(" = ?"@.drop_last() =~= " = "@);
}

/// A text without `?` counts none.
pub proof fn lemma_no_question_mark(s: Seq<char>)
    requires
        forall|i: int| 0 <= i < s.len() ==> s[i] != '?',
    ensures
        count_char(s, '?') == 0,
    decreases s.len(),
{
    if s.len() > 0 {
        lemma_no_question_mark(s.drop_last());
    }
}

/// No name in the list holds a `?`.
pub open spec fn all_plain(cols: Seq<Seq<char>>) -> bool {
    forall|i: int| 0 <= i < cols.len() ==> count_char(#[trigger] cols[i], '?') == 0
}

/// Lists of plain names stay plain when joined.
pub proof fn lemma_all_plain_concat(a: Seq<Seq<char>>, b: Seq<Seq<char>>)
    requires
        all_plain(a),
        all_plain(b),
    ensures
        all_plain(a + b),
{
    assert forall|i: int| 0 <= i < (a + b).len() implies count_char(#[trigger] (a + b)[i], '?') == 0 by {
        if i < a.len() {
            assert((a + b)[i] == a[i]);
        } else {
            assert((a + b)[i] == b[i - a.len()]);
        }
    }
}

/// The `SET` list has one placeholder per column when no column name holds
/// a `?`.
pub proof fn lemma_set_clause_count(cols: Seq<Seq<char>>)
    requires
        forall|i: int| 0 <= i < cols.len() ==> count_char(#[trigger] cols[i], '?') == 0,
    ensures
        count_char(set_clause_of(cols), '?') == cols.len(),
    decreases cols.len(),
{
    lemma_update_pieces_count();
    if cols.len() == 1 {
        lemma_count_char_concat(cols[0], " = ?"@, '?');
    } else if cols.len() > 1 {
        let init = cols.drop_last();
        assert forall|i: int| 0 <= i < init.len() implies count_char(#[trigger] init[i], '?') == 0 by {
            assert(init[i] == cols[i]);
        }
        lemma_set_clause_count(init);
        lemma_count_char_concat(set_clause_of(init), ", "@, '?');
        lemma_count_char_concat(set_clause_of(init) + ", "@, cols.last(), '?');
        lemma_count_char_concat(set_clause_of(init) + ", "@ + cols.last(), " = ?"@, '?');
    }
}

/// An update statement binds exactly its values: when the table, key and
/// column names hold no `?`, its text has one placeholder per assignment
/// plus one for the key.
pub proof fn lemma_update_sql_placeholders(table: Seq<char>, cols: Seq<Seq<char>>, key_col: Seq<char>)
    requires
        count_char(table, '?') == 0,
        count_char(key_col, '?') == 0,
        forall|i: int| 0 <= i < cols.len() ==> count_char(#[trigger] cols[i], '?') == 0,
    ensures
        count_char(update_sql_of(table, cols, key_col), '?') == cols.len() + 1,
{
    lemma_update_pieces_count();
    lemma_set_clause_count(cols);
    let a = "UPDATE "@ + table;
    let b = a + " SET "@;
    let c = b + set_clause_of(cols);
    let d = c + ", updated_at = CURRENT_TIMESTAMP WHERE "@;
    let e = d + key_col;
    lemma_count_char_concat("UPDATE "@, table, '?');
    lemma_count_char_concat(a, " SET "@, '?');
    lemma_count_char_concat(b, set_clause_of(cols), '?');
    lemma_count_char_concat(c, ", updated_at = CURRENT_TIMESTAMP WHERE "@, '?');
    lemma_count_char_concat(d, key_col, '?');
    lemma_count_char_concat(e, " = ?"@, '?');
}

/// The column names of a list of assignments.
pub open spec fn columns_of(assignments: Seq<(&'static str, SqlValue)>) -> Seq<Seq<char>> {
    assignments.map_values(|a: (&'static str, SqlValue)| a.0@)
}

/// The values of a list of assignments, in order.
pub open spec fn values_of(assignments: Seq<(&'static str, SqlValue)>) -> Seq<SqlValue> {
    assignments.map_values(|a: (&'static str, SqlValue)| a.1)
}

/// A statement with the values to bind to its placeholders, in order.
#[derive(Debug)]
pub struct Statement {
    pub sql: String,
    pub values: Vec<SqlValue>,
}

/// The update setting the given columns of the row whose `key_col` is `key`,
/// or `None` when there is nothing to set. The values are the assignments'
/// values in order, then the key.
pub fn update_statement(
    table: &str,
    assignments: Vec<(&'static str, SqlValue)>,
    key_col: &str,
    key: SqlValue,
) -> (r: Option<Statement>)
    ensures
        assignments.len() == 0 <==> r is None,
        r matches Some(st) ==> st.sql@ == update_sql_of(table@, columns_of(assignments@), key_col@)
            && st.values@ == values_of(assignments@).push(key),
        r matches Some(st) ==> (all_plain(columns_of(assignments@)) && count_char(table@, '?') == 0
            && count_char(key_col@, '?') == 0 ==> count_char(st.sql@, '?') == st.values.len()),
{
    if assignments.len() == 0 {
        return None;
    }
    proof {
        reveal_strlit("UPDATE ");
        reveal_strlit(" SET ");
        reveal_strlit(", ");
        reveal_strlit(" = ?");
        reveal_strlit(", updated_at = CURRENT_TIMESTAMP WHERE ");
    }
    let ghost a = assignments@;
    let mut sql = String::from_str("UPDATE ");
    sql.append(table);
    sql.append(" SET ");
    let ghost head = sql@;
    let mut values: Vec<SqlValue> = Vec::new();
    let mut rest = assignments;
    let n = rest.len();
    let mut i: usize = 0;
    while i < n
        invariant
            n == a.len(),
            n > 0,
            i <= n,
            rest@ == a.skip(i as int),
            sql@ == head + set_clause_of(columns_of(a.take(i as int))),
            values@ == values_of(a.take(i as int)),
        decreases n - i,
    {
        let (col, v) = rest.remove(0);
        assert(a[i as int] == (col, v));
        assert(rest@ =~= a.skip(i as int + 1));
        let ghost gv = v;
        if i > 0 {
            sql.append(", ");
        }
        sql.append(col);
        sql.append(" = ?");
        values.push(v);
        let ghost cols = columns_of(a.take(i as int + 1));
        assert(cols.drop_last() =~= columns_of(a.take(i as int)));
        assert(cols.last() == col@);
        assert(values_of(a.take(i as int + 1)) =~= values_of(a.take(i as int)).push(gv));
        if i == 0 {
            assert(cols =~= seq![col@]);
        }
        i = i + 1;
    }
    assert(a.take(n as int) =~= a);
    sql.append(", updated_at = CURRENT_TIMESTAMP WHERE ");
    sql.append(key_col);
    sql.append(" = ?");
    values.push(key);
    proof {
        if all_plain(columns_of(a)) && count_char(table@, '?') == 0 && count_char(key_col@, '?') == 0 {
            lemma_update_sql_placeholders(table@, columns_of(a), key_col@);
        }
    }
    Some(Statement { sql, values })
}

} // verus!
