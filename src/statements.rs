//! Text of the few SQL statements whose shape depends on the request: the
//! partial update that sets only the fields given, and the pattern of a
//! substring search.
use vstd::prelude::*;
use vstd::string::StringExecFns;

verus! {

/// The pattern that matches any text containing `q`.
pub open spec fn like_text(q: Seq<char>) -> Seq<char> {
    "%"@ + q + "%"@
}

/// The LIKE pattern of a substring search for `query`.
pub fn like_pattern(query: &str) -> (r: String)
    ensures
        r@ == like_text(query@),
{
    let mut r = String::from_str("%");
    r.append(query);
    r.append("%");
    r
}

/// The assignments `column = ?, ` of the columns marked present, in order.
pub open spec fn assignments(columns: Seq<Seq<char>>, present: Seq<bool>) -> Seq<char>
    decreases columns.len(),
{
    if columns.len() == 0 || present.len() == 0 {
        seq![]
    } else {
        assignments(columns.drop_last(), present.drop_last()) + if present.last() {
            columns.last() + " = ?, "@
        } else {
            seq![]
        }
    }
}

/// The texts of some strings.
pub open spec fn column_texts(columns: Seq<String>) -> Seq<Seq<char>> {
    columns.map_values(|c: String| c@)
}

/// Whether any column is marked present.
pub open spec fn any_present(present: Seq<bool>) -> bool {
    exists|i: int| 0 <= i < present.len() && present[i]
}

/// The statement that updates the marked columns of the row `id` of `table`
/// and stamps its update time: `UPDATE table SET a = ?, b = ?, updated_at =
/// CURRENT_TIMESTAMP WHERE id = ?`. None when no column is marked, as there
/// is nothing to update.
pub fn build_update_statement(table: &str, columns: &Vec<String>, present: &Vec<bool>) -> (r: Option<
    String,
>)
    requires
        columns@.len() == present@.len(),
    ensures
        match r {
            Some(s) => any_present(present@) && s@ == "UPDATE "@ + table@ + " SET "@ + assignments(
                column_texts(columns@),
                present@,
            ) + "updated_at = CURRENT_TIMESTAMP WHERE id = ?"@,
            None => !any_present(present@),
        },
{
    let ghost cols = column_texts(columns@);
    let mut text = String::from_str("UPDATE ");
    text.append(table);
    text.append(" SET ");
    let ghost head = text@;
    let mut any = false;
    let mut i: usize = 0;
    while i < columns.len()
        invariant
            0 <= i <= columns@.len(),
            columns@.len() == present@.len(),
            cols == column_texts(columns@),
            text@ == head + assignments(cols.subrange(0, i as int), present@.subrange(0, i as int)),
            any == exists|j: int| 0 <= j < i && present@[j],
        decreases columns@.len() - i,
    {
        assert(cols.subrange(0, i + 1).drop_last() =~= cols.subrange(0, i as int));
        assert(present@.subrange(0, i + 1).drop_last() =~= present@.subrange(0, i as int));
        assert(cols[i as int] == columns@[i as int]@);
        if present[i] {
            text.append(columns[i].as_str());
            text.append(" = ?, ");
            any = true;
        }
        i = i + 1;
    }
    assert(cols.subrange(0, columns@.len() as int) =~= cols);
    assert(present@.subrange(0, present@.len() as int) =~= present@);
    if !any {
        return None;
    }
    text.append("updated_at = CURRENT_TIMESTAMP WHERE id = ?");
    Some(text)
}

} // verus!
