//! The statements of partial updates: a statement names the columns that a
//! request changes, and no others.

use crate::entities::FieldUpdate;
use vstd::prelude::*;

verus! {

/// The assignments of a statement: `a = ?, b = ?` for the columns a, b.
pub open spec fn assignments(columns: Seq<Seq<char>>) -> Seq<char>
    decreases columns.len(),
{
    if columns.len() == 0 {
        Seq::empty()
    } else if columns.len() == 1 {
        columns[0] + " = ?"@
    } else {
        assignments(columns.drop_last()) + ", "@ + columns.last() + " = ?"@
    }
}

/// The statement that updates `columns` of the row of `table` with a given
/// identifier. The values are bound in the order of the columns, the
/// identifier last.
pub open spec fn update_text(table: Seq<char>, columns: Seq<Seq<char>>) -> Seq<char> {
    "UPDATE "@ + table + " SET "@ + assignments(columns) + " WHERE id = ?"@
}

/// The names of `columns`.
pub open spec fn names(columns: Seq<&'static str>) -> Seq<Seq<char>> {
    Seq::new(columns.len(), |i: int| columns[i]@)
}

/// The statement that updates `columns` of the row of `table` with a given
/// identifier; `None` where there is nothing to update.
pub fn update_statement(table: &str, columns: &Vec<&'static str>) -> (r: Option<String>)
    ensures
        columns@.len() == 0 ==> r is None,
        columns@.len() > 0 ==> r is Some && r->0@ == update_text(table@, names(columns@)),
{
    if columns.len() == 0 {
        return None;
    }
    let mut sets = String::new();
    let mut i: usize = 0;
    while i < columns.len()
        invariant
            i <= columns@.len(),
            sets@ == assignments(names(columns@).take(i as int)),
        decreases columns@.len() - i,
    {
        proof {
            let next = names(columns@).take(i + 1);
            assert(next.drop_last() =~= names(columns@).take(i as int));
            assert(next.last() == columns@[i as int]@);
            if i > 0 {
                assert(sets@ + ", "@ + columns@[i as int]@ + " = ?"@ =~= assignments(next));
            } else {
                assert(next[0] == columns@[0]@);
                assert(Seq::<char>::empty() + columns@[i as int]@ + " = ?"@ =~= assignments(
                    next,
                ));
            }
        }
        if i > 0 {
            sets.append(", ");
        }
        sets.append(columns[i]);
        sets.append(" = ?");
        i = i + 1;
    }
    proof {
        assert(names(columns@).take(i as int) =~= names(columns@));
    }
    let mut statement = "UPDATE ".to_owned();
    statement.append(table);
    statement.append(" SET ");
    statement.append(sets.as_str());
    statement.append(" WHERE id = ?");
    Some(statement)
}

/// The columns that an update of a category changes.
pub fn category_columns(name: bool, label: bool) -> (columns: Vec<&'static str>)
    ensures
        names(columns@) == (if name {
            seq!["name"@]
        } else {
            Seq::empty()
        }) + (if label {
            seq!["label"@]
        } else {
            Seq::empty()
        }),
{
    let mut columns: Vec<&'static str> = Vec::new();
    if name {
        columns.push("name");
    }
    if label {
        columns.push("label");
    }
    assert(names(columns@) =~= (if name {
        seq!["name"@]
    } else {
        Seq::empty()
    }) + (if label {
        seq!["label"@]
    } else {
        Seq::empty()
    }));
    columns
}

/// The columns that an update of a budget entry changes.
pub fn entry_columns(budgeted: bool, due_day: bool) -> (columns: Vec<&'static str>)
    ensures
        names(columns@) == (if budgeted {
            seq!["budgeted"@]
        } else {
            Seq::empty()
        }) + (if due_day {
            seq!["due_day"@]
        } else {
            Seq::empty()
        }),
{
    let mut columns: Vec<&'static str> = Vec::new();
    if budgeted {
        columns.push("budgeted");
    }
    if due_day {
        columns.push("due_day");
    }
    assert(names(columns@) =~= (if budgeted {
        seq!["budgeted"@]
    } else {
        Seq::empty()
    }) + (if due_day {
        seq!["due_day"@]
    } else {
        Seq::empty()
    }));
    columns
}

/// The columns that an update of a transaction changes.
pub fn transaction_columns(entry_id: bool, amount: bool, date: bool, title: bool) -> (columns: Vec<
    &'static str,
>)
    ensures
        names(columns@) == (if entry_id {
            seq!["entry_id"@]
        } else {
            Seq::empty()
        }) + (if amount {
            seq!["amount"@]
        } else {
            Seq::empty()
        }) + (if date {
            seq!["date"@]
        } else {
            Seq::empty()
        }) + (if title {
            seq!["title"@]
        } else {
            Seq::empty()
        }),
{
    let mut columns: Vec<&'static str> = Vec::new();
    if entry_id {
        columns.push("entry_id");
    }
    if amount {
        columns.push("amount");
    }
    if date {
        columns.push("date");
    }
    if title {
        columns.push("title");
    }
    assert(names(columns@) =~= (if entry_id {
        seq!["entry_id"@]
    } else {
        Seq::empty()
    }) + (if amount {
        seq!["amount"@]
    } else {
        Seq::empty()
    }) + (if date {
        seq!["date"@]
    } else {
        Seq::empty()
    }) + (if title {
        seq!["title"@]
    } else {
        Seq::empty()
    }));
    columns
}

/// Whether an update changes its field: one that keeps it does not.
pub fn changes<T>(update: &FieldUpdate<T>) -> (r: bool)
    ensures
        r == !(update is Keep),
{
    !update.is_keep()
}

} // verus!
