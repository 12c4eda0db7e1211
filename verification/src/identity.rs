//! Identity parsing from the connect probes.
//!
//! The probes are `SELECT current_user, current_role, current_database` and
//! `SHOW DATABASES`. Parsing never fails: a missing column, a cell that is not
//! text, or an empty result falls back to a default, so a connect never fails
//! on a surprising probe shape.
//!
//! Fallbacks: user to the typed username, then the connection name; role to
//! the empty text; current database to the saved default; databases to the
//! current database alone.

use vstd::prelude::*;
use crate::registry::opt_text;
use crate::session::texts;
use crate::text::{trim, trimmed};

verus! {

/// A probe result as the studio reads it: the column names, and each row's
/// cells, where a cell is its text when the server sent a string.
#[derive(Debug, Clone)]
pub struct ProbeResult {
    pub columns: Vec<String>,
    pub rows: Vec<Vec<Option<String>>>,
}

/// The abstract value of a probe result.
pub struct ProbeView {
    pub columns: Seq<Seq<char>>,
    pub rows: Seq<Seq<Option<Seq<char>>>>,
}

/// The abstract value of a row.
pub open spec fn row_view(r: Vec<Option<String>>) -> Seq<Option<Seq<char>>> {
    r@.map_values(|c: Option<String>| opt_text(c))
}

impl View for ProbeResult {
    type V = ProbeView;

    open spec fn view(&self) -> ProbeView {
        ProbeView {
            columns: texts(self.columns@),
            rows: self.rows@.map_values(|r: Vec<Option<String>>| row_view(r)),
        }
    }
}

/// The abstract value of an optional probe result.
pub open spec fn opt_probe(p: Option<&ProbeResult>) -> Option<ProbeView> {
    match p {
        Some(r) => Some(r@),
        None => None,
    }
}

/// The abstract value of an owned optional probe result.
pub open spec fn opt_probe_value(p: Option<ProbeResult>) -> Option<ProbeView> {
    match p {
        Some(r) => Some(r@),
        None => None,
    }
}

/// A cell's text, trimmed, when it is text and not blank.
pub open spec fn usable_text(cell: Option<Seq<char>>) -> Option<Seq<char>> {
    match cell {
        Some(t) => if trimmed(t).len() > 0 {
            Some(trimmed(t))
        } else {
            None
        },
        None => None,
    }
}

/// The trimmed text in `column` of the first row, when there is one.
pub open spec fn first_row_text(who: ProbeView, column: Seq<char>) -> Option<Seq<char>> {
    match who.columns.index_of_first(column) {
        None => None,
        Some(idx) => if who.rows.len() > 0 && idx < who.rows[0].len() {
            usable_text(who.rows[0][idx])
        } else {
            None
        },
    }
}

/// `first_row_text` of an optional probe result.
pub open spec fn probed(who: Option<ProbeView>, column: Seq<char>) -> Option<Seq<char>> {
    match who {
        Some(w) => first_row_text(w, column),
        None => None,
    }
}

fn trimmed_text(s: &str) -> (r: Option<String>)
    ensures
        opt_text(r) == usable_text(Some(s@)),
{
    let t = trim(s);
    if t.unicode_len() == 0 {
        None
    } else {
        Some(t.to_owned())
    }
}

/// Read a named column from the first row of a probe result, trimmed.
/// `None` when the column, the row or the cell is missing, or the cell is
/// not text or is blank.
fn first_row_cell(who: &ProbeResult, column: &str) -> (r: Option<String>)
    ensures
        opt_text(r) == first_row_text(who@, column@),
{
    let ghost cols = who@.columns;
    proof {
        cols.index_of_first_ensures(column@);
    }
    let mut idx: usize = 0;
    while idx < who.columns.len()
        invariant
            cols == who@.columns,
            idx <= who.columns@.len(),
            forall|j: int| 0 <= j < idx ==> cols[j] != column@,
        decreases who.columns@.len() - idx,
    {
        if who.columns[idx].as_str().to_owned() == column.to_owned() {
            proof {
                assert(cols[idx as int] == column@);
                cols.index_of_first_ensures(column@);
                assert(cols.contains(column@));
                let k = cols.index_of_first(column@)->0;
                assert(k == idx);
            }
            return cell_text(who, idx);
        }
        idx = idx + 1;
    }
    proof {
        cols.index_of_first_ensures(column@);
    }
    None
}

/// The usable text of the first row's cell at `idx`.
fn cell_text(who: &ProbeResult, idx: usize) -> (r: Option<String>)
    ensures
        opt_text(r) == (if who@.rows.len() > 0 && idx < who@.rows[0].len() {
            usable_text(who@.rows[0][idx as int])
        } else {
            None
        }),
{
    if who.rows.len() == 0 {
        return None;
    }
    let row = &who.rows[0];
    if idx >= row.len() {
        return None;
    }
    match &row[idx] {
        Some(cell) => trimmed_text(cell.as_str()),
        None => None,
    }
}

/// The live-session identity shown in the connection chip.
#[derive(Debug, Clone)]
pub struct Identity {
    pub user: String,
    pub role: String,
    pub current_database: String,
}

/// The abstract value of an [`Identity`].
pub struct IdentityView {
    pub user: Seq<char>,
    pub role: Seq<char>,
    pub current_database: Seq<char>,
}

impl View for Identity {
    type V = IdentityView;

    open spec fn view(&self) -> IdentityView {
        IdentityView {
            user: self.user@,
            role: self.role@,
            current_database: self.current_database@,
        }
    }
}

/// The identity a probe gives, with the fallbacks applied.
pub open spec fn identity_of(
    who: Option<ProbeView>,
    form_user: Option<Seq<char>>,
    conn_name: Seq<char>,
    default_db: Seq<char>,
) -> IdentityView {
    let user = match probed(who, "current_user"@) {
        Some(u) => u,
        None => match form_user {
            Some(f) => if trimmed(f).len() > 0 {
                trimmed(f)
            } else {
                conn_name
            },
            None => conn_name,
        },
    };
    let role = match probed(who, "current_role"@) {
        Some(r) => r,
        None => Seq::empty(),
    };
    let current_database = match probed(who, "current_database"@) {
        Some(d) => d,
        None => default_db,
    };
    IdentityView { user, role, current_database }
}

/// The text of an optional string slice.
pub open spec fn opt_str(s: Option<&str>) -> Option<Seq<char>> {
    match s {
        Some(t) => Some(t@),
        None => None,
    }
}

/// Parse identity from the best-effort probe result, applying fallbacks.
pub fn parse_identity(
    who: Option<&ProbeResult>,
    form_user: Option<&str>,
    conn_name: &str,
    default_db: &str,
) -> (r: Identity)
    ensures
        r@ == identity_of(opt_probe(who), opt_str(form_user), conn_name@, default_db@),
{
    let (probed_user, probed_role, probed_db) = match who {
        Some(w) => (
            first_row_cell(w, "current_user"),
            first_row_cell(w, "current_role"),
            first_row_cell(w, "current_database"),
        ),
        None => (None, None, None),
    };
    let user = match probed_user {
        Some(u) => u,
        None => {
            let typed = match form_user {
                Some(f) => trimmed_text(f),
                None => None,
            };
            match typed {
                Some(f) => f,
                None => conn_name.to_owned(),
            }
        },
    };
    let role = match probed_role {
        Some(r) => r,
        None => String::new(),
    };
    let current_database = match probed_db {
        Some(d) => d,
        None => default_db.to_owned(),
    };
    Identity { user, role, current_database }
}

/// The database names in a `SHOW DATABASES` result: the trimmed first cell of
/// every row whose first cell is non-blank text, in row order.
pub open spec fn database_names(rows: Seq<Seq<Option<Seq<char>>>>) -> Seq<Seq<char>>
    decreases rows.len(),
{
    if rows.len() == 0 {
        Seq::empty()
    } else {
        let earlier = database_names(rows.drop_last());
        let row = rows.last();
        if row.len() > 0 {
            match usable_text(row[0]) {
                Some(name) => earlier.push(name),
                None => earlier,
            }
        } else {
            earlier
        }
    }
}

/// The database list, or the current database alone when the probe gave none.
pub open spec fn databases_of(dbs: Option<ProbeView>, current_database: Seq<char>) -> Seq<Seq<char>> {
    let parsed = match dbs {
        Some(d) => database_names(d.rows),
        None => Seq::empty(),
    };
    if parsed.len() == 0 {
        seq![current_database]
    } else {
        parsed
    }
}

/// Parse the database list from a `SHOW DATABASES` result.
pub fn parse_databases(dbs: Option<&ProbeResult>, current_database: &str) -> (r: Vec<String>)
    ensures
        texts(r@) == databases_of(opt_probe(dbs), current_database@),
{
    let mut parsed: Vec<String> = Vec::new();
    if let Some(result) = dbs {
        let ghost rows = result@.rows;
        let mut i: usize = 0;
        while i < result.rows.len()
            invariant
                rows == result@.rows,
                i <= result.rows@.len(),
                texts(parsed@) == database_names(rows.take(i as int)),
            decreases result.rows@.len() - i,
        {
            assert(rows.take(i + 1).drop_last() =~= rows.take(i as int));
            let row = &result.rows[i];
            if row.len() > 0 {
                if let Some(cell) = &row[0] {
                    if let Some(name) = trimmed_text(cell.as_str()) {
                        parsed.push(name);
                    }
                }
            }
            assert(texts(parsed@) =~= database_names(rows.take(i + 1)));
            i = i + 1;
        }
        assert(rows.take(i as int) =~= rows);
    }
    if parsed.len() == 0 {
        let mut only: Vec<String> = Vec::new();
        only.push(current_database.to_owned());
        assert(texts(only@) =~= seq![current_database@]);
        only
    } else {
        parsed
    }
}

} // verus!
