//! Bringing an existing database to the current schema: which columns to
//! drop, which to add, and the statements that do it.

use vstd::prelude::*;
use crate::database::dbo::crawler::contains_string;
use crate::database::find_column_type;
use crate::database::schema::{DatabaseSchema, DatabaseType, SqlValue, TableDefinition, typed_views, definition_names};
use crate::text::{has_prefix, starts_with_text, views};

verus! {

/// The query that lists the columns a table has; `$1` is the table's name.
pub const EXISTING_COLUMNS_QUERY: &'static str = "SELECT column_name\n                    FROM information_schema.columns \n                    WHERE table_name = $1\n                ";

/// Migrations run against a database reached through `context`.
pub struct DatabaseMigrations<C> {
    context: C,
}

impl<C> DatabaseMigrations<C> {
    /// The context that the migrations run in.
    pub closed spec fn context_of(&self) -> C {
        self.context
    }

    pub fn new(context: C) -> (r: Self)
        ensures
            r.context_of() == context,
    {
        Self { context }
    }

    /// The context that the migrations run in.
    pub fn context(&self) -> (r: &C)
        ensures
            *r == self.context_of(),
    {
        &self.context
    }
}

/// A column that the database computes itself, such as the search vector:
/// its name begins with `com_`.
pub open spec fn is_computed_column(column: Seq<char>) -> bool {
    has_prefix(column, "com_"@)
}

/// The columns of `existing`, each once, first occurrence first, that are
/// neither computed nor among `columns`: those to drop.
pub open spec fn old_columns(existing: Seq<Seq<char>>, columns: Seq<Seq<char>>) -> Seq<Seq<char>>
    decreases existing.len(),
{
    if existing.len() == 0 {
        Seq::empty()
    } else {
        let prev = old_columns(existing.drop_last(), columns);
        let c = existing.last();
        if !is_computed_column(c) && !columns.contains(c) && !prev.contains(c) {
            prev.push(c)
        } else {
            prev
        }
    }
}

/// A migration drops exactly the columns that the table has, that the
/// schema no longer names and that the database does not compute: each
/// once, and no other.
pub proof fn law_old_columns(existing: Seq<Seq<char>>, columns: Seq<Seq<char>>)
    ensures
        forall|k: int|
            0 <= k < old_columns(existing, columns).len() ==> {
                let c = #[trigger] old_columns(existing, columns)[k];
                existing.contains(c) && !columns.contains(c) && !is_computed_column(c)
            },
        forall|c: Seq<char>|
            existing.contains(c) && !columns.contains(c) && !is_computed_column(c) ==> #[trigger] old_columns(
                existing,
                columns,
            ).contains(c),
        old_columns(existing, columns).no_duplicates(),
    decreases existing.len(),
{
    if existing.len() > 0 {
        let prev_in = existing.drop_last();
        let prev = old_columns(prev_in, columns);
        law_old_columns(prev_in, columns);
        let d = old_columns(existing, columns);
        let last = existing.last();
        assert forall|k: int| 0 <= k < d.len() implies {
            let c = #[trigger] d[k];
            existing.contains(c) && !columns.contains(c) && !is_computed_column(c)
        } by {
            if k < prev.len() {
                assert(d[k] == prev[k]);
                let m = choose|m: int| 0 <= m < prev_in.len() && prev_in[m] == prev[k];
                assert(existing[m] == prev_in[m]);
            } else {
                assert(d[k] == last);
                assert(existing[existing.len() - 1] == last);
            }
        }
        assert forall|c: Seq<char>|
            existing.contains(c) && !columns.contains(c) && !is_computed_column(c) implies #[trigger] d.contains(c) by {
            let m = choose|m: int| 0 <= m < existing.len() && existing[m] == c;
            if m < prev_in.len() {
                assert(prev_in[m] == c);
                assert(prev.contains(c));
                let j = choose|j: int| 0 <= j < prev.len() && prev[j] == c;
                assert(d[j] == prev[j]);
            } else {
                assert(c == last);
                if prev.contains(c) {
                    let j = choose|j: int| 0 <= j < prev.len() && prev[j] == c;
                    assert(d[j] == prev[j]);
                } else {
                    assert(d[prev.len() as int] == c);
                }
            }
        }
    }
}

/// The statement that drops a column.
pub open spec fn drop_column_text(table: Seq<char>, column: Seq<char>) -> Seq<char> {
    "\n                    ALTER TABLE "@ + table + " DROP COLUMN "@ + column + "\n                "@
}

/// The statements that drop the columns of `existing` that the table of `T`
/// no longer has, computed columns aside.
pub open spec fn drop_column_texts<T: DatabaseSchema>(existing: Seq<Seq<char>>) -> Seq<Seq<char>> {
    old_columns(existing, T::column_names()).map_values(|c: Seq<char>| drop_column_text(T::table_name(), c))
}

/// The columns to drop from the table of `T`, given the columns it has.
pub fn old_table_columns<T: DatabaseSchema>(existing_columns: &Vec<String>) -> (r: Vec<String>)
    ensures
        views(r@) == old_columns(views(existing_columns@), T::column_names()),
{
    let columns = T::get_column_names();
    let mut olds: Vec<String> = Vec::new();
    let n = existing_columns.len();
    let mut i: usize = 0;
    while i < n
        invariant
            n == existing_columns@.len(),
            i <= n,
            views(columns@) == T::column_names(),
            views(olds@) == old_columns(views(existing_columns@).take(i as int), T::column_names()),
        decreases n - i,
    {
        let column = &existing_columns[i];
        let ghost prefix = views(existing_columns@).take(i + 1);
        assert(prefix.drop_last() =~= views(existing_columns@).take(i as int));
        assert(prefix.last() == column@);
        if !starts_with_text(column, "com_") && !contains_string(&columns, column)
            && !contains_string(&olds, column) {
            let ghost before = olds@;
            olds.push(column.clone());
            assert(views(olds@) =~= views(before).push(column@));
        }
        i = i + 1;
    }
    assert(views(existing_columns@).take(n as int) =~= views(existing_columns@));
    olds
}

/// The statements that drop the columns the table of `T` no longer has.
pub fn drop_column_statements<T: DatabaseSchema>(existing_columns: &Vec<String>) -> (r: Vec<String>)
    ensures
        views(r@) == drop_column_texts::<T>(views(existing_columns@)),
{
    let olds = old_table_columns::<T>(existing_columns);
    let table = T::get_table_name();
    let ghost f = |c: Seq<char>| drop_column_text(T::table_name(), c);
    let mut r: Vec<String> = Vec::new();
    let n = olds.len();
    let mut i: usize = 0;
    while i < n
        invariant
            n == olds@.len(),
            i <= n,
            table@ == T::table_name(),
            f == (|c: Seq<char>| drop_column_text(T::table_name(), c)),
            views(r@) =~= views(olds@).take(i as int).map_values(f),
        decreases n - i,
    {
        let mut q = String::from_str("\n                    ALTER TABLE ");
        q.append(table.as_str());
        q.append(" DROP COLUMN ");
        q.append(olds[i].as_str());
        q.append("\n                ");
        let ghost before = r@;
        r.push(q);
        assert(views(r@) =~= views(before).push(q@));
        assert(views(olds@).take(i + 1).map_values(f) =~= views(olds@).take(i as int).map_values(f).push(f(olds@[i as int]@)));
        i = i + 1;
    }
    assert(views(olds@).take(n as int) =~= views(olds@));
    r
}

/// The columns of a table definition that `existing` lacks: those to add.
pub open spec fn new_columns(
    types: Seq<(Seq<char>, DatabaseType)>,
    existing: Seq<Seq<char>>,
) -> Seq<(Seq<char>, DatabaseType)>
    decreases types.len(),
{
    if types.len() == 0 {
        types
    } else if existing.contains(types.last().0) {
        new_columns(types.drop_last(), existing)
    } else {
        new_columns(types.drop_last(), existing).push(types.last())
    }
}

/// A migration adds exactly the columns of the definition that the table
/// lacks: each added column is one of the definition, with its type, and
/// not among the existing columns; each column of the definition that the
/// table lacks is added.
pub proof fn law_new_columns(types: Seq<(Seq<char>, DatabaseType)>, existing: Seq<Seq<char>>)
    ensures
        forall|k: int| 0 <= k < new_columns(types, existing).len() ==> types.contains(
            #[trigger] new_columns(types, existing)[k],
        ) && !existing.contains(new_columns(types, existing)[k].0),
        forall|i: int| 0 <= i < types.len() && !existing.contains(#[trigger] types[i].0)
            ==> new_columns(types, existing).contains(types[i]),
    decreases types.len(),
{
    if types.len() > 0 {
        let prev = types.drop_last();
        law_new_columns(prev, existing);
        let p = new_columns(prev, existing);
        let n = new_columns(types, existing);
        assert(existing.contains(types.last().0) ==> n == p);
        assert(!existing.contains(types.last().0) ==> n == p.push(types.last()));
        assert forall|k: int| 0 <= k < n.len() implies types.contains(#[trigger] n[k]) && !existing.contains(n[k].0) by {
            if k < p.len() {
                assert(n[k] == p[k]);
                assert(prev.contains(p[k]));
                let i = choose|i: int| 0 <= i < prev.len() && prev[i] == p[k];
                assert(types[i] == prev[i]);
            } else {
                assert(types[types.len() - 1] == types.last());
            }
        }
        assert forall|i: int| 0 <= i < types.len() && !existing.contains(#[trigger] types[i].0)
            implies n.contains(types[i]) by {
            if i < prev.len() {
                assert(prev[i] == types[i]);
                assert(p.contains(prev[i]));
                let k = choose|k: int| 0 <= k < p.len() && p[k] == prev[i];
                assert(n[k] == p[k]);
            } else {
                assert(n[n.len() - 1] == types.last());
            }
        }
    }
}

/// `s` with every `NOT NULL` taken out, from left to right.
pub open spec fn without_not_null(s: Seq<char>) -> Seq<char>
    decreases s.len(),
{
    if s.len() == 0 {
        s
    } else if s.len() >= 8 && has_prefix(s, "NOT NULL"@) {
        without_not_null(s.skip(8))
    } else {
        seq![s[0]] + without_not_null(s.skip(1))
    }
}

/// The statement that adds a column of the given type; a column declared
/// `NOT NULL` is added without that constraint.
pub open spec fn add_column_text(table: Seq<char>, column: Seq<char>, t: DatabaseType) -> Seq<char> {
    "\n                    ALTER TABLE "@ + table + " ADD COLUMN "@ + column + " "@ + without_not_null(t.sql_name())
        + ";\n                "@
}

/// The statement that sets a column of every row to `$1`.
pub open spec fn set_default_text(table: Seq<char>, column: Seq<char>) -> Seq<char> {
    "\n                        UPDATE "@ + table + " SET "@ + column + " = $1\n                    "@
}

/// The statement that declares a column `NOT NULL`.
pub open spec fn set_not_null_text(table: Seq<char>, column: Seq<char>) -> Seq<char> {
    "\n                        ALTER TABLE "@ + table + " ALTER COLUMN "@ + column
        + " SET NOT NULL;\n                    "@
}

/// A statement of a migration, with the values of its parameters.
pub struct MigrationStep {
    pub sql: String,
    pub params: Vec<SqlValue>,
}

/// The steps that add one column: the column is added; when its type does
/// not allow NULL, every existing row then takes the type's default value
/// (the one parameter, shown as the type it is the default of), and the
/// column is declared `NOT NULL`.
pub open spec fn column_plan(table: Seq<char>, column: (Seq<char>, DatabaseType)) -> Seq<
    (Seq<char>, Option<DatabaseType>),
> {
    if column.1.allows_null() {
        seq![(add_column_text(table, column.0, column.1), None)]
    } else {
        seq![
            (add_column_text(table, column.0, column.1), None),
            (set_default_text(table, column.0), Some(column.1)),
            (set_not_null_text(table, column.0), None),
        ]
    }
}

/// The steps that add `columns`, column after column.
pub open spec fn add_columns_plan(table: Seq<char>, columns: Seq<(Seq<char>, DatabaseType)>) -> Seq<
    (Seq<char>, Option<DatabaseType>),
>
    decreases columns.len(),
{
    if columns.len() == 0 {
        Seq::empty()
    } else {
        add_columns_plan(table, columns.drop_last()) + column_plan(table, columns.last())
    }
}

/// The steps that add the columns of `T` that `existing` lacks.
pub open spec fn add_column_plan<T: TableDefinition>(existing: Seq<Seq<char>>) -> Seq<
    (Seq<char>, Option<DatabaseType>),
> {
    add_columns_plan(T::table_name(), new_columns(T::column_types(), existing))
}

/// A step runs the planned statement: with no parameter when none is
/// planned, else with the default value of the planned type.
pub open spec fn step_matches(step: MigrationStep, planned: (Seq<char>, Option<DatabaseType>)) -> bool {
    &&& step.sql@ == planned.0
    &&& match planned.1 {
        None => step.params@.len() == 0,
        Some(t) => step.params@.len() == 1 && t.is_default_value(step.params@[0]),
    }
}

/// The steps match the plan, one for one.
pub open spec fn steps_match(steps: Seq<MigrationStep>, plan: Seq<(Seq<char>, Option<DatabaseType>)>) -> bool {
    steps.len() == plan.len() && forall|i: int| 0 <= i < steps.len() ==> step_matches(#[trigger] steps[i], plan[i])
}

/// Whether `pat` occurs in `s` at character position `i`.
fn occurs_at(s: &str, i: usize, pat: &str) -> (r: bool)
    requires
        i <= s@.len(),
    ensures
        r == (i + pat@.len() <= s@.len() && s@.subrange(i as int, i + pat@.len()) == pat@),
{
    let n = s.unicode_len();
    let m = pat.unicode_len();
    if m > n - i {
        return false;
    }
    let mut j: usize = 0;
    while j < m
        invariant
            n == s@.len(),
            m == pat@.len(),
            i + m <= n,
            j <= m,
            forall|k: int| 0 <= k < j ==> s@[i + k] == pat@[k],
        decreases m - j,
    {
        if s.get_char(i + j) != pat.get_char(j) {
            assert(s@.subrange(i as int, i + m)[j as int] != pat@[j as int]);
            return false;
        }
        j = j + 1;
    }
    assert(s@.subrange(i as int, i + m) =~= pat@);
    true
}

/// `s` with every `NOT NULL` taken out.
pub fn remove_not_null(s: &str) -> (r: String)
    ensures
        r@ == without_not_null(s@),
{
    proof { reveal_strlit("NOT NULL"); }
    let n = s.unicode_len();
    let mut res = String::new();
    let mut i: usize = 0;
    assert(s@.skip(0) =~= s@);
    assert(res@ + without_not_null(s@) =~= without_not_null(s@));
    while i < n
        invariant
            n == s@.len(),
            i <= n,
            "NOT NULL"@.len() == 8,
            res@ + without_not_null(s@.skip(i as int)) == without_not_null(s@),
        decreases n - i,
    {
        let ghost rest = s@.skip(i as int);
        assert(rest.len() > 0);
        if occurs_at(s, i, "NOT NULL") {
            assert(rest.subrange(0, 8) =~= s@.subrange(i as int, i + 8));
            assert(rest.skip(8) =~= s@.skip(i + 8));
            i = i + 8;
        } else {
            assert(!(rest.len() >= 8 && has_prefix(rest, "NOT NULL"@))) by {
                if rest.len() >= 8 && has_prefix(rest, "NOT NULL"@) {
                    assert(rest.subrange(0, 8) =~= s@.subrange(i as int, i + 8));
                }
            }
            let piece = s.substring_char(i, i + 1);
            let ghost before = res@;
            res.append(piece);
            assert(piece@ =~= seq![rest[0]]);
            assert(rest.skip(1) =~= s@.skip(i + 1));
            assert(res@ + without_not_null(s@.skip(i + 1)) =~= before + (seq![rest[0]] + without_not_null(rest.skip(1))));
            i = i + 1;
        }
    }
    assert(s@.skip(n as int) =~= Seq::<char>::empty());
    assert(res@ + Seq::<char>::empty() =~= res@);
    res
}

/// The names of the columns of `T` that `existing_columns` lacks.
pub fn new_table_columns<T: TableDefinition>(existing_columns: &Vec<String>) -> (r: Vec<String>)
    ensures
        views(r@) == definition_names(new_columns(T::column_types(), views(existing_columns@))),
{
    let types = T::get_column_types();
    let ghost existing = views(existing_columns@);
    let mut r: Vec<String> = Vec::new();
    let n = types.len();
    let mut i: usize = 0;
    while i < n
        invariant
            n == types@.len(),
            i <= n,
            typed_views(types@) == T::column_types(),
            existing == views(existing_columns@),
            views(r@) =~= definition_names(new_columns(typed_views(types@).take(i as int), existing)),
        decreases n - i,
    {
        let ghost prefix = typed_views(types@).take(i + 1);
        assert(prefix.drop_last() =~= typed_views(types@).take(i as int));
        assert(prefix.last() == (types@[i as int].0@, types@[i as int].1));
        let name = &types[i].0;
        if !contains_string(existing_columns, name) {
            let ghost before = r@;
            r.push(name.clone());
            assert(views(r@) =~= views(before).push(name@));
            assert(new_columns(prefix, existing) =~= new_columns(prefix.drop_last(), existing).push(prefix.last()));
            assert(definition_names(new_columns(prefix, existing)) =~= definition_names(new_columns(prefix.drop_last(), existing)).push(name@));
        } else {
            assert(new_columns(prefix, existing) =~= new_columns(prefix.drop_last(), existing));
        }
        i = i + 1;
    }
    assert(typed_views(types@).take(n as int) =~= typed_views(types@));
    r
}

/// The steps that add the columns of `T` that `existing_columns` lacks; a
/// column declared `NOT NULL` is added without that constraint, filled
/// with its type's default, and then declared `NOT NULL`.
pub fn add_column_statements<T: TableDefinition>(existing_columns: &Vec<String>) -> (r: Vec<MigrationStep>)
    ensures
        steps_match(r@, add_column_plan::<T>(views(existing_columns@))),
{
    let types = T::get_column_types();
    let table = T::get_table_name();
    let ghost existing = views(existing_columns@);
    let mut r: Vec<MigrationStep> = Vec::new();
    let n = types.len();
    let mut i: usize = 0;
    while i < n
        invariant
            n == types@.len(),
            i <= n,
            table@ == T::table_name(),
            typed_views(types@) == T::column_types(),
            existing == views(existing_columns@),
            steps_match(r@, add_columns_plan(T::table_name(), new_columns(typed_views(types@).take(i as int), existing))),
        decreases n - i,
    {
        let ghost prefix = typed_views(types@).take(i + 1);
        let ghost before = r@;
        let ghost plan_before = add_columns_plan(T::table_name(), new_columns(typed_views(types@).take(i as int), existing));
        assert(prefix.drop_last() =~= typed_views(types@).take(i as int));
        assert(prefix.last() == (types@[i as int].0@, types@[i as int].1));
        let name = &types[i].0;
        let column_type = &types[i].1;
        if !contains_string(existing_columns, name) {
            let type_text = column_type.to_sql_type_name();
            let stripped = remove_not_null(type_text.as_str());
            let mut add = String::from_str("\n                    ALTER TABLE ");
            add.append(table.as_str());
            add.append(" ADD COLUMN ");
            add.append(name.as_str());
            add.append(" ");
            add.append(stripped.as_str());
            add.append(";\n                ");
            r.push(MigrationStep { sql: add, params: Vec::new() });
            if !column_type.is_nullable() {
                let mut set_default = String::from_str("\n                        UPDATE ");
                set_default.append(table.as_str());
                set_default.append(" SET ");
                set_default.append(name.as_str());
                set_default.append(" = $1\n                    ");
                let default_value = column_type.get_default_value();
                r.push(MigrationStep { sql: set_default, params: vec![default_value] });
                let mut set_not_null = String::from_str("\n                        ALTER TABLE ");
                set_not_null.append(table.as_str());
                set_not_null.append(" ALTER COLUMN ");
                set_not_null.append(name.as_str());
                set_not_null.append(" SET NOT NULL;\n                    ");
                r.push(MigrationStep { sql: set_not_null, params: Vec::new() });
            }
            proof {
                let col = prefix.last();
                assert(new_columns(prefix, existing) =~= new_columns(prefix.drop_last(), existing).push(col));
                let planned = column_plan(T::table_name(), col);
                let nc = new_columns(prefix, existing);
                assert(nc.drop_last() =~= new_columns(prefix.drop_last(), existing));
                assert(nc.last() == col);
                assert(add_columns_plan(T::table_name(), nc) == add_columns_plan(T::table_name(), nc.drop_last()) + column_plan(T::table_name(), nc.last()));
                assert(add_columns_plan(T::table_name(), nc) == plan_before + planned);
                assert(r@.len() == before.len() + planned.len());
                assert forall|k: int| 0 <= k < r@.len() implies step_matches(#[trigger] r@[k], (plan_before + planned)[k]) by {
                    if k < before.len() {
                        assert(r@[k] == before[k]);
                    }
                }
            }
        } else {
            assert(new_columns(prefix, existing) =~= new_columns(prefix.drop_last(), existing));
        }
        i = i + 1;
    }
    assert(typed_views(types@).take(n as int) =~= typed_views(types@));
    r
}

} // verus!
