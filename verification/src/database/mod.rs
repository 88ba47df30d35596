//! Tables of the search index and the SQL that creates and fills them.

pub mod schema;
pub mod dbo;
pub mod migrations;

use vstd::prelude::*;
use crate::text::{join, views, join_strings, contains_text, lemma_contains_itself, lemma_contains_within,
    lemma_join_contains};
use self::schema::{DatabaseSchema, DatabaseType, TableDefinition, type_of, typed_views, definition_names};

verus! {

/// The definition of each column: its name, a tab, and its SQL type.
pub open spec fn column_definitions(
    names: Seq<Seq<char>>,
    types: Seq<(Seq<char>, DatabaseType)>,
) -> Seq<Seq<char>> {
    Seq::new(
        names.len(),
        |i: int| names[i] + "\t"@ + type_of(types, names[i]).unwrap().sql_name(),
    )
}

/// The primary-key clause: empty when there are no keys.
pub open spec fn primary_key_clause(keys: Seq<Seq<char>>) -> Seq<char> {
    if keys.len() == 0 {
        Seq::empty()
    } else {
        ", PRIMARY KEY ("@ + join(keys, ", "@) + ")"@
    }
}

/// The statement that drops a table if it exists.
pub open spec fn drop_table_text(table: Seq<char>) -> Seq<char> {
    "\n            DROP TABLE IF EXISTS "@ + table + "\n        "@
}

/// The statement that creates a table unless it exists.
pub open spec fn create_table_text(
    table: Seq<char>,
    columns: Seq<Seq<char>>,
    primary_key: Seq<char>,
) -> Seq<char> {
    "\n            CREATE TABLE IF NOT EXISTS "@ + table + " (\n                "@ + join(columns, ",\n"@)
        + "\n                "@ + primary_key + "\n            )\n        "@
}

/// Every column of `S` has a type.
pub open spec fn column_types_complete<S: TableDefinition>() -> bool {
    forall|i: int|
        0 <= i < S::column_names().len() ==> #[trigger] type_of(
            S::column_types(),
            S::column_names()[i],
        ) is Some
}

/// The statements that set up the table of `S`, in the order in which they
/// run: when `drop` is set, the table is first dropped.
pub open spec fn table_creation_texts<S: TableDefinition>(drop: bool) -> Seq<Seq<char>> {
    let create = create_table_text(
        S::table_name(),
        column_definitions(S::column_names(), S::column_types()),
        primary_key_clause(S::key_names()),
    );
    if drop {
        seq![drop_table_text(S::table_name()), create]
    } else {
        seq![create]
    }
}

/// Setting up a table creates it with every column of its definition, each
/// under its own type, and with its keys as the primary key; when asked, the
/// table is dropped first.
pub proof fn law_table_creation<S: TableDefinition>(drop: bool)
    ensures
        table_creation_texts::<S>(drop).len() == if drop { 2int } else { 1int },
        drop ==> table_creation_texts::<S>(drop)[0] == drop_table_text(S::table_name()),
        forall|i: int| 0 <= i < S::column_names().len() ==> contains_text(
            table_creation_texts::<S>(drop).last(),
            #[trigger] S::column_names()[i] + "\t"@ + type_of(S::column_types(), S::column_names()[i]).unwrap().sql_name(),
        ),
        S::key_names().len() > 0 ==> contains_text(
            table_creation_texts::<S>(drop).last(),
            ", PRIMARY KEY ("@ + join(S::key_names(), ", "@) + ")"@,
        ),
{
    let names = S::column_names();
    let defs = column_definitions(names, S::column_types());
    let pk = primary_key_clause(S::key_names());
    let create = create_table_text(S::table_name(), defs, pk);
    assert(table_creation_texts::<S>(drop).last() == create);
    let before = "\n            CREATE TABLE IF NOT EXISTS "@ + S::table_name() + " (\n                "@;
    let after = "\n                "@ + pk + "\n            )\n        "@;
    assert(create =~= before + join(defs, ",\n"@) + after);
    assert forall|i: int| 0 <= i < names.len() implies contains_text(
        create,
        #[trigger] names[i] + "\t"@ + type_of(S::column_types(), names[i]).unwrap().sql_name(),
    ) by {
        lemma_join_contains(defs, ",\n"@, i);
        lemma_contains_within(before, join(defs, ",\n"@), after, defs[i]);
    }
    if S::key_names().len() > 0 {
        let head = before + join(defs, ",\n"@) + "\n                "@;
        let tail = "\n            )\n        "@;
        lemma_contains_itself(pk);
        lemma_contains_within(head, pk, tail, pk);
        assert(head + pk + tail =~= create);
    }
}

/// The type that a list of column definitions gives to `name`.
pub fn find_column_type<'a>(types: &'a Vec<(String, DatabaseType)>, name: &String) -> (r: Option<
    &'a DatabaseType,
>)
    ensures
        r matches Some(t) ==> type_of(typed_views(types@), name@) == Some(*t),
        r is None ==> type_of(typed_views(types@), name@) is None,
{
    let n = types.len();
    let mut i: usize = 0;
    while i < n
        invariant
            n == types@.len(),
            i <= n,
            forall|j: int| 0 <= j < i ==> types@[j].0@ != name@,
        decreases n - i,
    {
        if types[i].0 == *name {
            proof { lemma_type_of_at(typed_views(types@), name@, i as int); }
            return Some(&types[i].1);
        }
        i = i + 1;
    }
    proof { lemma_type_of_none(typed_views(types@), name@); }
    None
}

proof fn lemma_type_of_at(types: Seq<(Seq<char>, DatabaseType)>, name: Seq<char>, i: int)
    requires
        0 <= i < types.len(),
        types[i].0 == name,
        forall|j: int| 0 <= j < i ==> types[j].0 != name,
    ensures
        type_of(types, name) == Some(types[i].1),
    decreases i,
{
    if i > 0 {
        lemma_type_of_at(types.drop_first(), name, i - 1);
    }
}

proof fn lemma_type_of_none(types: Seq<(Seq<char>, DatabaseType)>, name: Seq<char>)
    requires
        forall|j: int| 0 <= j < types.len() ==> types[j].0 != name,
    ensures
        type_of(types, name) is None,
    decreases types.len(),
{
    if types.len() > 0 {
        lemma_type_of_none(types.drop_first(), name);
    }
}

proof fn lemma_type_of_some(types: Seq<(Seq<char>, DatabaseType)>, name: Seq<char>, i: int)
    requires
        0 <= i < types.len(),
        types[i].0 == name,
    ensures
        type_of(types, name) is Some,
    decreases i,
{
    if i > 0 && types[0].0 != name {
        lemma_type_of_some(types.drop_first(), name, i - 1);
    }
}

/// Every column of a table definition has a type.
pub proof fn lemma_column_types_complete<S: TableDefinition>()
    ensures
        column_types_complete::<S>(),
{
    S::lemma_definitions_name_columns();
    assert forall|i: int| 0 <= i < S::column_names().len() implies #[trigger] type_of(
        S::column_types(),
        S::column_names()[i],
    ) is Some by {
        assert(definition_names(S::column_types())[i] == S::column_types()[i].0);
        lemma_type_of_some(S::column_types(), S::column_names()[i], i);
    }
}

/// The statements that set up the table of `S`: its `CREATE TABLE IF NOT
/// EXISTS`, preceded by its `DROP TABLE IF EXISTS` when `drop` is set.
pub fn table_creation_statements<S: TableDefinition>(drop: bool) -> (r: Vec<String>)
    ensures
        views(r@) == table_creation_texts::<S>(drop),
{
    proof { lemma_column_types_complete::<S>(); }
    let table_name = S::get_table_name();
    let column_names = S::get_column_names();
    let column_types = S::get_column_types();
    let primary_keys = S::get_keys();

    let ghost defs = column_definitions(S::column_names(), S::column_types());
    let mut columns: Vec<String> = Vec::new();
    let n = column_names.len();
    let mut i: usize = 0;
    while i < n
        invariant
            n == column_names@.len(),
            views(column_names@) == S::column_names(),
            typed_views(column_types@) == S::column_types(),
            column_types_complete::<S>(),
            defs == column_definitions(S::column_names(), S::column_types()),
            i <= n,
            columns@.len() == i,
            forall|j: int| 0 <= j < i ==> #[trigger] columns@[j]@ == defs[j],
        decreases n - i,
    {
        let name = &column_names[i];
        assert(S::column_names()[i as int] == name@);
        assert(type_of(S::column_types(), S::column_names()[i as int]) is Some);
        let t = match find_column_type(&column_types, name) {
            Some(t) => t,
            None => { return Vec::new(); },
        };
        let mut def = name.clone();
        def.append("\t");
        let sql_text = t.to_sql_type_name();
        def.append(sql_text.as_str());
        columns.push(def);
        i = i + 1;
    }
    assert(views(columns@) =~= defs);
    let columns_text = join_strings(&columns, ",\n");

    let primary_key = if primary_keys.len() == 0 {
        assert(S::key_names().len() == 0);
        String::new()
    } else {
        let mut pk = String::from_str(", PRIMARY KEY (");
        let keys_text = join_strings(&primary_keys, ", ");
        pk.append(keys_text.as_str());
        pk.append(")");
        pk
    };

    let mut create_table = String::from_str("\n            CREATE TABLE IF NOT EXISTS ");
    create_table.append(table_name.as_str());
    create_table.append(" (\n                ");
    create_table.append(columns_text.as_str());
    create_table.append("\n                ");
    create_table.append(primary_key.as_str());
    create_table.append("\n            )\n        ");

    let mut r: Vec<String> = Vec::new();
    if drop {
        let mut drop_table = String::from_str("\n            DROP TABLE IF EXISTS ");
        drop_table.append(table_name.as_str());
        drop_table.append("\n        ");
        r.push(drop_table);
    }
    r.push(create_table);
    assert(views(r@) =~= table_creation_texts::<S>(drop));
    r
}

} // verus!
