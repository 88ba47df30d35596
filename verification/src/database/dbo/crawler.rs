//! Bulk insertion of crawled posts: which rows are written, and the
//! statements that write them.

use vstd::prelude::*;
use crate::api::lemmy::models::author::{Author, law_author_identity};
use crate::api::lemmy::models::community::{Community as LemmyCommunity, law_community_identity};
use crate::api::lemmy::models::id::LemmyId;
use crate::api::lemmy::models::post::{PostData, law_post_identity};
use crate::database::schema::{DatabaseSchema, all_row_values};
use crate::database::schema::word::Word;
use crate::identity::{RowIdentity, dedup_by, distinct_rows, insert_all_by, insert_distinct,
    extend_distinct, keys_distinct, row_key, law_insert_all_by, lemma_insert_all_by_map,
    lemma_distinct_rows_by, lemma_dedup_by_field};
use crate::sources::{uuid_version, uuid_variant_bits};
use crate::text::{join, views, join_strings, placeholders, placeholder_list};

verus! {

/// The parenthesised list of `count` positional parameters from `$start` on.
pub open spec fn row_group(start: nat, count: nat) -> Seq<char> {
    "("@ + join(placeholders(start, count), ", "@) + ")"@
}

/// One parameter group per row; the parameters are numbered from `$1` on,
/// row after row, one for each value of the row.
pub open spec fn value_groups<T: DatabaseSchema>(rows: Seq<T>) -> Seq<Seq<char>>
    decreases rows.len(),
{
    if rows.len() == 0 {
        Seq::empty()
    } else {
        value_groups(rows.drop_last()).push(
            row_group(
                (1 + all_row_values(rows.drop_last()).len()) as nat,
                rows.last().row_values().len(),
            ),
        )
    }
}

/// For each column that is not a key, in column order, the assignment that
/// takes the value of the row that was refused.
pub open spec fn exclusions(columns: Seq<Seq<char>>, keys: Seq<Seq<char>>) -> Seq<Seq<char>>
    decreases columns.len(),
{
    if columns.len() == 0 {
        Seq::empty()
    } else if keys.contains(columns.last()) {
        exclusions(columns.drop_last(), keys)
    } else {
        exclusions(columns.drop_last(), keys).push(
            columns.last() + " = excluded."@ + columns.last(),
        )
    }
}

/// The assignments of an upsert: one for each column outside the key, that
/// takes the refused row's value of that column, and none else; there are
/// none exactly when every column is part of the key.
pub proof fn law_exclusions(columns: Seq<Seq<char>>, keys: Seq<Seq<char>>)
    ensures
        forall|c: Seq<char>| columns.contains(c) && !keys.contains(c)
            ==> #[trigger] exclusions(columns, keys).contains(c + " = excluded."@ + c),
        forall|k: int| 0 <= k < exclusions(columns, keys).len() ==> exists|c: Seq<char>|
            columns.contains(c) && !keys.contains(c) && #[trigger] exclusions(columns, keys)[k]
                == c + " = excluded."@ + c,
        exclusions(columns, keys).len() == 0 <==> forall|c: Seq<char>| #[trigger] columns.contains(c) ==> keys.contains(c),
    decreases columns.len(),
{
    let ex = exclusions(columns, keys);
    if columns.len() > 0 {
        let prev = columns.drop_last();
        let last = columns.last();
        law_exclusions(prev, keys);
        let pex = exclusions(prev, keys);
        assert(keys.contains(last) ==> ex == pex);
        assert(!keys.contains(last) ==> ex == pex.push(last + " = excluded."@ + last));
        assert forall|c: Seq<char>| columns.contains(c) && !keys.contains(c)
            implies #[trigger] ex.contains(c + " = excluded."@ + c) by {
            let i = choose|i: int| 0 <= i < columns.len() && columns[i] == c;
            if i < prev.len() {
                assert(prev[i] == c);
                assert(prev.contains(c));
                assert(pex.contains(c + " = excluded."@ + c));
                let k = choose|k: int| 0 <= k < pex.len() && pex[k] == c + " = excluded."@ + c;
                assert(ex[k] == pex[k]);
            } else {
                assert(ex[ex.len() - 1] == last + " = excluded."@ + last);
            }
        }
        assert forall|k: int| 0 <= k < ex.len() implies exists|c: Seq<char>|
            columns.contains(c) && !keys.contains(c) && #[trigger] ex[k] == c + " = excluded."@ + c by {
            if k < pex.len() {
                assert(ex[k] == pex[k]);
                let c = choose|c: Seq<char>| prev.contains(c) && !keys.contains(c) && #[trigger] pex[k]
                    == c + " = excluded."@ + c;
                let i = choose|i: int| 0 <= i < prev.len() && prev[i] == c;
                assert(columns[i] == c);
            } else {
                assert(columns[columns.len() - 1] == last);
            }
        }
        if ex.len() == 0 {
            assert forall|c: Seq<char>| #[trigger] columns.contains(c) implies keys.contains(c) by {
                if !keys.contains(c) {
                    assert(ex.contains(c + " = excluded."@ + c));
                }
            }
        } else {
            let c = choose|c: Seq<char>| columns.contains(c) && !keys.contains(c) && #[trigger] ex[0]
                == c + " = excluded."@ + c;
            assert(columns.contains(c));
        }
    }
}

/// The head shared by every bulk insertion into the table of `T`.
pub open spec fn insert_head<T: DatabaseSchema>(rows: Seq<T>) -> Seq<char> {
    "\n                INSERT INTO "@ + T::table_name() + " ("@ + join(T::column_names(), ", "@)
        + ")\n                    VALUES \n                        "@ + join(
        value_groups(rows),
        ",\n\t\t\t\t"@,
    )
}

/// The statement that inserts `rows`, or nothing when there are no rows.
/// With no column outside the key, rows already present are left as they
/// are; with no key, rows are inserted as they come; else the columns
/// outside the key of a row already present take the new values.
pub open spec fn bulk_query_text<T: DatabaseSchema>(rows: Seq<T>) -> Option<Seq<char>> {
    if rows.len() == 0 {
        None
    } else {
        let exclude = join(exclusions(T::column_names(), T::key_names()), ",\n\t\t\t"@);
        if exclude.len() == 0 {
            Some(
                insert_head(rows) + "\n                ON CONFLICT ("@ + join(T::key_names(), ", "@)
                    + ") \n                    DO NOTHING\n            "@,
            )
        } else if T::key_names().len() == 0 {
            Some(insert_head(rows) + "\n            "@)
        } else {
            Some(
                insert_head(rows) + "\n                ON CONFLICT ("@ + join(T::key_names(), ", "@)
                    + ") DO\n                    UPDATE SET\n                        "@ + exclude
                    + "\n            "@,
            )
        }
    }
}

proof fn lemma_prefix_values_len<T: DatabaseSchema>(rows: Seq<T>, i: int)
    requires
        0 <= i <= rows.len(),
    ensures
        all_row_values(rows.take(i)).len() <= all_row_values(rows).len(),
    decreases rows.len(),
{
    if i == rows.len() {
        assert(rows.take(i) =~= rows);
    } else {
        assert(rows.drop_last().take(i) =~= rows.take(i));
        lemma_prefix_values_len(rows.drop_last(), i);
    }
}

/// The first parameter of row `i` of `rows`.
pub open spec fn first_param<T: DatabaseSchema>(rows: Seq<T>, i: int) -> nat {
    (1 + all_row_values(rows.take(i)).len()) as nat
}

/// The parameter groups of a bulk insertion number the values consecutively:
/// row `i` takes the parameters from `first_param(rows, i)` on, one for each
/// of its values, the first row starts at `$1`, each row starts where the
/// previous one ended, and the last one ends at the number of values that
/// the rows give together.
pub proof fn law_value_groups_number_values<T: DatabaseSchema>(rows: Seq<T>)
    ensures
        value_groups(rows).len() == rows.len(),
        forall|i: int|
            0 <= i < rows.len() ==> #[trigger] value_groups(rows)[i] == row_group(
                first_param(rows, i),
                rows[i].row_values().len(),
            ),
        rows.len() > 0 ==> first_param(rows, 0) == 1,
        forall|i: int|
            0 <= i < rows.len() ==> #[trigger] first_param(rows, i + 1) == first_param(rows, i)
                + rows[i].row_values().len(),
        first_param(rows, rows.len() as int) == 1 + all_row_values(rows).len(),
    decreases rows.len(),
{
    assert(rows.take(rows.len() as int) =~= rows);
    assert(rows.take(0) =~= Seq::<T>::empty());
    if rows.len() > 0 {
        let prev = rows.drop_last();
        law_value_groups_number_values(prev);
        assert forall|i: int| 0 <= i < rows.len() implies #[trigger] value_groups(rows)[i] == row_group(
            first_param(rows, i),
            rows[i].row_values().len(),
        ) by {
            assert(rows.take(i) =~= prev.take(i));
            if i < prev.len() {
                assert(prev[i] == rows[i]);
            }
        }
        assert forall|i: int| 0 <= i < rows.len() implies #[trigger] first_param(rows, i + 1)
            == first_param(rows, i) + rows[i].row_values().len() by {
            assert(rows.take(i + 1).drop_last() =~= rows.take(i));
            assert(rows.take(i + 1).last() == rows[i]);
        }
    }
}

/// Whether `list` holds `s`.
pub fn contains_string(list: &Vec<String>, s: &String) -> (r: bool)
    ensures
        r == views(list@).contains(s@),
{
    let n = list.len();
    let mut i: usize = 0;
    while i < n
        invariant
            n == list@.len(),
            i <= n,
            forall|j: int| 0 <= j < i ==> list@[j]@ != s@,
        decreases n - i,
    {
        if list[i] == *s {
            assert(views(list@)[i as int] == s@);
            return true;
        }
        i = i + 1;
    }
    assert forall|j: int| 0 <= j < views(list@).len() implies views(list@)[j] != s@ by {
        assert(views(list@)[j] == list@[j]@);
    }
    false
}

/// The parameter groups of `rows`, joined as the `VALUES` list.
pub fn value_groups_text<T: DatabaseSchema>(rows: &Vec<T>) -> (r: String)
    requires
        all_row_values(rows@).len() < usize::MAX,
    ensures
        r@ == join(value_groups(rows@), ",\n\t\t\t\t"@),
{
    let mut groups: Vec<String> = Vec::new();
    let mut index: usize = 1;
    let n = rows.len();
    let mut i: usize = 0;
    while i < n
        invariant
            n == rows@.len(),
            i <= n,
            all_row_values(rows@).len() < usize::MAX,
            index == 1 + all_row_values(rows@.take(i as int)).len(),
            views(groups@) == value_groups(rows@.take(i as int)),
        decreases n - i,
    {
        proof {
            lemma_prefix_values_len(rows@, i + 1);
            assert(rows@.take(i + 1).drop_last() =~= rows@.take(i as int));
            assert(rows@.take(i + 1).last() == rows@[i as int]);
        }
        let values = rows[i].get_values();
        let t = placeholder_list(index, values.len());
        let mut group = String::from_str("(");
        let inner = join_strings(&t, ", ");
        group.append(inner.as_str());
        group.append(")");
        let ghost before = groups@;
        groups.push(group);
        assert(views(groups@) =~= views(before).push(group@));
        index = index + values.len();
        i = i + 1;
    }
    assert(rows@.take(n as int) =~= rows@);
    join_strings(&groups, ",\n\t\t\t\t")
}

/// The columns outside the key, each set from the refused row.
fn exclusions_text(columns: &Vec<String>, keys: &Vec<String>) -> (r: String)
    ensures
        r@ == join(exclusions(views(columns@), views(keys@)), ",\n\t\t\t"@),
{
    let mut items: Vec<String> = Vec::new();
    let n = columns.len();
    let mut i: usize = 0;
    while i < n
        invariant
            n == columns@.len(),
            i <= n,
            views(items@) == exclusions(views(columns@).take(i as int), views(keys@)),
        decreases n - i,
    {
        let ghost prefix = views(columns@).take(i + 1);
        assert(prefix.drop_last() =~= views(columns@).take(i as int));
        assert(prefix.last() == columns@[i as int]@);
        let column = &columns[i];
        if !contains_string(keys, column) {
            let mut item = column.clone();
            item.append(" = excluded.");
            item.append(column.as_str());
            let ghost before = items@;
            items.push(item);
            assert(views(items@) =~= views(before).push(item@));
        }
        i = i + 1;
    }
    assert(views(columns@).take(n as int) =~= views(columns@));
    join_strings(&items, ",\n\t\t\t")
}

/// The statement that inserts `objects` into the table of `T`, or `None`
/// when there is nothing to insert.
pub fn bulk_get_query<T: DatabaseSchema>(objects: &Vec<T>) -> (r: Option<String>)
    requires
        all_row_values(objects@).len() < usize::MAX,
    ensures
        r is None <==> bulk_query_text(objects@) is None,
        r matches Some(q) ==> bulk_query_text(objects@) == Some(q@),
{
    let values = value_groups_text(objects);
    let columns = T::get_column_names();
    let keys = T::get_keys();
    let exclude = exclusions_text(&columns, &keys);

    if objects.len() == 0 {
        return None;
    }

    let mut q = String::from_str("\n                INSERT INTO ");
    let table = T::get_table_name();
    q.append(table.as_str());
    q.append(" (");
    let columns_text = join_strings(&columns, ", ");
    q.append(columns_text.as_str());
    q.append(")\n                    VALUES \n                        ");
    q.append(values.as_str());
    assert(q@ == insert_head(objects@));

    if exclude.as_str().is_empty() {
        q.append("\n                ON CONFLICT (");
        let keys_text = join_strings(&keys, ", ");
        q.append(keys_text.as_str());
        q.append(") \n                    DO NOTHING\n            ");
    } else if keys.len() == 0 {
        q.append("\n            ");
    } else {
        q.append("\n                ON CONFLICT (");
        let keys_text = join_strings(&keys, ", ");
        q.append(keys_text.as_str());
        q.append(") DO\n                    UPDATE SET\n                        ");
        q.append(exclude.as_str());
        q.append("\n            ");
    }
    Some(q)
}

/// The statement that adds words that are not yet indexed.
pub open spec fn words_insert_text(words: Seq<Word>) -> Seq<char> {
    insert_head(words) + "\n                ON CONFLICT (word) \n                    DO NOTHING\n            "@
}

/// The statement that adds `objects` to the `words` table, leaving words
/// that are already there as they are.
pub fn words_insert_query(objects: &Vec<Word>) -> (r: String)
    requires
        all_row_values(objects@).len() < usize::MAX,
    ensures
        r@ == words_insert_text(objects@),
{
    let values = value_groups_text(objects);
    let mut q = String::from_str("\n                INSERT INTO ");
    let table = Word::get_table_name();
    q.append(table.as_str());
    q.append(" (");
    let columns = Word::get_column_names();
    let columns_text = join_strings(&columns, ", ");
    q.append(columns_text.as_str());
    q.append(")\n                    VALUES \n                        ");
    q.append(values.as_str());
    q.append("\n                ON CONFLICT (word) \n                    DO NOTHING\n            ");
    q
}

/// The author of a post.
pub open spec fn post_creator() -> spec_fn(PostData) -> Author {
    |p: PostData| p.creator
}

/// The community of a post.
pub open spec fn post_community() -> spec_fn(PostData) -> LemmyCommunity {
    |p: PostData| p.community
}

/// The fields of an id: remote id, post actor id, instance actor id.
pub open spec fn lemmy_id_view() -> spec_fn(LemmyId) -> (i64, Seq<char>, Seq<char>) {
    |l: LemmyId| (l.post_remote_id, l.post_actor_id@, l.instance_actor_id@)
}

/// The id of a post on the instance `instance`.
pub open spec fn post_lemmy_id(instance: Seq<char>) -> spec_fn(PostData) -> (i64, Seq<char>, Seq<char>) {
    |p: PostData| (p.post.id, p.post.ap_id@, instance)
}

/// Ids are told apart by post and instance.
pub open spec fn lemmy_id_key() -> spec_fn((i64, Seq<char>, Seq<char>)) -> Seq<Seq<char>> {
    |t: (i64, Seq<char>, Seq<char>)| seq![t.1, t.2]
}

/// The ids of `posts` on `instance`, one for each post actor id.
pub open spec fn lemmy_ids_of(instance: Seq<char>, posts: Seq<PostData>) -> Seq<(i64, Seq<char>, Seq<char>)> {
    dedup_by(posts.map_values(post_lemmy_id(instance)), lemmy_id_key())
}

/// The text of a word.
pub open spec fn word_text() -> spec_fn(Word) -> Seq<char> {
    |w: Word| w.word@
}

/// Words are told apart by their text.
pub open spec fn text_key() -> spec_fn(Seq<char>) -> Seq<Seq<char>> {
    |s: Seq<char>| seq![s]
}

/// The words of every post, post after post.
pub open spec fn all_words(lists: Seq<Seq<Seq<char>>>) -> Seq<Seq<char>>
    decreases lists.len(),
{
    if lists.len() == 0 {
        Seq::empty()
    } else {
        all_words(lists.drop_last()) + lists.last()
    }
}

/// The views of a list of word lists.
pub open spec fn word_lists(lists: Seq<Vec<String>>) -> Seq<Seq<Seq<char>>> {
    lists.map_values(|l: Vec<String>| views(l@))
}

/// The authors of `posts`, one per post.
fn creators_of(posts: &Vec<PostData>) -> (r: Vec<Author>)
    ensures
        r@ == posts@.map_values(post_creator()),
{
    let mut r: Vec<Author> = Vec::new();
    let n = posts.len();
    let mut i: usize = 0;
    while i < n
        invariant
            n == posts@.len(),
            i <= n,
            r@ =~= posts@.take(i as int).map_values(post_creator()),
        decreases n - i,
    {
        r.push(posts[i].creator.duplicate());
        i = i + 1;
        assert(r@ =~= posts@.take(i as int).map_values(post_creator()));
    }
    assert(posts@.take(n as int) =~= posts@);
    r
}

/// The communities of `posts`, one per post.
fn communities_of(posts: &Vec<PostData>) -> (r: Vec<LemmyCommunity>)
    ensures
        r@ == posts@.map_values(post_community()),
{
    let mut r: Vec<LemmyCommunity> = Vec::new();
    let n = posts.len();
    let mut i: usize = 0;
    while i < n
        invariant
            n == posts@.len(),
            i <= n,
            r@ =~= posts@.take(i as int).map_values(post_community()),
        decreases n - i,
    {
        r.push(posts[i].community.duplicate());
        i = i + 1;
        assert(r@ =~= posts@.take(i as int).map_values(post_community()));
    }
    assert(posts@.take(n as int) =~= posts@);
    r
}

/// Copies of `posts`.
fn copies_of(posts: &Vec<PostData>) -> (r: Vec<PostData>)
    ensures
        r@ == posts@,
{
    let mut r: Vec<PostData> = Vec::new();
    let n = posts.len();
    let mut i: usize = 0;
    while i < n
        invariant
            n == posts@.len(),
            i <= n,
            r@ =~= posts@.take(i as int),
        decreases n - i,
    {
        r.push(posts[i].duplicate());
        i = i + 1;
        assert(r@ =~= posts@.take(i as int));
    }
    assert(posts@.take(n as int) =~= posts@);
    r
}

/// Rows collected into a set, first of each identity first.
pub fn collect_distinct<T: RowIdentity>(rows: Vec<T>) -> (r: Vec<T>)
    ensures
        r@ == distinct_rows(rows@),
        keys_distinct(r@, row_key::<T>()),
{
    let mut set: Vec<T> = Vec::new();
    extend_distinct(&mut set, rows);
    proof { law_insert_all_by(Seq::<T>::empty(), row_key::<T>(), rows@); }
    set
}

/// The ids under which `instance_actor_id` knows `posts`, one for each post
/// actor id: the first post with that actor id gives the remote id.
pub fn lemmy_ids_for_posts(instance_actor_id: &str, posts: &Vec<PostData>) -> (r: Vec<LemmyId>)
    ensures
        r@.map_values(lemmy_id_view()) == lemmy_ids_of(instance_actor_id@, posts@),
        keys_distinct(r@, row_key::<LemmyId>()),
{
    let mut r: Vec<LemmyId> = Vec::new();
    let ghost mut made: Seq<LemmyId> = Seq::empty();
    let ghost f = post_lemmy_id(instance_actor_id@);
    let n = posts.len();
    let mut i: usize = 0;
    while i < n
        invariant
            n == posts@.len(),
            i <= n,
            f == post_lemmy_id(instance_actor_id@),
            r@ == insert_all_by(Seq::empty(), row_key::<LemmyId>(), made),
            made.map_values(lemmy_id_view()) =~= posts@.take(i as int).map_values(f),
        decreases n - i,
    {
        let id = LemmyId {
            post_remote_id: posts[i].post.id,
            post_actor_id: posts[i].post.ap_id.clone(),
            instance_actor_id: String::from_str(instance_actor_id),
        };
        proof {
            let m2 = made.push(id);
            assert(m2.drop_last() =~= made);
            assert(m2.map_values(lemmy_id_view()) =~= made.map_values(lemmy_id_view()).push(
                lemmy_id_view()(id),
            ));
            assert(posts@.take(i + 1).map_values(f) =~= posts@.take(i as int).map_values(f).push(
                f(posts@[i as int]),
            ));
            made = m2;
        }
        insert_distinct(&mut r, id);
        i = i + 1;
    }
    proof {
        assert(posts@.take(n as int) =~= posts@);
        lemma_insert_all_by_map(
            Seq::<LemmyId>::empty(),
            made,
            lemmy_id_view(),
            row_key::<LemmyId>(),
            lemmy_id_key(),
        );
        assert(Seq::<LemmyId>::empty().map_values(lemmy_id_view()) =~= Seq::empty());
        law_insert_all_by(Seq::<LemmyId>::empty(), row_key::<LemmyId>(), made);
    }
    r
}

/// All words of all posts, post after post.
fn concat_word_lists(lists: &Vec<Vec<String>>) -> (r: Vec<String>)
    ensures
        views(r@) == all_words(word_lists(lists@)),
{
    let mut r: Vec<String> = Vec::new();
    let n = lists.len();
    let mut i: usize = 0;
    while i < n
        invariant
            n == lists@.len(),
            i <= n,
            views(r@) =~= all_words(word_lists(lists@.take(i as int))),
        decreases n - i,
    {
        let list = &lists[i];
        let m = list.len();
        let mut j: usize = 0;
        let ghost start = views(r@);
        while j < m
            invariant
                m == list@.len(),
                j <= m,
                views(r@) =~= start + views(list@).take(j as int),
            decreases m - j,
        {
            let ghost before = r@;
            r.push(list[j].clone());
            assert(views(r@) =~= views(before).push(list@[j as int]@));
            j = j + 1;
        }
        proof {
            assert(views(list@).take(m as int) =~= views(list@));
            let ls = word_lists(lists@.take(i + 1));
            assert(ls.drop_last() =~= word_lists(lists@.take(i as int)));
            assert(ls.last() == views(lists@[i as int]@));
        }
        i = i + 1;
    }
    assert(lists@.take(n as int) =~= lists@);
    r
}

/// The words of the posts as index words, one for each distinct text, in
/// the order of first occurrence, each under a fresh random id.
pub fn collect_words(post_words: &Vec<Vec<String>>) -> (r: Vec<Word>)
    ensures
        r@.map_values(word_text()) == dedup_by(all_words(word_lists(post_words@)), text_key()),
        keys_distinct(r@, row_key::<Word>()),
        forall|k: int| 0 <= k < r@.len() ==> uuid_version(#[trigger] r@[k].id) == 4 && uuid_variant_bits(r@[k].id) == 2,
{
    let flat = concat_word_lists(post_words);
    let mut r: Vec<Word> = Vec::new();
    let ghost mut made: Seq<Word> = Seq::empty();
    let n = flat.len();
    let mut i: usize = 0;
    while i < n
        invariant
            n == flat@.len(),
            i <= n,
            r@ == insert_all_by(Seq::empty(), row_key::<Word>(), made),
            made.map_values(word_text()) =~= views(flat@).take(i as int),
            forall|k: int| 0 <= k < r@.len() ==> uuid_version(#[trigger] r@[k].id) == 4 && uuid_variant_bits(r@[k].id) == 2,
        decreases n - i,
    {
        let w = Word::from(flat[i].clone());
        proof {
            let m2 = made.push(w);
            assert(m2.drop_last() =~= made);
            assert(m2.map_values(word_text()) =~= made.map_values(word_text()).push(w.word@));
            assert(views(flat@).take(i + 1) =~= views(flat@).take(i as int).push(flat@[i as int]@));
            made = m2;
        }
        let ghost before = r@;
        insert_distinct(&mut r, w);
        assert forall|k: int| 0 <= k < r@.len() implies uuid_version(#[trigger] r@[k].id) == 4 && uuid_variant_bits(r@[k].id) == 2 by {
            if k < before.len() {
                assert(r@[k] == before[k]);
            } else {
                assert(r@[k] == w);
            }
        }
        i = i + 1;
    }
    proof {
        assert(views(flat@).take(n as int) =~= views(flat@));
        lemma_insert_all_by_map(Seq::<Word>::empty(), made, word_text(), row_key::<Word>(), text_key());
        assert(Seq::<Word>::empty().map_values(word_text()) =~= Seq::empty());
        law_insert_all_by(Seq::<Word>::empty(), row_key::<Word>(), made);
    }
    r
}

/// The rows that the crawler writes for a page of posts: each set holds one
/// row per identity, first occurrence first.
pub struct PostBatch {
    pub authors: Vec<Author>,
    pub communities: Vec<LemmyCommunity>,
    pub lemmy_ids: Vec<LemmyId>,
    pub words: Vec<Word>,
    pub posts: Vec<PostData>,
}

/// The rows to write for `posts`, crawled from the instance
/// `instance_actor_id`; `post_words[i]` are the distinct words of `posts[i]`.
pub fn collect_post_batch(
    instance_actor_id: &str,
    posts: &Vec<PostData>,
    post_words: &Vec<Vec<String>>,
) -> (r: PostBatch)
    ensures
        r.authors@ == distinct_rows(posts@.map_values(post_creator())),
        r.communities@ == distinct_rows(posts@.map_values(post_community())),
        r.lemmy_ids@.map_values(lemmy_id_view()) == lemmy_ids_of(instance_actor_id@, posts@),
        r.words@.map_values(word_text()) == dedup_by(all_words(word_lists(post_words@)), text_key()),
        forall|k: int| 0 <= k < r.words@.len() ==> uuid_version(#[trigger] r.words@[k].id) == 4,
        r.posts@ == distinct_rows(posts@),
{
    let authors = collect_distinct(creators_of(posts));
    let communities = collect_distinct(communities_of(posts));
    let lemmy_ids = lemmy_ids_for_posts(instance_actor_id, posts);
    let words = collect_words(post_words);
    let distinct_posts = collect_distinct(copies_of(posts));
    PostBatch { authors, communities, lemmy_ids, words, posts: distinct_posts }
}


/// The communities written for a page of posts: each community actor id
/// among the posts is written exactly once, and only communities of the
/// posts are written. Communities with the same name on different instances
/// are different communities.
pub proof fn law_batch_communities(posts: Seq<PostData>)
    ensures
        forall|i: int| 0 <= i < posts.len() ==> exists|k: int|
            0 <= k < distinct_rows(posts.map_values(post_community())).len()
                && (#[trigger] distinct_rows(posts.map_values(post_community()))[k]).actor_id@
                == (#[trigger] posts[i]).community.actor_id@,
        forall|k: int, m: int|
            0 <= k < distinct_rows(posts.map_values(post_community())).len()
                && 0 <= m < distinct_rows(posts.map_values(post_community())).len() && k != m
                ==> (#[trigger] distinct_rows(posts.map_values(post_community()))[k]).actor_id@
                != (#[trigger] distinct_rows(posts.map_values(post_community()))[m]).actor_id@,
        forall|k: int| 0 <= k < distinct_rows(posts.map_values(post_community())).len() ==> exists|i: int|
            0 <= i < posts.len() && (#[trigger] distinct_rows(posts.map_values(post_community()))[k])
                == (#[trigger] posts[i]).community,
{
    let cs = posts.map_values(post_community());
    let f = |c: LemmyCommunity| c.actor_id@;
    assert forall|a: LemmyCommunity, b: LemmyCommunity| (a.identity() == b.identity()) == (#[trigger] f(a) == #[trigger] f(b)) by {
        law_community_identity(a, b);
    }
    lemma_distinct_rows_by(cs, f);
    let d = distinct_rows(cs);
    assert forall|i: int| 0 <= i < posts.len() implies exists|k: int|
        0 <= k < d.len() && (#[trigger] d[k]).actor_id@ == (#[trigger] posts[i]).community.actor_id@ by {
        assert(cs[i] == posts[i].community);
        let k = choose|k: int| 0 <= k < d.len() && #[trigger] f(d[k]) == f(cs[i]);
        assert(d[k].actor_id@ == posts[i].community.actor_id@);
    }
    assert forall|k: int, m: int| 0 <= k < d.len() && 0 <= m < d.len() && k != m
        implies (#[trigger] d[k]).actor_id@ != (#[trigger] d[m]).actor_id@ by {
        assert(f(d[k]) != f(d[m]));
    }
    assert forall|k: int| 0 <= k < d.len() implies exists|i: int|
        0 <= i < posts.len() && (#[trigger] d[k]) == (#[trigger] posts[i]).community by {
        assert(cs.contains(d[k]));
        let i = choose|i: int| 0 <= i < cs.len() && cs[i] == d[k];
        assert(cs[i] == posts[i].community);
    }
}

/// The authors written for a page of posts: each author actor id among the
/// posts is written exactly once, and only authors of the posts are written.
pub proof fn law_batch_authors(posts: Seq<PostData>)
    ensures
        forall|i: int| 0 <= i < posts.len() ==> exists|k: int|
            0 <= k < distinct_rows(posts.map_values(post_creator())).len()
                && (#[trigger] distinct_rows(posts.map_values(post_creator()))[k]).actor_id@
                == (#[trigger] posts[i]).creator.actor_id@,
        forall|k: int, m: int|
            0 <= k < distinct_rows(posts.map_values(post_creator())).len()
                && 0 <= m < distinct_rows(posts.map_values(post_creator())).len() && k != m
                ==> (#[trigger] distinct_rows(posts.map_values(post_creator()))[k]).actor_id@
                != (#[trigger] distinct_rows(posts.map_values(post_creator()))[m]).actor_id@,
        forall|k: int| 0 <= k < distinct_rows(posts.map_values(post_creator())).len() ==> exists|i: int|
            0 <= i < posts.len() && (#[trigger] distinct_rows(posts.map_values(post_creator()))[k])
                == (#[trigger] posts[i]).creator,
{
    let cs = posts.map_values(post_creator());
    let f = |c: Author| c.actor_id@;
    assert forall|a: Author, b: Author| (a.identity() == b.identity()) == (#[trigger] f(a) == #[trigger] f(b)) by {
        law_author_identity(a, b);
    }
    lemma_distinct_rows_by(cs, f);
    let d = distinct_rows(cs);
    assert forall|i: int| 0 <= i < posts.len() implies exists|k: int|
        0 <= k < d.len() && (#[trigger] d[k]).actor_id@ == (#[trigger] posts[i]).creator.actor_id@ by {
        assert(cs[i] == posts[i].creator);
        let k = choose|k: int| 0 <= k < d.len() && #[trigger] f(d[k]) == f(cs[i]);
        assert(d[k].actor_id@ == posts[i].creator.actor_id@);
    }
    assert forall|k: int, m: int| 0 <= k < d.len() && 0 <= m < d.len() && k != m
        implies (#[trigger] d[k]).actor_id@ != (#[trigger] d[m]).actor_id@ by {
        assert(f(d[k]) != f(d[m]));
    }
    assert forall|k: int| 0 <= k < d.len() implies exists|i: int|
        0 <= i < posts.len() && (#[trigger] d[k]) == (#[trigger] posts[i]).creator by {
        assert(cs.contains(d[k]));
        let i = choose|i: int| 0 <= i < cs.len() && cs[i] == d[k];
        assert(cs[i] == posts[i].creator);
    }
}

/// The posts written for a page: each activity-pub id among the posts is
/// written exactly once, and only posts of the page are written.
pub proof fn law_batch_posts(posts: Seq<PostData>)
    ensures
        forall|i: int| 0 <= i < posts.len() ==> exists|k: int|
            0 <= k < distinct_rows(posts).len()
                && (#[trigger] distinct_rows(posts)[k]).post.ap_id@ == (#[trigger] posts[i]).post.ap_id@,
        forall|k: int, m: int|
            0 <= k < distinct_rows(posts).len() && 0 <= m < distinct_rows(posts).len() && k != m
                ==> (#[trigger] distinct_rows(posts)[k]).post.ap_id@
                != (#[trigger] distinct_rows(posts)[m]).post.ap_id@,
        forall|k: int| 0 <= k < distinct_rows(posts).len() ==> posts.contains(#[trigger] distinct_rows(posts)[k]),
{
    let f = |p: PostData| p.post.ap_id@;
    assert forall|a: PostData, b: PostData| (a.identity() == b.identity()) == (#[trigger] f(a) == #[trigger] f(b)) by {
        law_post_identity(a, b);
    }
    lemma_distinct_rows_by(posts, f);
    let d = distinct_rows(posts);
    assert forall|i: int| 0 <= i < posts.len() implies exists|k: int|
        0 <= k < d.len() && (#[trigger] d[k]).post.ap_id@ == (#[trigger] posts[i]).post.ap_id@ by {
        let k = choose|k: int| 0 <= k < d.len() && #[trigger] f(d[k]) == f(posts[i]);
        assert(d[k].post.ap_id@ == posts[i].post.ap_id@);
    }
    assert forall|k: int, m: int| 0 <= k < d.len() && 0 <= m < d.len() && k != m
        implies (#[trigger] d[k]).post.ap_id@ != (#[trigger] d[m]).post.ap_id@ by {
        assert(f(d[k]) != f(d[m]));
    }
}

/// The ids written for a page of posts crawled from `instance`: each post
/// actor id among the posts gets exactly one id, all under `instance`, and
/// each id is that of one of the posts.
pub proof fn law_batch_lemmy_ids(instance: Seq<char>, posts: Seq<PostData>)
    ensures
        forall|i: int| 0 <= i < posts.len() ==> exists|k: int|
            0 <= k < lemmy_ids_of(instance, posts).len()
                && (#[trigger] lemmy_ids_of(instance, posts)[k]).1 == (#[trigger] posts[i]).post.ap_id@,
        forall|k: int| 0 <= k < lemmy_ids_of(instance, posts).len()
            ==> (#[trigger] lemmy_ids_of(instance, posts)[k]).2 == instance,
        forall|k: int, m: int|
            0 <= k < lemmy_ids_of(instance, posts).len() && 0 <= m < lemmy_ids_of(instance, posts).len() && k != m
                ==> (#[trigger] lemmy_ids_of(instance, posts)[k]).1 != (#[trigger] lemmy_ids_of(instance, posts)[m]).1,
        forall|k: int| 0 <= k < lemmy_ids_of(instance, posts).len() ==> exists|i: int|
            0 <= i < posts.len() && #[trigger] lemmy_ids_of(instance, posts)[k]
                == (#[trigger] posts[i].post.id, posts[i].post.ap_id@, instance),
{
    let items = posts.map_values(post_lemmy_id(instance));
    let key = lemmy_id_key();
    let f = |t: (i64, Seq<char>, Seq<char>)| (t.1, t.2);
    assert forall|a: (i64, Seq<char>, Seq<char>), b: (i64, Seq<char>, Seq<char>)|
        (key(a) == key(b)) == (#[trigger] f(a) == #[trigger] f(b)) by {
        if key(a) == key(b) {
            assert(key(a)[0] == key(b)[0] && key(a)[1] == key(b)[1]);
        }
        if f(a) == f(b) {
            assert(key(a) =~= key(b));
        }
    }
    lemma_dedup_by_field(items, key, f);
    let d = lemmy_ids_of(instance, posts);
    assert forall|k: int| 0 <= k < d.len() implies exists|i: int|
        0 <= i < posts.len() && #[trigger] d[k] == (#[trigger] posts[i].post.id, posts[i].post.ap_id@, instance) by {
        assert(items.contains(d[k]));
        let i = choose|i: int| 0 <= i < items.len() && items[i] == d[k];
        assert(items[i] == (posts[i].post.id, posts[i].post.ap_id@, instance));
    }
    assert forall|k: int| 0 <= k < d.len() implies (#[trigger] d[k]).2 == instance by {
        assert(items.contains(d[k]));
        let i = choose|i: int| 0 <= i < items.len() && items[i] == d[k];
        assert(items[i] == (posts[i].post.id, posts[i].post.ap_id@, instance));
    }
    assert forall|i: int| 0 <= i < posts.len() implies exists|k: int|
        0 <= k < d.len() && (#[trigger] d[k]).1 == (#[trigger] posts[i]).post.ap_id@ by {
        assert(items[i] == (posts[i].post.id, posts[i].post.ap_id@, instance));
        let k = choose|k: int| 0 <= k < d.len() && #[trigger] f(d[k]) == f(items[i]);
        assert(d[k].1 == posts[i].post.ap_id@);
    }
    assert forall|k: int, m: int| 0 <= k < d.len() && 0 <= m < d.len() && k != m
        implies (#[trigger] d[k]).1 != (#[trigger] d[m]).1 by {
        assert(f(d[k]) != f(d[m]));
        assert(items.contains(d[k]) && items.contains(d[m]));
        let i = choose|i: int| 0 <= i < items.len() && items[i] == d[k];
        let j = choose|j: int| 0 <= j < items.len() && items[j] == d[m];
        assert(items[i].2 == instance && items[j].2 == instance);
    }
}

/// A word occurs among the words of every post exactly when it occurs in
/// the words of some post.
proof fn lemma_all_words_contains(lists: Seq<Seq<Seq<char>>>, w: Seq<char>)
    ensures
        all_words(lists).contains(w) <==> exists|i: int| 0 <= i < lists.len() && (#[trigger] lists[i]).contains(w),
    decreases lists.len(),
{
    if lists.len() > 0 {
        let prev = lists.drop_last();
        lemma_all_words_contains(prev, w);
        let a = all_words(prev);
        let b = lists.last();
        if all_words(lists).contains(w) {
            let k = choose|k: int| 0 <= k < (a + b).len() && (a + b)[k] == w;
            if k < a.len() {
                assert(a[k] == w);
                let i = choose|i: int| 0 <= i < prev.len() && (#[trigger] prev[i]).contains(w);
                assert(lists[i] == prev[i]);
            } else {
                assert(b[k - a.len()] == w);
                assert(lists[lists.len() - 1].contains(w));
            }
        }
        if exists|i: int| 0 <= i < lists.len() && (#[trigger] lists[i]).contains(w) {
            let i = choose|i: int| 0 <= i < lists.len() && (#[trigger] lists[i]).contains(w);
            if i < lists.len() - 1 {
                assert(prev[i] == lists[i]);
                let k = choose|k: int| 0 <= k < a.len() && a[k] == w;
                assert((a + b)[k] == w);
            } else {
                let k = choose|k: int| 0 <= k < b.len() && b[k] == w;
                assert((a + b)[a.len() + k] == w);
            }
        }
    }
}

/// The words written for a page of posts: a word is written exactly when it
/// is a word of some post, and no word is written twice.
pub proof fn law_batch_words(lists: Seq<Seq<Seq<char>>>)
    ensures
        forall|w: Seq<char>| #[trigger] dedup_by(all_words(lists), text_key()).contains(w)
            <==> exists|i: int| 0 <= i < lists.len() && (#[trigger] lists[i]).contains(w),
        forall|k: int, m: int|
            0 <= k < dedup_by(all_words(lists), text_key()).len()
                && 0 <= m < dedup_by(all_words(lists), text_key()).len() && k != m
                ==> #[trigger] dedup_by(all_words(lists), text_key())[k]
                != #[trigger] dedup_by(all_words(lists), text_key())[m],
{
    let items = all_words(lists);
    let key = text_key();
    let f = |s: Seq<char>| s;
    assert forall|a: Seq<char>, b: Seq<char>| (key(a) == key(b)) == (#[trigger] f(a) == #[trigger] f(b)) by {
        if key(a) == key(b) {
            assert(key(a)[0] == key(b)[0]);
        }
    }
    lemma_dedup_by_field(items, key, f);
    let d = dedup_by(items, key);
    assert forall|w: Seq<char>| #[trigger] d.contains(w)
        <==> exists|i: int| 0 <= i < lists.len() && (#[trigger] lists[i]).contains(w) by {
        lemma_all_words_contains(lists, w);
        if d.contains(w) {
            let k = choose|k: int| 0 <= k < d.len() && d[k] == w;
            assert(items.contains(d[k]));
        }
        if items.contains(w) {
            let i = choose|i: int| 0 <= i < items.len() && items[i] == w;
            let k = choose|k: int| 0 <= k < d.len() && #[trigger] f(d[k]) == f(items[i]);
            assert(d[k] == w);
        }
    }
    assert forall|k: int, m: int| 0 <= k < d.len() && 0 <= m < d.len() && k != m
        implies #[trigger] d[k] != #[trigger] d[m] by {
        assert(f(d[k]) != f(d[m]));
    }
}

} // verus!
