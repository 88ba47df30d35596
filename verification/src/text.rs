//! String building blocks used to assemble SQL text: decimal rendering,
//! joining with a separator, and positional `$n` parameters.

use vstd::prelude::*;

verus! {

/// The character of a decimal digit.
pub open spec fn digit_char(d: nat) -> char {
    if d == 0 { '0' }
    else if d == 1 { '1' }
    else if d == 2 { '2' }
    else if d == 3 { '3' }
    else if d == 4 { '4' }
    else if d == 5 { '5' }
    else if d == 6 { '6' }
    else if d == 7 { '7' }
    else if d == 8 { '8' }
    else { '9' }
}

/// The decimal text of a natural number, without sign or leading zeros.
pub open spec fn decimal(n: nat) -> Seq<char>
    decreases n,
{
    if n < 10 {
        seq![digit_char(n)]
    } else {
        decimal(n / 10) + seq![digit_char(n % 10)]
    }
}

/// The views of a sequence of strings.
pub open spec fn views(v: Seq<String>) -> Seq<Seq<char>> {
    v.map_values(|s: String| s@)
}

/// The items of `list` with `sep` between each two neighbours.
pub open spec fn join(list: Seq<Seq<char>>, sep: Seq<char>) -> Seq<char>
    decreases list.len(),
{
    if list.len() == 0 {
        Seq::empty()
    } else if list.len() == 1 {
        list[0]
    } else {
        join(list.drop_last(), sep) + sep + list.last()
    }
}

/// A positional SQL parameter: `$` followed by the decimal index.
pub open spec fn placeholder(n: nat) -> Seq<char> {
    seq!['$'] + decimal(n)
}

fn digit_str(d: usize) -> (r: &'static str)
    requires
        d < 10,
    ensures
        r@ == seq![digit_char(d as nat)],
{
    if d == 0 {
        proof { reveal_strlit("0"); }
        "0"
    } else if d == 1 {
        proof { reveal_strlit("1"); }
        "1"
    } else if d == 2 {
        proof { reveal_strlit("2"); }
        "2"
    } else if d == 3 {
        proof { reveal_strlit("3"); }
        "3"
    } else if d == 4 {
        proof { reveal_strlit("4"); }
        "4"
    } else if d == 5 {
        proof { reveal_strlit("5"); }
        "5"
    } else if d == 6 {
        proof { reveal_strlit("6"); }
        "6"
    } else if d == 7 {
        proof { reveal_strlit("7"); }
        "7"
    } else if d == 8 {
        proof { reveal_strlit("8"); }
        "8"
    } else {
        proof { reveal_strlit("9"); }
        "9"
    }
}

/// Renders `n` in decimal.
pub fn usize_to_decimal(n: usize) -> (r: String)
    ensures
        r@ == decimal(n as nat),
    decreases n,
{
    if n < 10 {
        String::from_str(digit_str(n))
    } else {
        let mut s = usize_to_decimal(n / 10);
        s.append(digit_str(n % 10));
        s
    }
}

/// Renders the positional parameter `$n`.
pub fn placeholder_text(n: usize) -> (r: String)
    ensures
        r@ == placeholder(n as nat),
{
    proof { reveal_strlit("$"); }
    let mut s = String::from_str("$");
    let d = usize_to_decimal(n);
    s.append(d.as_str());
    assert(s@ =~= placeholder(n as nat));
    s
}

/// Joins `list` with `sep` between neighbouring items.
pub fn join_strings(list: &Vec<String>, sep: &str) -> (r: String)
    ensures
        r@ == join(views(list@), sep@),
{
    let mut res = String::new();
    let n = list.len();
    let mut i: usize = 0;
    while i < n
        invariant
            n == list@.len(),
            i <= n,
            res@ == join(views(list@).take(i as int), sep@),
        decreases n - i,
    {
        let ghost before = views(list@).take(i as int);
        let ghost after = views(list@).take(i + 1);
        assert(after.drop_last() =~= before);
        assert(after.last() == list@[i as int]@);
        if i != 0 {
            res.append(sep);
        } else {
            assert(before.len() == 0);
            assert(res@ =~= Seq::<char>::empty());
        }
        res.append(list[i].as_str());
        if i == 0 {
            assert(res@ =~= after[0]);
        }
        i = i + 1;
    }
    assert(views(list@).take(n as int) =~= views(list@));
    res
}

/// The positional parameters `$start`, `$start + 1`, ... , `count` of them.
pub open spec fn placeholders(start: nat, count: nat) -> Seq<Seq<char>> {
    Seq::new(count, |i: int| placeholder((start + i) as nat))
}

/// The index of the first item of `list` equal to `target`.
pub open spec fn first_position(list: Seq<Seq<char>>, target: Seq<char>) -> Option<nat>
    decreases list.len(),
{
    if list.len() == 0 {
        None
    } else if list[0] == target {
        Some(0)
    } else {
        match first_position(list.drop_first(), target) {
            Some(i) => Some(i + 1),
            None => None,
        }
    }
}

/// The positional parameters `$start` up to `$(start + count - 1)`.
pub fn placeholder_list(start: usize, count: usize) -> (r: Vec<String>)
    requires
        start + count <= usize::MAX,
    ensures
        views(r@) == placeholders(start as nat, count as nat),
{
    let mut r: Vec<String> = Vec::new();
    let mut k: usize = 0;
    while k < count
        invariant
            k <= count,
            start + count <= usize::MAX,
            r@.len() == k,
            views(r@) =~= placeholders(start as nat, k as nat),
        decreases count - k,
    {
        let p = placeholder_text(start + k);
        let ghost before = r@;
        r.push(p);
        assert(r@ == before.push(p));
        assert forall|j: int| 0 <= j < k + 1 implies #[trigger] views(r@)[j] == placeholders(
            start as nat,
            (k + 1) as nat,
        )[j] by {
            if j < k {
                assert(r@[j] == before[j]);
                assert(views(before)[j] == placeholders(start as nat, k as nat)[j]);
            }
        }
        k = k + 1;
        assert(views(r@) =~= placeholders(start as nat, k as nat));
    }
    r
}

/// Where `target` first occurs in `list`, if it does.
pub fn position_of(list: &Vec<String>, target: &String) -> (r: Option<usize>)
    ensures
        r matches Some(i) ==> first_position(views(list@), target@) == Some(i as nat),
        r matches Some(i) ==> i < list@.len() && list@[i as int]@ == target@ && forall|j: int|
            0 <= j < i ==> list@[j]@ != target@,
        r is None ==> first_position(views(list@), target@) is None,
        r is None ==> forall|j: int| 0 <= j < list@.len() ==> list@[j]@ != target@,
{
    let n = list.len();
    let mut i: usize = 0;
    while i < n
        invariant
            n == list@.len(),
            i <= n,
            forall|j: int| 0 <= j < i ==> list@[j]@ != target@,
        decreases n - i,
    {
        if list[i] == *target {
            proof { lemma_first_position_at(views(list@), target@, i as int); }
            return Some(i);
        }
        i = i + 1;
    }
    proof { lemma_first_position_none(views(list@), target@); }
    None
}

proof fn lemma_first_position_at(list: Seq<Seq<char>>, target: Seq<char>, i: int)
    requires
        0 <= i < list.len(),
        list[i] == target,
        forall|j: int| 0 <= j < i ==> list[j] != target,
    ensures
        first_position(list, target) == Some(i as nat),
    decreases i,
{
    if i > 0 {
        lemma_first_position_at(list.drop_first(), target, i - 1);
    }
}

proof fn lemma_first_position_none(list: Seq<Seq<char>>, target: Seq<char>)
    requires
        forall|j: int| 0 <= j < list.len() ==> list[j] != target,
    ensures
        first_position(list, target) is None,
    decreases list.len(),
{
    if list.len() > 0 {
        lemma_first_position_none(list.drop_first(), target);
    }
}

/// Whether `s` begins with `prefix`.
pub open spec fn has_prefix(s: Seq<char>, prefix: Seq<char>) -> bool {
    prefix.len() <= s.len() && s.subrange(0, prefix.len() as int) == prefix
}

/// Whether `s` begins with `prefix`.
pub fn starts_with_text(s: &String, prefix: &str) -> (r: bool)
    ensures
        r == has_prefix(s@, prefix@),
{
    let n = prefix.unicode_len();
    let m = s.as_str().unicode_len();
    if n > m {
        return false;
    }
    let mut i: usize = 0;
    while i < n
        invariant
            n == prefix@.len(),
            m == s@.len(),
            n <= m,
            i <= n,
            forall|j: int| 0 <= j < i ==> s@[j] == prefix@[j],
        decreases n - i,
    {
        if s.as_str().get_char(i) != prefix.get_char(i) {
            assert(s@.subrange(0, n as int)[i as int] != prefix@[i as int]);
            return false;
        }
        i = i + 1;
    }
    assert(s@.subrange(0, n as int) =~= prefix@);
    true
}


/// Whether `part` occurs in `s` at some position.
pub open spec fn contains_text(s: Seq<char>, part: Seq<char>) -> bool {
    exists|k: int| 0 <= k && k + part.len() <= s.len() && #[trigger] s.subrange(k, k + part.len()) == part
}

/// A text occurs in itself.
pub proof fn lemma_contains_itself(s: Seq<char>)
    ensures
        contains_text(s, s),
{
    let k: int = 0;
    assert(s.subrange(k, k + s.len()) =~= s);
}

/// What occurs in a text occurs in the text with anything put before and
/// after it.
pub proof fn lemma_contains_within(before: Seq<char>, s: Seq<char>, after: Seq<char>, part: Seq<char>)
    requires
        contains_text(s, part),
    ensures
        contains_text(before + s + after, part),
{
    let k = choose|k: int| 0 <= k && k + part.len() <= s.len() && #[trigger] s.subrange(k, k + part.len()) == part;
    let t = before + s + after;
    let m = before.len() + k;
    assert(t.subrange(m, m + part.len()) =~= s.subrange(k, k + part.len()));
}

/// Each item of a joined list occurs in the joined text.
pub proof fn lemma_join_contains(list: Seq<Seq<char>>, sep: Seq<char>, j: int)
    requires
        0 <= j < list.len(),
    ensures
        contains_text(join(list, sep), list[j]),
    decreases list.len(),
{
    if list.len() == 1 {
        lemma_contains_itself(list[0]);
    } else {
        let prev = list.drop_last();
        if j == list.len() - 1 {
            lemma_contains_itself(list.last());
            lemma_contains_within(join(prev, sep) + sep, list.last(), Seq::empty(), list.last());
            assert(join(prev, sep) + sep + list.last() + Seq::empty() =~= join(list, sep));
        } else {
            lemma_join_contains(prev, sep, j);
            assert(prev[j] == list[j]);
            lemma_contains_within(Seq::empty(), join(prev, sep), sep + list.last(), list[j]);
            assert(Seq::empty() + join(prev, sep) + (sep + list.last()) =~= join(list, sep));
        }
    }
}

} // verus!
