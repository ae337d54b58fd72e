//! Small verified text utilities shared by the lexer, the parser and the
//! renderers: word search, joining, decimal formatting and trimming.

use vstd::prelude::*;

verus! {

/// The element-wise mathematical values of a sequence of viewable values.
pub open spec fn views_of<T: DeepView>(s: Seq<T>) -> Seq<T::V> {
    Seq::new(s.len(), |i: int| s[i].deep_view())
}

/// A vector's deep view is the element-wise view of its contents.
pub proof fn lemma_vec_views<T: DeepView>(v: &Vec<T>)
    ensures
        v.deep_view() == views_of(v@),
{
    assert(v.deep_view() =~= views_of(v@));
}

/// Pushing distributes over element-wise views.
pub proof fn lemma_views_push<T: DeepView>(s: Seq<T>, x: T)
    ensures
        views_of(s.push(x)) == views_of(s).push(x.deep_view()),
{
    assert(views_of(s.push(x)) =~= views_of(s).push(x.deep_view()));
}

/// Relies on core's `PartialEq` for `str`: equality of two string slices is
/// equality of their character sequences.
#[verifier::external_body]
pub fn str_eq(a: &str, b: &str) -> (r: bool)
    ensures
        r == (a@ == b@),
{
    a == b
}

/// Whether the character sequence `w` occurs in the table `t`.
pub open spec fn table_contains(t: Seq<Seq<char>>, w: Seq<char>) -> bool {
    t.contains(w)
}

/// Linear search of a word table.
pub fn word_in_table(w: &str, table: &Vec<&str>) -> (r: bool)
    ensures
        r == table_contains(table.deep_view(), w@),
{
    let mut i: usize = 0;
    while i < table.len()
        invariant
            i <= table.len(),
            forall|j: int| 0 <= j < i ==> table.deep_view()[j] != w@,
        decreases table.len() - i,
    {
        assert(table.deep_view()[i as int] == table[i as int]@);
        if str_eq(table[i], w) {
            assert(table.deep_view().contains(w@));
            return true;
        }
        i += 1;
    }
    assert(forall|j: int| 0 <= j < table.deep_view().len() ==> table.deep_view()[j] != w@);
    false
}

/// Whether the character `c` occurs in `s`.
pub open spec fn seq_has_char(s: Seq<char>, c: char) -> bool {
    s.contains(c)
}

/// Whether a string slice holds the character `c`.
pub fn str_has_char(s: &str, c: char) -> (r: bool)
    ensures
        r == seq_has_char(s@, c),
{
    let n: usize = s.unicode_len();
    let mut i: usize = 0;
    while i < n
        invariant
            i <= n,
            n == s@.len(),
            forall|j: int| 0 <= j < i ==> s@[j] != c,
        decreases n - i,
    {
        if s.get_char(i) == c {
            assert(s@.contains(c));
            return true;
        }
        i += 1;
    }
    false
}

/// The prefix of `s` before the first occurrence of `c`; all of `s` when `c`
/// does not occur.
pub open spec fn before_char(s: Seq<char>, c: char) -> Seq<char>
    decreases s.len(),
{
    if s.len() == 0 {
        s
    } else if s[0] == c {
        Seq::empty()
    } else {
        seq![s[0]] + before_char(s.subrange(1, s.len() as int), c)
    }
}

/// Copies the prefix of `s` that stands before the first `c`.
pub fn take_before_char(s: &str, c: char) -> (r: String)
    ensures
        r@ == before_char(s@, c),
{
    let n: usize = s.unicode_len();
    let mut i: usize = 0;
    while i < n && s.get_char(i) != c
        invariant
            i <= n,
            n == s@.len(),
            forall|j: int| 0 <= j < i ==> s@[j] != c,
        decreases n - i,
    {
        i += 1;
    }
    proof {
        lemma_before_char_drop(s@, c, i as int);
    }
    let sub = s.substring_char(0, i);
    assert(sub@ =~= s@.subrange(0, i as int));
    sub.to_owned()
}

/// When the first `i` characters of `s` avoid `c`, and either `i` is the
/// whole of `s` or `s[i] == c`, the prefix before `c` is exactly those `i`
/// characters.
proof fn lemma_before_char_drop(s: Seq<char>, c: char, i: int)
    requires
        0 <= i <= s.len(),
        forall|j: int| 0 <= j < i ==> s[j] != c,
        i == s.len() || s[i] == c,
    ensures
        before_char(s, c) == s.subrange(0, i),
    decreases i,
{
    if s.len() == 0 {
        assert(before_char(s, c) =~= s.subrange(0, 0));
    } else if i == 0 {
        if s[0] == c {
            assert(before_char(s, c) =~= s.subrange(0, 0));
        } else {
            assert(i == s.len() || s[i] == c);
        }
    } else {
        let rest = s.subrange(1, s.len() as int);
        lemma_before_char_drop(rest, c, i - 1);
        assert(seq![s[0]] + rest.subrange(0, i - 1) =~= s.subrange(0, i));
    }
}

/// The words `ws[0], .., ws[n-1]` joined with the separator `sep`.
pub open spec fn join_upto(ws: Seq<Seq<char>>, n: int, sep: Seq<char>) -> Seq<char>
    decreases n,
{
    if n <= 0 {
        Seq::empty()
    } else if n == 1 {
        ws[0]
    } else {
        join_upto(ws, n - 1, sep) + sep + ws[n - 1]
    }
}

/// Joins the first `upto` entries of `words` with the separator `sep`.
pub fn join_words(words: &Vec<String>, upto: usize, sep: &str) -> (r: String)
    requires
        upto <= words@.len(),
    ensures
        r@ == join_upto(words.deep_view(), upto as int, sep@),
{
    let mut out = String::new();
    let mut i: usize = 0;
    while i < upto
        invariant
            i <= upto,
            upto <= words@.len(),
            out@ == join_upto(words.deep_view(), i as int, sep@),
        decreases upto - i,
    {
        if i > 0 {
            out.append(sep);
        }
        assert(words.deep_view()[i as int] == words@[i as int]@);
        out.append(words[i].as_str());
        i += 1;
    }
    out
}

/// Joining reads only the first `n` entries, so equal prefixes join equally.
pub proof fn lemma_join_prefix(s1: Seq<Seq<char>>, s2: Seq<Seq<char>>, n: int, sep: Seq<char>)
    requires
        n <= s1.len(),
        n <= s2.len(),
        forall|j: int| 0 <= j < n ==> s1[j] == s2[j],
    ensures
        join_upto(s1, n, sep) == join_upto(s2, n, sep),
    decreases n,
{
    if n > 1 {
        lemma_join_prefix(s1, s2, n - 1, sep);
    }
}

/// Joins the entries of `words` from index `from` on with the separator
/// `sep`.
pub fn join_words_from(words: &Vec<String>, from: usize, sep: &str) -> (r: String)
    requires
        from <= words@.len(),
    ensures
        r@ == join_upto(
            views_of(words@).subrange(from as int, words@.len() as int),
            words@.len() - from as int,
            sep@,
        ),
{
    let mut out = String::new();
    let mut i: usize = from;
    while i < words.len()
        invariant
            from <= i <= words@.len(),
            out@ == join_upto(
                views_of(words@).subrange(from as int, i as int),
                i - from as int,
                sep@,
            ),
        decreases words@.len() - i,
    {
        if i > from {
            out.append(sep);
        }
        out.append(words[i].as_str());
        proof {
            let full = views_of(words@);
            let prev = full.subrange(from as int, i as int);
            let cur = full.subrange(from as int, i + 1);
            assert(full[i as int] == words@[i as int]@);
            assert(forall|j: int| 0 <= j < i - from ==> prev[j] == cur[j]);
            lemma_join_prefix(cur, prev, i - from as int, sep@);
            assert(cur[i - from as int] == words@[i as int]@);
        }
        i += 1;
    }
    out
}

/// The decimal digit character for `d` in `0 .. 10`.
pub open spec fn dec_digit(d: int) -> char {
    if d == 0 {
        '0'
    } else if d == 1 {
        '1'
    } else if d == 2 {
        '2'
    } else if d == 3 {
        '3'
    } else if d == 4 {
        '4'
    } else if d == 5 {
        '5'
    } else if d == 6 {
        '6'
    } else if d == 7 {
        '7'
    } else if d == 8 {
        '8'
    } else {
        '9'
    }
}

/// The decimal representation of a non-negative integer, without leading
/// zeros.
pub open spec fn dec_str(n: int) -> Seq<char>
    decreases n,
{
    if n < 10 {
        seq![dec_digit(n)]
    } else {
        dec_str(n / 10).push(dec_digit(n % 10))
    }
}

/// Appends one decimal digit character for `d`.
fn append_digit(out: &mut String, d: u128)
    requires
        d < 10,
    ensures
        final(out)@ == old(out)@ + seq![dec_digit(d as int)],
{
    if d == 0 {
        out.append("0");
        proof {
            reveal_strlit("0");
            assert("0"@ =~= seq![dec_digit(0)]);
        }
    } else if d == 1 {
        out.append("1");
        proof {
            reveal_strlit("1");
            assert("1"@ =~= seq![dec_digit(1)]);
        }
    } else if d == 2 {
        out.append("2");
        proof {
            reveal_strlit("2");
            assert("2"@ =~= seq![dec_digit(2)]);
        }
    } else if d == 3 {
        out.append("3");
        proof {
            reveal_strlit("3");
            assert("3"@ =~= seq![dec_digit(3)]);
        }
    } else if d == 4 {
        out.append("4");
        proof {
            reveal_strlit("4");
            assert("4"@ =~= seq![dec_digit(4)]);
        }
    } else if d == 5 {
        out.append("5");
        proof {
            reveal_strlit("5");
            assert("5"@ =~= seq![dec_digit(5)]);
        }
    } else if d == 6 {
        out.append("6");
        proof {
            reveal_strlit("6");
            assert("6"@ =~= seq![dec_digit(6)]);
        }
    } else if d == 7 {
        out.append("7");
        proof {
            reveal_strlit("7");
            assert("7"@ =~= seq![dec_digit(7)]);
        }
    } else if d == 8 {
        out.append("8");
        proof {
            reveal_strlit("8");
            assert("8"@ =~= seq![dec_digit(8)]);
        }
    } else {
        out.append("9");
        proof {
            reveal_strlit("9");
            assert("9"@ =~= seq![dec_digit(9)]);
        }
    }
}

/// Appends the decimal representation of `n`.
fn append_dec(out: &mut String, n: u128)
    ensures
        final(out)@ == old(out)@ + dec_str(n as int),
    decreases n,
{
    if n >= 10 {
        append_dec(out, n / 10);
        append_digit(out, n % 10);
        assert(final(out)@ =~= old(out)@ + dec_str(n as int));
    } else {
        append_digit(out, n);
    }
}

/// The decimal representation of `n` as a fresh string.
pub fn dec_string(n: u128) -> (r: String)
    ensures
        r@ == dec_str(n as int),
{
    let mut out = String::new();
    append_dec(&mut out, n);
    assert(out@ =~= dec_str(n as int));
    out
}

/// The characters counted as blank when trimming: space, tab, carriage
/// return and newline.
pub open spec fn is_blank_char(c: char) -> bool {
    c == ' ' || c == '\t' || c == '\r' || c == '\n'
}

/// `s` with the longest blank prefix and suffix removed.
pub open spec fn trimmed(s: Seq<char>) -> Seq<char>
    decreases s.len(),
{
    if s.len() == 0 {
        s
    } else if is_blank_char(s[0]) {
        trimmed(s.subrange(1, s.len() as int))
    } else if is_blank_char(s[s.len() - 1]) {
        trimmed(s.subrange(0, s.len() - 1))
    } else {
        s
    }
}

/// Copies `s` without its leading and trailing blank characters.
pub fn trim_text(s: &str) -> (r: String)
    ensures
        r@ == trimmed(s@),
{
    let n: usize = s.unicode_len();
    proof {
        assert(s@.subrange(0, n as int) =~= s@);
    }
    let mut start: usize = 0;
    while start < n && is_blank(s.get_char(start))
        invariant
            start <= n,
            n == s@.len(),
            forall|j: int| 0 <= j < start ==> is_blank_char(s@[j]),
            trimmed(s@) == trimmed(s@.subrange(start as int, n as int)),
        decreases n - start,
    {
        proof {
            let cur = s@.subrange(start as int, n as int);
            assert(cur.subrange(1, cur.len() as int) =~= s@.subrange(start + 1, n as int));
        }
        start += 1;
    }
    let mut end: usize = n;
    while end > start && is_blank(s.get_char(end - 1))
        invariant
            start <= end <= n,
            n == s@.len(),
            start == n || !is_blank_char(s@[start as int]),
            trimmed(s@) == trimmed(s@.subrange(start as int, end as int)),
        decreases end,
    {
        proof {
            let cur = s@.subrange(start as int, end as int);
            assert(cur.subrange(0, cur.len() - 1) =~= s@.subrange(start as int, end - 1));
        }
        end -= 1;
    }
    let sub = s.substring_char(start, end);
    let r = sub.to_owned();
    proof {
        let cur = s@.subrange(start as int, end as int);
        assert(trimmed(cur) == cur);
    }
    r
}

/// Whether `c` is a blank character, executably.
pub fn is_blank(c: char) -> (r: bool)
    ensures
        r == is_blank_char(c),
{
    c == ' ' || c == '\t' || c == '\r' || c == '\n'
}

/// Copies every string of `v`.
pub fn clone_strings(v: &Vec<String>) -> (r: Vec<String>)
    ensures
        r.deep_view() == v.deep_view(),
{
    let mut out: Vec<String> = Vec::new();
    let mut i: usize = 0;
    while i < v.len()
        invariant
            i <= v@.len(),
            views_of(out@) == views_of(v@).subrange(0, i as int),
        decreases v@.len() - i,
    {
        let ghost pre = out@;
        out.push(v[i].clone());
        proof {
            assert(out@ == pre.push(v@[i as int]));
            lemma_views_push(pre, v@[i as int]);
            assert(views_of(out@) =~= views_of(v@).subrange(0, i + 1));
        }
        i += 1;
    }
    proof {
        lemma_vec_views(v);
        lemma_vec_views(&out);
        assert(views_of(v@).subrange(0, v@.len() as int) =~= views_of(v@));
    }
    out
}

} // verus!
