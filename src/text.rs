use vstd::prelude::*;

verus! {

/// ASCII whitespace: space, tab, line feed, form feed and carriage return.
pub open spec fn is_ascii_space(c: char) -> bool {
    c == ' ' || c == '\t' || c == '\n' || c == '\x0C' || c == '\r'
}

/// Whether `c` ends a run: whitespace where `space` holds, else the character `mark`.
pub open spec fn ends_run(c: char, space: bool, mark: char) -> bool {
    if space {
        is_ascii_space(c)
    } else {
        c == mark
    }
}

/// The leading run of `s` up to the first character that ends it.
pub open spec fn prefix_until(s: Seq<char>, space: bool, mark: char) -> Seq<char>
    decreases s.len(),
{
    if s.len() == 0 || ends_run(s[0], space, mark) {
        Seq::empty()
    } else {
        seq![s[0]] + prefix_until(s.drop_first(), space, mark)
    }
}

/// The first whitespace-separated word of `s`; empty where `s` is all whitespace.
pub open spec fn first_word_of(s: Seq<char>) -> Seq<char>
    decreases s.len(),
{
    if s.len() == 0 {
        s
    } else if is_ascii_space(s[0]) {
        first_word_of(s.drop_first())
    } else {
        prefix_until(s, true, ' ')
    }
}

/// What follows the first occurrence of `c` in `s`, if `c` occurs.
pub open spec fn after_first(s: Seq<char>, c: char) -> Option<Seq<char>>
    decreases s.len(),
{
    if s.len() == 0 {
        None
    } else if s[0] == c {
        Some(s.drop_first())
    } else {
        after_first(s.drop_first(), c)
    }
}

/// The second of the fields that `'` separates in `s`, if there are two.
pub open spec fn second_quoted_field(s: Seq<char>) -> Option<Seq<char>> {
    match after_first(s, '\'') {
        Some(rest) => Some(prefix_until(rest, false, '\'')),
        None => None,
    }
}

/// Whether `t` occurs in `s` as a contiguous run.
pub open spec fn has_infix(s: Seq<char>, t: Seq<char>) -> bool {
    exists|i: int| 0 <= i && i + t.len() <= s.len() && #[trigger] s.subrange(i, i + t.len()) == t
}

/// Whether `t` occurs in `s` as a contiguous run.
pub fn contains_text(s: &str, t: &str) -> (r: bool)
    ensures
        r == has_infix(s@, t@),
{
    let n = s.unicode_len();
    let m = t.unicode_len();
    if m > n {
        return false;
    }
    let mut i: usize = 0;
    while i <= n - m
        invariant
            n == s@.len(),
            m == t@.len(),
            m <= n,
            i <= n - m + 1,
            forall|k: int| 0 <= k < i ==> #[trigger] s@.subrange(k, k + m) != t@,
        decreases n - m + 1 - i,
    {
        let mut j: usize = 0;
        let mut same = true;
        while j < m && same
            invariant
                n == s@.len(),
                m == t@.len(),
                i + m <= n,
                j <= m,
                same == (forall|q: int| 0 <= q < j ==> s@[i + q] == t@[q]),
            decreases m - j,
        {
            if s.get_char(i + j) != t.get_char(j) {
                same = false;
            }
            j = j + 1;
        }
        if same {
            assert(s@.subrange(i as int, i + m) =~= t@);
            return true;
        }
        proof {
            let q = choose|q: int| 0 <= q < j && s@[i + q] != t@[q];
            assert(s@.subrange(i as int, i + m)[q] != t@[q]);
        }
        i = i + 1;
    }
    proof {
        assert forall|k: int| 0 <= k && k + t@.len() <= s@.len() implies #[trigger] s@.subrange(k, k + t@.len()) != t@ by {
            assert(k < i);
        }
    }
    false
}

proof fn lemma_prefix_step(s: Seq<char>, i: int, space: bool, mark: char)
    requires
        0 <= i < s.len(),
        !ends_run(s[i], space, mark),
    ensures
        prefix_until(s.subrange(i, s.len() as int), space, mark) == seq![s[i]] + prefix_until(
            s.subrange(i + 1, s.len() as int),
            space,
            mark,
        ),
{
    assert(s.subrange(i, s.len() as int).drop_first() =~= s.subrange(i + 1, s.len() as int));
}

/// The characters of `s` from `from` up to the first one that ends the run.
fn take_until(s: &str, from: usize, space: bool, mark: char) -> (r: String)
    requires
        from <= s@.len(),
    ensures
        r@ == prefix_until(s@.subrange(from as int, s@.len() as int), space, mark),
{
    let n = s.unicode_len();
    let mut j: usize = from;
    while j < n
        invariant_except_break
            from <= j <= n,
            n == s@.len(),
            prefix_until(s@.subrange(from as int, n as int), space, mark) == s@.subrange(from as int, j as int)
                + prefix_until(s@.subrange(j as int, n as int), space, mark),
        ensures
            from <= j <= n,
            n == s@.len(),
            prefix_until(s@.subrange(from as int, n as int), space, mark) == s@.subrange(from as int, j as int),
        decreases n - j,
    {
        let c = s.get_char(j);
        let ends = if space {
            c == ' ' || c == '\t' || c == '\n' || c == '\x0C' || c == '\r'
        } else {
            c == mark
        };
        if ends {
            proof {
                assert(s@.subrange(j as int, n as int)[0] == c);
                assert(s@.subrange(from as int, j as int) + Seq::<char>::empty() =~= s@.subrange(from as int, j as int));
            }
            break;
        }
        proof {
            lemma_prefix_step(s@, j as int, space, mark);
            assert(s@.subrange(from as int, j as int) + seq![c] =~= s@.subrange(from as int, j + 1));
            assert((s@.subrange(from as int, j as int) + seq![c]) + prefix_until(s@.subrange(j + 1, n as int), space, mark)
                =~= s@.subrange(from as int, j as int) + (seq![c] + prefix_until(s@.subrange(j + 1, n as int), space, mark)));
        }
        j = j + 1;
    }
    proof {
        if j == n {
            assert(s@.subrange(j as int, n as int).len() == 0);
            assert(s@.subrange(from as int, j as int) + Seq::<char>::empty() =~= s@.subrange(from as int, j as int));
        }
    }
    let piece = s.substring_char(from, j);
    String::from_str(piece)
}

proof fn lemma_skip_step(s: Seq<char>, i: int)
    requires
        0 <= i < s.len(),
        is_ascii_space(s[i]),
    ensures
        first_word_of(s.subrange(i, s.len() as int)) == first_word_of(s.subrange(i + 1, s.len() as int)),
{
    assert(s.subrange(i, s.len() as int).drop_first() =~= s.subrange(i + 1, s.len() as int));
}

/// The first whitespace-separated word of `s`, or `None` where there is none.
pub fn first_word(s: &str) -> (r: Option<String>)
    ensures
        r is None <==> first_word_of(s@).len() == 0,
        r matches Some(w) ==> w@ == first_word_of(s@),
{
    let n = s.unicode_len();
    let mut i: usize = 0;
    proof {
        assert(s@.subrange(0, n as int) =~= s@);
    }
    while i < n
        invariant_except_break
            i <= n,
            n == s@.len(),
            first_word_of(s@) == first_word_of(s@.subrange(i as int, n as int)),
        ensures
            i <= n,
            n == s@.len(),
            first_word_of(s@) == first_word_of(s@.subrange(i as int, n as int)),
            i < n ==> !is_ascii_space(s@[i as int]),
        decreases n - i,
    {
        let c = s.get_char(i);
        if !(c == ' ' || c == '\t' || c == '\n' || c == '\x0C' || c == '\r') {
            break;
        }
        proof {
            lemma_skip_step(s@, i as int);
        }
        i = i + 1;
    }
    if i == n {
        proof {
            assert(s@.subrange(i as int, n as int).len() == 0);
        }
        return None;
    }
    let w = take_until(s, i, true, ' ');
    proof {
        let rest = s@.subrange(i as int, n as int);
        assert(rest[0] == s@[i as int]);
        assert(w@ == first_word_of(rest));
        
    }
    Some(w)
}

proof fn lemma_after_step(s: Seq<char>, i: int, c: char)
    requires
        0 <= i < s.len(),
        s[i] != c,
    ensures
        after_first(s.subrange(i, s.len() as int), c) == after_first(s.subrange(i + 1, s.len() as int), c),
{
    assert(s.subrange(i, s.len() as int).drop_first() =~= s.subrange(i + 1, s.len() as int));
}

/// The text between the first and the second `'` of `s` (up to the end if
/// there is no second one), or `None` where `s` holds no `'`.
pub fn second_quoted(s: &str) -> (r: Option<String>)
    ensures
        r is None <==> second_quoted_field(s@) is None,
        r matches Some(w) ==> second_quoted_field(s@) == Some(w@),
{
    let n = s.unicode_len();
    let mut i: usize = 0;
    proof {
        assert(s@.subrange(0, n as int) =~= s@);
    }
    while i < n
        invariant_except_break
            i <= n,
            n == s@.len(),
            after_first(s@, '\'') == after_first(s@.subrange(i as int, n as int), '\''),
        ensures
            i <= n,
            n == s@.len(),
            after_first(s@, '\'') == after_first(s@.subrange(i as int, n as int), '\''),
            i < n ==> s@[i as int] == '\'',
        decreases n - i,
    {
        let c = s.get_char(i);
        if c == '\'' {
            break;
        }
        proof {
            lemma_after_step(s@, i as int, '\'');
        }
        i = i + 1;
    }
    if i == n {
        proof {
            assert(s@.subrange(i as int, n as int).len() == 0);
        }
        return None;
    }
    let w = take_until(s, i + 1, false, '\'');
    proof {
        let rest = s@.subrange(i as int, n as int);
        assert(rest[0] == '\'');
        assert(rest.drop_first() =~= s@.subrange(i + 1, n as int));
    }
    Some(w)
}

/// The lines joined with `sep` between each two of them.
pub open spec fn joined_by(lines: Seq<Seq<char>>, sep: Seq<char>) -> Seq<char>
    decreases lines.len(),
{
    if lines.len() == 0 {
        Seq::empty()
    } else if lines.len() == 1 {
        lines[0]
    } else {
        joined_by(lines.drop_last(), sep) + sep + lines.last()
    }
}

/// The text of each string, in order.
pub open spec fn texts(v: Seq<String>) -> Seq<Seq<char>> {
    v.map_values(|l: String| l@)
}

/// Joins the strings with `sep` between each two of them.
pub fn join(lines: &Vec<String>, sep: &str) -> (r: String)
    ensures
        r@ == joined_by(texts(lines@), sep@),
{
    let ghost all = texts(lines@);
    if lines.len() == 0 {
        return String::new();
    }
    let mut out = lines[0].clone();
    let mut i: usize = 1;
    proof {
        assert(all.subrange(0, 1).drop_last().len() == 0);
    }
    while i < lines.len()
        invariant
            1 <= i <= lines.len(),
            all == texts(lines@),
            out@ == joined_by(all.subrange(0, i as int), sep@),
        decreases lines.len() - i,
    {
        proof {
            assert(all.subrange(0, i + 1).drop_last() =~= all.subrange(0, i as int));
        }
        out = out.concat(sep).concat(lines[i].as_str());
        i = i + 1;
    }
    proof {
        assert(all.subrange(0, i as int) =~= all);
    }
    out
}

pub open spec fn digit_char(d: nat) -> char {
    if d == 0 { '0' }
    else if d == 1 { '1' }
    else if d == 2 { '2' }
    else if d == 3 { '3' }
    else if d == 4 { '4' }
    else if d == 5 { '5' }
    else if d == 6 { '6' }
    else if d == 7 { '7' }
    else if d == 8 { '8' }
    else { '9' }
}

/// The decimal digits of `n`, most significant first, without leading zeros.
pub open spec fn decimal_of(n: nat) -> Seq<char>
    decreases n,
{
    if n < 10 {
        seq![digit_char(n)]
    } else {
        decimal_of(n / 10) + seq![digit_char(n % 10)]
    }
}

/// The decimal form of `v`, with a leading `-` where it is negative.
pub open spec fn signed_decimal_of(v: int) -> Seq<char> {
    if v < 0 {
        "-"@ + decimal_of((-v) as nat)
    } else {
        decimal_of(v as nat)
    }
}

fn digit(d: u64) -> (r: &'static str)
    requires
        d < 10,
    ensures
        r@ == seq![digit_char(d as nat)],
{
    if d == 0 {
        proof { reveal_strlit("0"); }
        "0"
    } else if d == 1 {
        proof { reveal_strlit("1"); }
        "1"
    } else if d == 2 {
        proof { reveal_strlit("2"); }
        "2"
    } else if d == 3 {
        proof { reveal_strlit("3"); }
        "3"
    } else if d == 4 {
        proof { reveal_strlit("4"); }
        "4"
    } else if d == 5 {
        proof { reveal_strlit("5"); }
        "5"
    } else if d == 6 {
        proof { reveal_strlit("6"); }
        "6"
    } else if d == 7 {
        proof { reveal_strlit("7"); }
        "7"
    } else if d == 8 {
        proof { reveal_strlit("8"); }
        "8"
    } else {
        proof { reveal_strlit("9"); }
        "9"
    }
}

/// Renders `n` in decimal.
pub fn decimal(n: u64) -> (r: String)
    ensures
        r@ == decimal_of(n as nat),
    decreases n,
{
    if n < 10 {
        String::from_str(digit(n))
    } else {
        decimal(n / 10).concat(digit(n % 10))
    }
}

/// Renders `v` in decimal, with a leading `-` where it is negative.
pub fn signed_decimal(v: i32) -> (r: String)
    ensures
        r@ == signed_decimal_of(v as int),
{
    if v < 0 {
        let magnitude: i64 = -(v as i64);
        String::from_str("-").concat(decimal(magnitude as u64).as_str())
    } else {
        decimal(v as u64)
    }
}

} // verus!
