use vstd::prelude::*;

verus! {

/// The characters of the text, in order.
pub fn chars_of(s: &str) -> (r: Vec<char>)
    ensures
        r@ == s@,
{
    let mut out: Vec<char> = Vec::new();
    for c in it: s.chars()
        invariant
            out@ == it.seq().take(it.index() as int),
    {
        out.push(c);
    }
    out
}

/// Relies on String's FromIterator<char>: a string made of these characters.
#[verifier::external_body]
pub fn string_of(chars: &Vec<char>) -> (r: String)
    ensures
        r@ == chars@,
{
    chars.iter().collect()
}

/// What str::to_lowercase makes of a text.
pub uninterp spec fn lower_of(s: Seq<char>) -> Seq<char>;

/// Relies on str::to_lowercase: the lowercase mapping of every character;
/// the result depends on the characters alone.
#[verifier::external_body]
pub fn lowercase(s: &str) -> (r: String)
    ensures
        r@ == lower_of(s@),
{
    s.to_lowercase()
}

/// The characters that carry the Unicode White_Space property, which is what
/// `str::trim` removes.
pub open spec fn is_space(c: char) -> bool {
    ||| '\u{9}' <= c <= '\u{d}'
    ||| c == ' '
    ||| c == '\u{85}'
    ||| c == '\u{a0}'
    ||| c == '\u{1680}'
    ||| '\u{2000}' <= c <= '\u{200a}'
    ||| c == '\u{2028}'
    ||| c == '\u{2029}'
    ||| c == '\u{202f}'
    ||| c == '\u{205f}'
    ||| c == '\u{3000}'
}

/// Whether the character is white space (see `is_space`).
pub fn is_space_char(c: char) -> (r: bool)
    ensures
        r == is_space(c),
{
    ('\u{9}' <= c && c <= '\u{d}') || c == ' ' || c == '\u{85}' || c == '\u{a0}' || c == '\u{1680}'
        || ('\u{2000}' <= c && c <= '\u{200a}') || c == '\u{2028}' || c == '\u{2029}' || c
        == '\u{202f}' || c == '\u{205f}' || c == '\u{3000}'
}

/// Number of leading white-space characters.
pub open spec fn leading_spaces(s: Seq<char>) -> nat
    decreases s.len(),
{
    if s.len() > 0 && is_space(s[0]) {
        1 + leading_spaces(s.drop_first())
    } else {
        0
    }
}

/// Number of trailing white-space characters.
pub open spec fn trailing_spaces(s: Seq<char>) -> nat
    decreases s.len(),
{
    if s.len() > 0 && is_space(s.last()) {
        1 + trailing_spaces(s.drop_last())
    } else {
        0
    }
}

/// The text without its leading and trailing white space.
pub open spec fn trimmed(s: Seq<char>) -> Seq<char> {
    let t = s.skip(leading_spaces(s) as int);
    t.take(t.len() - trailing_spaces(t))
}

/// Every line break replaced by a space.
pub open spec fn joined_lines(s: Seq<char>) -> Seq<char> {
    s.map_values(|c: char| if c == '\n' { ' ' } else { c })
}

proof fn lemma_leading_spaces(s: Seq<char>, i: int)
    requires
        0 <= i <= s.len(),
        forall|j: int| 0 <= j < i ==> is_space(#[trigger] s[j]),
        i == s.len() || !is_space(s[i]),
    ensures
        leading_spaces(s) == i,
    decreases i,
{
    if i > 0 {
        lemma_leading_spaces(s.drop_first(), i - 1);
    }
}

proof fn lemma_trailing_spaces(s: Seq<char>, k: int)
    requires
        0 <= k <= s.len(),
        forall|j: int| s.len() - k <= j < s.len() ==> is_space(#[trigger] s[j]),
        k == s.len() || !is_space(s[s.len() - k - 1]),
    ensures
        trailing_spaces(s) == k,
    decreases k,
{
    if k > 0 {
        lemma_trailing_spaces(s.drop_last(), k - 1);
    }
}

/// The text without its leading and trailing white space.
pub fn trim_chars(s: &Vec<char>) -> (r: Vec<char>)
    ensures
        r@ == trimmed(s@),
{
    let n = s.len();
    let mut start: usize = 0;
    while start < n && is_space_char(s[start])
        invariant
            n == s@.len(),
            start <= n,
            forall|j: int| 0 <= j < start ==> is_space(#[trigger] s@[j]),
        decreases n - start,
    {
        start = start + 1;
    }
    proof {
        lemma_leading_spaces(s@, start as int);
    }
    let ghost t = s@.skip(start as int);
    let mut end: usize = n;
    while end > start && is_space_char(s[end - 1])
        invariant
            n == s@.len(),
            start <= end <= n,
            t == s@.skip(start as int),
            forall|j: int| end <= j < n ==> is_space(#[trigger] s@[j]),
        decreases end,
    {
        end = end - 1;
    }
    proof {
        assert(forall|j: int| t.len() - (n - end) <= j < t.len() ==> is_space(#[trigger] t[j]));
        lemma_trailing_spaces(t, (n - end) as int);
    }
    let mut r: Vec<char> = Vec::new();
    let mut i: usize = start;
    while i < end
        invariant
            n == s@.len(),
            start <= i <= end <= n,
            r@ =~= s@.subrange(start as int, i as int),
        decreases end - i,
    {
        r.push(s[i]);
        i = i + 1;
    }
    r
}

/// The text with every line break made a space.
pub fn join_lines(s: &Vec<char>) -> (r: Vec<char>)
    ensures
        r@ == joined_lines(s@),
{
    let mut r: Vec<char> = Vec::new();
    let mut i: usize = 0;
    while i < s.len()
        invariant
            i <= s@.len(),
            r@ =~= joined_lines(s@.take(i as int)),
        decreases s@.len() - i,
    {
        let c = s[i];
        if c == '\n' {
            r.push(' ');
        } else {
            r.push(c);
        }
        i = i + 1;
    }
    r
}

/// Whether `p` is a prefix of `s`.
pub open spec fn is_prefix(p: Seq<char>, s: Seq<char>) -> bool {
    p.len() <= s.len() && s.take(p.len() as int) == p
}

/// Whether `p` is a prefix of `s`.
pub fn starts_with(s: &Vec<char>, p: &Vec<char>) -> (r: bool)
    ensures
        r == is_prefix(p@, s@),
{
    if p.len() > s.len() {
        return false;
    }
    let mut i: usize = 0;
    while i < p.len()
        invariant
            p@.len() <= s@.len(),
            i <= p@.len(),
            forall|j: int| 0 <= j < i ==> s@[j] == p@[j],
        decreases p@.len() - i,
    {
        if s[i] != p[i] {
            return false;
        }
        i = i + 1;
    }
    assert(s@.take(p@.len() as int) =~= p@);
    true
}

/// Whether two texts hold the same characters.
pub fn same_chars(a: &Vec<char>, b: &Vec<char>) -> (r: bool)
    ensures
        r == (a@ == b@),
{
    if a.len() != b.len() {
        return false;
    }
    let mut i: usize = 0;
    while i < a.len()
        invariant
            a@.len() == b@.len(),
            i <= a@.len(),
            forall|j: int| 0 <= j < i ==> a@[j] == b@[j],
        decreases a@.len() - i,
    {
        if a[i] != b[i] {
            return false;
        }
        i = i + 1;
    }
    assert(a@ =~= b@);
    true
}

/// Whether `t` matches the SQL LIKE pattern `p`: `%` matches any run of
/// characters, `_` any one character, and a backslash makes the character
/// after it literal.
pub open spec fn like(p: Seq<char>, t: Seq<char>) -> bool
    decreases p.len(), t.len(),
{
    if p.len() == 0 {
        t.len() == 0
    } else if p[0] == '%' {
        like(p.drop_first(), t) || (t.len() > 0 && like(p, t.drop_first()))
    } else if p[0] == '\\' && p.len() >= 2 {
        t.len() > 0 && t[0] == p[1] && like(p.subrange(2, p.len() as int), t.drop_first())
    } else if p[0] == '_' {
        t.len() > 0 && like(p.drop_first(), t.drop_first())
    } else {
        t.len() > 0 && t[0] == p[0] && like(p.drop_first(), t.drop_first())
    }
}

/// Whether `t` matches the SQL LIKE pattern `p` (see `like`).
pub fn like_matches(p: &Vec<char>, t: &Vec<char>) -> (r: bool)
    ensures
        r == like(p@, t@),
{
    let n = p.len();
    let m = t.len();
    // For a pattern position, whether each suffix of the text matches the
    // pattern from there: positions 0..m in a list, the empty suffix apart.
    let mut next: Vec<bool> = Vec::new();
    let mut k: usize = 0;
    while k < m
        invariant
            n == p@.len(),
            m == t@.len(),
            k <= m,
            next@.len() == k,
            forall|j: int| 0 <= j < k ==> next@[j] == like(p@.skip(n as int), t@.skip(j)),
        decreases m - k,
    {
        next.push(false);
        k = k + 1;
    }
    let mut next_end: bool = true;
    let mut after: Vec<bool> = next.clone();
    let mut after_end: bool = next_end;
    let mut i: usize = n;
    while i > 0
        invariant
            n == p@.len(),
            m == t@.len(),
            i <= n,
            next@.len() == m,
            after@.len() == m,
            forall|j: int| 0 <= j < m ==> next@[j] == like(p@.skip(i as int), t@.skip(j)),
            next_end == like(p@.skip(i as int), t@.skip(m as int)),
            i + 1 <= n ==> forall|j: int| 0 <= j < m ==> after@[j] == like(p@.skip(i + 1), t@.skip(j)),
            i + 1 <= n ==> after_end == like(p@.skip(i + 1), t@.skip(m as int)),
        decreases i,
    {
        let pi = i - 1;
        let c = p[pi];
        proof {
            let ps = p@.skip(pi as int);
            let ts = t@.skip(m as int);
            assert(ps.drop_first() =~= p@.skip(i as int));
        }
        let row_end = c == '%' && next_end;
        let mut row: Vec<bool> = Vec::new();
        let mut k: usize = 0;
        while k < m
            invariant
                k <= m,
                row@.len() == k,
            decreases m - k,
        {
            row.push(false);
            k = k + 1;
        }
        let mut j: usize = m;
        while j > 0
            invariant
                n == p@.len(),
                m == t@.len(),
                pi < n,
                c == p@[pi as int],
                i == pi + 1,
                j <= m,
                row@.len() == m,
                next@.len() == m,
                after@.len() == m,
                forall|q: int| 0 <= q < m ==> next@[q] == like(p@.skip(i as int), t@.skip(q)),
                next_end == like(p@.skip(i as int), t@.skip(m as int)),
                i + 1 <= n ==> forall|q: int| 0 <= q < m ==> after@[q] == like(p@.skip(i + 1), t@.skip(q)),
                i + 1 <= n ==> after_end == like(p@.skip(i + 1), t@.skip(m as int)),
                row_end == like(p@.skip(pi as int), t@.skip(m as int)),
                forall|q: int| j <= q < m ==> row@[q] == like(p@.skip(pi as int), t@.skip(q)),
            decreases j,
        {
            let jj = j - 1;
            let ghost ps = p@.skip(pi as int);
            let ghost ts = t@.skip(jj as int);
            proof {
                assert(ps.drop_first() =~= p@.skip(i as int));
                assert(ts.drop_first() =~= t@.skip(jj + 1));
                if i < n {
                    assert(ps.subrange(2, ps.len() as int) =~= p@.skip(i + 1));
                }
            }
            let row_next = if jj + 1 < m { row[jj + 1] } else { row_end };
            let next_next = if jj + 1 < m { next[jj + 1] } else { next_end };
            let after_next = if jj + 1 < m { after[jj + 1] } else { after_end };
            let v = if c == '%' {
                next[jj] || row_next
            } else if c == '\\' && i < n {
                t[jj] == p[i] && after_next
            } else if c == '_' {
                next_next
            } else {
                t[jj] == c && next_next
            };
            row.set(jj, v);
            j = jj;
        }
        after = next;
        after_end = next_end;
        next = row;
        next_end = row_end;
        i = pi;
    }
    assert(p@.skip(0) =~= p@);
    assert(t@.skip(0) =~= t@);
    if m == 0 {
        next_end
    } else {
        next[0]
    }
}

} // verus!
