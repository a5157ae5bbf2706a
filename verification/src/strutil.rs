use vstd::prelude::*;

verus! {

/// ASCII whitespace, as stripped from cookie names and values.
pub open spec fn is_ws(c: char) -> bool {
    c == ' ' || c == '\t' || c == '\r' || c == '\n'
}

/// Index of the first occurrence of `c` in `s`, or -1 if `c` does not occur.
pub open spec fn find_char(s: Seq<char>, c: char) -> int
    decreases s.len(),
{
    if s.len() == 0 {
        -1
    } else if s[0] == c {
        0
    } else {
        let r = find_char(s.drop_first(), c);
        if r < 0 {
            -1
        } else {
            r + 1
        }
    }
}

pub proof fn lemma_find_char(s: Seq<char>, c: char)
    ensures
        find_char(s, c) >= 0 ==> find_char(s, c) < s.len() && s[find_char(s, c)] == c,
        find_char(s, c) >= 0 ==> forall|i: int| 0 <= i < find_char(s, c) ==> s[i] != c,
        find_char(s, c) < 0 ==> forall|i: int| 0 <= i < s.len() ==> s[i] != c,
    decreases s.len(),
{
    if s.len() > 0 && s[0] != c {
        lemma_find_char(s.drop_first(), c);
        let r = find_char(s.drop_first(), c);
        assert forall|i: int| 0 <= i < find_char(s, c) implies s[i] != c by {
            if i > 0 {
                assert(s.drop_first()[i - 1] == s[i]);
            }
        }
        if r < 0 {
            assert forall|i: int| 0 <= i < s.len() implies s[i] != c by {
                if i > 0 {
                    assert(s.drop_first()[i - 1] == s[i]);
                }
            }
        }
    }
}

pub proof fn lemma_find_char_is(s: Seq<char>, c: char, k: int)
    requires
        0 <= k < s.len(),
        s[k] == c,
        forall|j: int| 0 <= j < k ==> s[j] != c,
    ensures
        find_char(s, c) == k,
{
    lemma_find_char(s, c);
    let f = find_char(s, c);
    if f < 0 {
        assert(s[k] != c);
    } else if f < k {
        assert(s[f] != c);
    } else if f > k {
        assert(s[k] != c);
    }
}

/// Whether `c` is an ASCII whitespace character; mirrors [`is_ws`].
pub fn is_ws_exec(c: char) -> (b: bool)
    ensures
        b == is_ws(c),
{
    c == ' ' || c == '\t' || c == '\r' || c == '\n'
}

/// First position of `c` in `s` at or after `from`, if any.
pub fn find_char_from(s: &str, c: char, from: usize) -> (r: Option<usize>)
    requires
        from <= s@.len(),
    ensures
        match r {
            Some(i) => from <= i < s@.len() && find_char(s@.skip(from as int), c) == i - from,
            None => find_char(s@.skip(from as int), c) < 0,
        },
{
    let n = s.unicode_len();
    let mut i: usize = from;
    while i < n
        invariant
            from <= i <= n,
            n == s@.len(),
            forall|j: int| from <= j < i ==> s@[j] != c,
        decreases n - i,
    {
        if s.get_char(i) == c {
            proof {
                assert forall|j: int| 0 <= j < i - from implies s@.skip(from as int)[j] != c by {
                    assert(s@.skip(from as int)[j] == s@[j + from]);
                }
                lemma_find_char_is(s@.skip(from as int), c, i - from);
            }
            return Some(i);
        }
        i += 1;
    }
    proof {
        lemma_find_char(s@.skip(from as int), c);
        let f = find_char(s@.skip(from as int), c);
        if f >= 0 {
            assert(s@.skip(from as int)[f] == s@[f + from]);
        }
    }
    None
}

/// The model of a list of strings.
pub open spec fn strs_model(v: Seq<String>) -> Seq<Seq<char>> {
    Seq::new(v.len(), |i: int| v[i]@)
}

/// Whether two string slices hold the same characters.
pub fn str_eq(a: &str, b: &str) -> (r: bool)
    ensures
        r == (a@ == b@),
{
    let na = a.unicode_len();
    let nb = b.unicode_len();
    if na != nb {
        proof {
            assert(a@.len() != b@.len());
        }
        return false;
    }
    let mut i: usize = 0;
    while i < na
        invariant
            0 <= i <= na,
            na == a@.len(),
            na == b@.len(),
            forall|j: int| 0 <= j < i ==> a@[j] == b@[j],
        decreases na - i,
    {
        if a.get_char(i) != b.get_char(i) {
            return false;
        }
        i += 1;
    }
    proof {
        assert(a@ =~= b@);
    }
    true
}

/// The sequence with leading ASCII whitespace removed.
pub open spec fn trim_start_spec(s: Seq<char>) -> Seq<char>
    decreases s.len(),
{
    if s.len() > 0 && is_ws(s[0]) {
        trim_start_spec(s.drop_first())
    } else {
        s
    }
}

/// The sequence with trailing ASCII whitespace removed.
pub open spec fn trim_end_spec(s: Seq<char>) -> Seq<char>
    decreases s.len(),
{
    if s.len() > 0 && is_ws(s.last()) {
        trim_end_spec(s.drop_last())
    } else {
        s
    }
}

/// The sequence with surrounding ASCII whitespace removed.
pub open spec fn trim_spec(s: Seq<char>) -> Seq<char> {
    trim_end_spec(trim_start_spec(s))
}

/// `s` with surrounding ASCII whitespace removed.
pub fn trim<'a>(s: &'a str) -> (r: &'a str)
    ensures
        r@ == trim_spec(s@),
{
    let n = s.unicode_len();
    let mut i: usize = 0;
    proof {
        assert(s@.skip(0) =~= s@);
    }
    while i < n && is_ws_exec(s.get_char(i))
        invariant
            0 <= i <= n,
            n == s@.len(),
            trim_start_spec(s@) == trim_start_spec(s@.skip(i as int)),
        decreases n - i,
    {
        proof {
            assert(s@.skip(i as int)[0] == s@[i as int]);
            assert(s@.skip(i as int).drop_first() =~= s@.skip(i as int + 1));
        }
        i += 1;
    }
    proof {
        if i < n {
            assert(s@.skip(i as int)[0] == s@[i as int]);
        }
        assert(trim_start_spec(s@) == s@.skip(i as int));
    }
    let ghost t = s@.skip(i as int);
    let mut j: usize = n;
    proof {
        assert(t.take(n - i) =~= t);
    }
    while j > i && is_ws_exec(s.get_char(j - 1))
        invariant
            i <= j <= n,
            n == s@.len(),
            i <= s@.len(),
            t == s@.skip(i as int),
            trim_end_spec(t) == trim_end_spec(t.take(j - i)),
        decreases j,
    {
        proof {
            let m = j - i;
            assert(t.take(m).last() == t[m - 1]);
            assert(t[m - 1] == s@[j - 1]);
            assert(t.take(m).drop_last() =~= t.take(m - 1));
        }
        j -= 1;
    }
    proof {
        if j > i {
            assert(t.take(j - i).last() == t[j - i - 1]);
            assert(t[j - i - 1] == s@[j - 1]);
        }
        assert(trim_end_spec(t) == t.take(j - i));
        assert(t.take(j - i) =~= s@.subrange(i as int, j as int));
    }
    s.substring_char(i, j)
}

/// The token text with each escaped backslash pair collapsed to one
/// backslash, scanning left to right without overlap.
pub open spec fn unescaped(s: Seq<char>) -> Seq<char>
    decreases s.len(),
{
    if s.len() >= 2 && s[0] == '\\' && s[1] == '\\' {
        seq!['\\'] + unescaped(s.skip(2))
    } else if s.len() > 0 {
        seq![s[0]] + unescaped(s.skip(1))
    } else {
        Seq::<char>::empty()
    }
}

/// A security token may arrive with backslash-escaped backslashes; this
/// collapses each `\\` pair to a single `\`.
pub fn parse_token(s: String) -> (r: String)
    ensures
        r@ == unescaped(s@),
{
    let sr = s.as_str();
    let n = sr.unicode_len();
    let mut r = String::new();
    let mut i: usize = 0;
    proof {
        assert(s@.skip(0) =~= s@);
        assert(r@ + unescaped(s@) =~= unescaped(s@));
    }
    while i < n
        invariant
            0 <= i <= n,
            n == sr@.len(),
            sr@ == s@,
            unescaped(s@) == r@ + unescaped(s@.skip(i as int)),
        decreases n - i,
    {
        let c = sr.get_char(i);
        if c == '\\' && i + 1 < n && sr.get_char(i + 1) == '\\' {
            proof {
                reveal_strlit("\\");
                assert(s@.skip(i as int)[0] == s@[i as int]);
                assert(s@.skip(i as int)[1] == s@[i as int + 1]);
                assert(s@.skip(i as int).skip(2) =~= s@.skip(i as int + 2));
                assert("\\"@ =~= seq!['\\']);
            }
            r.append("\\");
            i += 2;
        } else {
            let piece = sr.substring_char(i, i + 1);
            proof {
                assert(s@.skip(i as int)[0] == s@[i as int]);
                if s@.skip(i as int).len() >= 2 {
                    assert(s@.skip(i as int)[1] == s@[i as int + 1]);
                }
                assert(s@.skip(i as int).skip(1) =~= s@.skip(i as int + 1));
                assert(piece@ =~= seq![s@[i as int]]);
            }
            r.append(piece);
            i += 1;
        }
    }
    proof {
        assert(s@.skip(n as int) =~= Seq::<char>::empty());
        assert(r@ =~= r@ + unescaped(s@.skip(n as int)));
    }
    r
}

/// Title of a section page: the article title and the section name joined
/// with a slash.
pub fn section(title: &str, sect: &str) -> (r: String)
    ensures
        r@ == title@ + seq!['/'] + sect@,
{
    proof {
        reveal_strlit("/");
        assert("/"@ =~= seq!['/']);
    }
    let mut r = String::from_str(title);
    r.append("/");
    r.append(sect);
    r
}

} // verus!
