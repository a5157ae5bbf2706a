use vstd::prelude::*;

use crate::strutil::{find_char, trim_spec, trim, find_char_from, lemma_find_char, strs_model, str_eq};

verus! {

/// The mathematical model of a cookie jar: name/value pairs in insertion
/// order.
pub type JarSeq = Seq<(Seq<char>, Seq<char>)>;

/// Index of the first entry named `k`, or -1 if no entry carries that name.
pub open spec fn jar_find(j: JarSeq, k: Seq<char>) -> int
    decreases j.len(),
{
    if j.len() == 0 {
        -1
    } else if j[0].0 == k {
        0
    } else {
        let r = jar_find(j.drop_first(), k);
        if r < 0 {
            -1
        } else {
            r + 1
        }
    }
}

/// The value of the entry named `k`, if one exists.
pub open spec fn jar_lookup(j: JarSeq, k: Seq<char>) -> Option<Seq<char>> {
    if jar_find(j, k) >= 0 {
        Some(j[jar_find(j, k)].1)
    } else {
        None
    }
}

/// Insert `k -> v`: overwrite the value in place if `k` is present, append
/// the pair otherwise.
pub open spec fn jar_upsert(j: JarSeq, k: Seq<char>, v: Seq<char>) -> JarSeq {
    let i = jar_find(j, k);
    if i >= 0 {
        j.update(i, (k, v))
    } else {
        j.push((k, v))
    }
}

/// A well-formed jar never holds two entries with the same name.
pub open spec fn jar_wf(j: JarSeq) -> bool {
    forall|a: int, b: int| 0 <= a < b < j.len() ==> j[a].0 != j[b].0
}

/// One `name=value` segment of a `Set-Cookie` header: the name is the text
/// before the first `=`, the value the text between the first and second
/// `=`, both trimmed; a segment without `=` maps its trimmed text to the
/// sentinel value `true`.
pub open spec fn parse_seg(seg: Seq<char>) -> (Seq<char>, Seq<char>) {
    let e = find_char(seg, '=');
    if e < 0 {
        (trim_spec(seg), "true"@)
    } else {
        let rest = seg.skip(e + 1);
        let e2 = find_char(rest, '=');
        let v = if e2 < 0 {
            rest
        } else {
            rest.take(e2)
        };
        (trim_spec(seg.take(e)), trim_spec(v))
    }
}

/// The name/value pairs of one header, splitting on `;`.
pub open spec fn pairs_of(s: Seq<char>) -> JarSeq
    decreases s.len(),
    via pairs_of_decreases
{
    let i = find_char(s, ';');
    if i < 0 {
        seq![parse_seg(s)]
    } else {
        seq![parse_seg(s.take(i))] + pairs_of(s.skip(i + 1))
    }
}

#[via_fn]
proof fn pairs_of_decreases(s: Seq<char>) {
    lemma_find_char(s, ';');
}

/// Fold a pair list into the jar, front to back.
pub open spec fn apply_pairs(j: JarSeq, ps: JarSeq) -> JarSeq
    decreases ps.len(),
{
    if ps.len() == 0 {
        j
    } else {
        apply_pairs(jar_upsert(j, ps[0].0, ps[0].1), ps.drop_first())
    }
}

/// The jar after one `Set-Cookie` header value is folded in.
pub open spec fn merge_header(j: JarSeq, s: Seq<char>) -> JarSeq {
    apply_pairs(j, pairs_of(s))
}

/// The jar after every header of a response is folded in, in order.
pub open spec fn merge_headers(j: JarSeq, hs: Seq<Seq<char>>) -> JarSeq
    decreases hs.len(),
{
    if hs.len() == 0 {
        j
    } else {
        merge_headers(merge_header(j, hs[0]), hs.drop_first())
    }
}

/// The text of the `Cookie` request header for a jar: `key=value` entries
/// joined with `; ` in insertion order.
pub open spec fn header_of(j: JarSeq) -> Seq<char>
    decreases j.len(),
{
    if j.len() == 0 {
        Seq::<char>::empty()
    } else if j.len() == 1 {
        j[0].0 + "="@ + j[0].1
    } else {
        header_of(j.drop_last()) + "; "@ + j.last().0 + "="@ + j.last().1
    }
}

/// The final value a pair list assigns to `k`, if it assigns one at all.
pub open spec fn last_val(ps: JarSeq, k: Seq<char>) -> Option<Seq<char>>
    decreases ps.len(),
{
    if ps.len() == 0 {
        None
    } else {
        match last_val(ps.drop_first(), k) {
            Some(v) => Some(v),
            None => if ps[0].0 == k {
                Some(ps[0].1)
            } else {
                None
            },
        }
    }
}

pub proof fn lemma_jar_find(j: JarSeq, k: Seq<char>)
    ensures
        jar_find(j, k) >= 0 ==> jar_find(j, k) < j.len() && j[jar_find(j, k)].0 == k,
        jar_find(j, k) >= 0 ==> forall|i: int| 0 <= i < jar_find(j, k) ==> j[i].0 != k,
        jar_find(j, k) < 0 ==> forall|i: int| 0 <= i < j.len() ==> j[i].0 != k,
    decreases j.len(),
{
    if j.len() > 0 && j[0].0 != k {
        lemma_jar_find(j.drop_first(), k);
        let r = jar_find(j.drop_first(), k);
        assert forall|i: int| 0 <= i < jar_find(j, k) implies j[i].0 != k by {
            if i > 0 {
                assert(j.drop_first()[i - 1] == j[i]);
            }
        }
        if r < 0 {
            assert forall|i: int| 0 <= i < j.len() implies j[i].0 != k by {
                if i > 0 {
                    assert(j.drop_first()[i - 1] == j[i]);
                }
            }
        }
    }
}

pub proof fn lemma_jar_find_is(j: JarSeq, k: Seq<char>, i: int)
    requires
        0 <= i < j.len(),
        j[i].0 == k,
        forall|a: int| 0 <= a < i ==> j[a].0 != k,
    ensures
        jar_find(j, k) == i,
{
    lemma_jar_find(j, k);
    let f = jar_find(j, k);
    if f < 0 {
        assert(j[i].0 != k);
    } else if f < i {
        assert(j[f].0 != k);
    } else if f > i {
        assert(j[i].0 != k);
    }
}

/// After an upsert the inserted name maps to the new value and every other
/// name keeps its binding; names never disappear.
pub proof fn lemma_upsert_lookup(j: JarSeq, k0: Seq<char>, v0: Seq<char>, k: Seq<char>)
    ensures
        k == k0 ==> jar_lookup(jar_upsert(j, k0, v0), k) == Some(v0),
        k != k0 ==> jar_lookup(jar_upsert(j, k0, v0), k) == jar_lookup(j, k),
        jar_find(jar_upsert(j, k0, v0), k) >= 0 <==> (jar_find(j, k) >= 0 || k == k0),
{
    lemma_jar_find(j, k0);
    lemma_jar_find(j, k);
    let i0 = jar_find(j, k0);
    let u = jar_upsert(j, k0, v0);
    if i0 >= 0 {
        assert(u == j.update(i0, (k0, v0)));
        assert(forall|a: int| 0 <= a < j.len() ==> u[a].0 == j[a].0);
        if k == k0 {
            lemma_jar_find_is(u, k, i0);
        } else {
            let f = jar_find(j, k);
            if f >= 0 {
                lemma_jar_find_is(u, k, f);
                assert(u[f] == j[f]);
            } else {
                lemma_jar_find(u, k);
                if jar_find(u, k) >= 0 {
                    assert(j[jar_find(u, k)].0 == u[jar_find(u, k)].0);
                }
            }
        }
    } else {
        assert(u == j.push((k0, v0)));
        assert(forall|a: int| 0 <= a < j.len() ==> u[a] == j[a]);
        assert(u[j.len() as int] == (k0, v0));
        if k == k0 {
            lemma_jar_find_is(u, k, j.len() as int);
        } else {
            let f = jar_find(j, k);
            if f >= 0 {
                lemma_jar_find_is(u, k, f);
            } else {
                lemma_jar_find(u, k);
                if jar_find(u, k) >= 0 {
                    let g = jar_find(u, k);
                    if g < j.len() {
                        assert(j[g].0 == u[g].0);
                    }
                }
            }
        }
    }
}

/// Upserting preserves well-formedness.
pub proof fn lemma_upsert_wf(j: JarSeq, k: Seq<char>, v: Seq<char>)
    requires
        jar_wf(j),
    ensures
        jar_wf(jar_upsert(j, k, v)),
{
    lemma_jar_find(j, k);
    let i = jar_find(j, k);
    let u = jar_upsert(j, k, v);
    if i >= 0 {
        assert(j[i].0 == k);
        assert forall|a: int, b: int| 0 <= a < b < u.len() implies u[a].0 != u[b].0 by {
            assert(u[a].0 == j[a].0);
            assert(u[b].0 == j[b].0);
        }
    } else {
        assert forall|a: int, b: int| 0 <= a < b < u.len() implies u[a].0 != u[b].0 by {
            if b < j.len() {
                assert(u[a] == j[a]);
                assert(u[b] == j[b]);
            } else {
                assert(u[a] == j[a]);
                assert(u[b].0 == k);
                assert(j[a].0 != k);
            }
        }
    }
}

/// Folding a pair list preserves well-formedness.
pub proof fn lemma_apply_pairs_wf(j: JarSeq, ps: JarSeq)
    requires
        jar_wf(j),
    ensures
        jar_wf(apply_pairs(j, ps)),
    decreases ps.len(),
{
    if ps.len() > 0 {
        lemma_upsert_wf(j, ps[0].0, ps[0].1);
        lemma_apply_pairs_wf(jar_upsert(j, ps[0].0, ps[0].1), ps.drop_first());
    }
}

/// Last write wins: after folding a pair list, a name assigned by the list
/// maps to the last value the list assigns to it, and a name the list never
/// assigns keeps its old binding.
pub proof fn lemma_apply_pairs_lookup(j: JarSeq, ps: JarSeq, k: Seq<char>)
    ensures
        jar_lookup(apply_pairs(j, ps), k) == match last_val(ps, k) {
            Some(v) => Some(v),
            None => jar_lookup(j, k),
        },
        jar_find(apply_pairs(j, ps), k) >= 0 <==> (jar_find(j, k) >= 0 || last_val(ps, k)
            is Some),
    decreases ps.len(),
{
    if ps.len() > 0 {
        let j2 = jar_upsert(j, ps[0].0, ps[0].1);
        lemma_upsert_lookup(j, ps[0].0, ps[0].1, k);
        lemma_apply_pairs_lookup(j2, ps.drop_first(), k);
    }
}

/// Every name a pair list mentions is assigned some final value.
pub proof fn lemma_last_val_present(ps: JarSeq, i: int)
    requires
        0 <= i < ps.len(),
    ensures
        last_val(ps, ps[i].0) is Some,
    decreases ps.len(),
{
    if i > 0 {
        assert(ps.drop_first()[i - 1] == ps[i]);
        lemma_last_val_present(ps.drop_first(), i - 1);
    }
}

/// The pointwise image of a jar under the final assignments of a pair list.
pub open spec fn jar_overwrite(f: JarSeq, ps: JarSeq) -> JarSeq {
    Seq::new(
        f.len(),
        |i: int|
            (
                f[i].0,
                match last_val(ps, f[i].0) {
                    Some(v) => v,
                    None => f[i].1,
                },
            ),
    )
}

/// Folding a pair list whose names are all already present only rewrites
/// values in place.
pub proof fn lemma_apply_pairs_full(f: JarSeq, ps: JarSeq)
    requires
        jar_wf(f),
        forall|i: int| 0 <= i < ps.len() ==> jar_find(f, #[trigger] ps[i].0) >= 0,
    ensures
        apply_pairs(f, ps) == jar_overwrite(f, ps),
    decreases ps.len(),
{
    if ps.len() == 0 {
        assert(apply_pairs(f, ps) =~~= jar_overwrite(f, ps));
    } else {
        let k0 = ps[0].0;
        let v0 = ps[0].1;
        let rest = ps.drop_first();
        lemma_jar_find(f, k0);
        let p0 = jar_find(f, k0);
        let f2 = jar_upsert(f, k0, v0);
        assert(f2 == f.update(p0, (k0, v0)));
        assert(f[p0].0 == k0);
        assert(forall|a: int| 0 <= a < f.len() ==> f2[a].0 == f[a].0);
        lemma_upsert_wf(f, k0, v0);
        assert forall|i: int| 0 <= i < rest.len() implies jar_find(f2, #[trigger] rest[i].0)
            >= 0 by {
            assert(rest[i] == ps[i + 1]);
            lemma_upsert_lookup(f, k0, v0, rest[i].0);
        }
        lemma_apply_pairs_full(f2, rest);
        assert forall|i: int| 0 <= i < f.len() implies jar_overwrite(f2, rest)[i]
            == jar_overwrite(f, ps)[i] by {
            let ki = f[i].0;
            assert(ps.drop_first() == rest);
            if last_val(rest, ki) is Some {
            } else {
                if i == p0 {
                    assert(ki == k0);
                } else {
                    assert(f[i].0 != f[p0].0);
                    assert(f2[i] == f[i]);
                }
            }
        }
        assert(jar_overwrite(f2, rest) =~~= jar_overwrite(f, ps));
    }
}

/// Folding any run of headers preserves well-formedness.
pub proof fn lemma_merge_headers_wf(j: JarSeq, hs: Seq<Seq<char>>)
    requires
        jar_wf(j),
    ensures
        jar_wf(merge_headers(j, hs)),
    decreases hs.len(),
{
    if hs.len() > 0 {
        lemma_apply_pairs_wf(j, pairs_of(hs[0]));
        lemma_merge_headers_wf(merge_header(j, hs[0]), hs.drop_first());
    }
}

/// Merging the same header into a jar twice leaves exactly the jar the
/// first merge produced.
pub proof fn lemma_merge_header_idempotent(j: JarSeq, s: Seq<char>)
    requires
        jar_wf(j),
    ensures
        merge_header(merge_header(j, s), s) == merge_header(j, s),
{
    let ps = pairs_of(s);
    let f = apply_pairs(j, ps);
    lemma_apply_pairs_wf(j, ps);
    assert forall|i: int| 0 <= i < ps.len() implies jar_find(f, #[trigger] ps[i].0) >= 0 by {
        lemma_last_val_present(ps, i);
        lemma_apply_pairs_lookup(j, ps, ps[i].0);
    }
    lemma_apply_pairs_full(f, ps);
    assert forall|i: int| 0 <= i < f.len() implies jar_overwrite(f, ps)[i] == f[i] by {
        let ki = f[i].0;
        match last_val(ps, ki) {
            Some(v) => {
                lemma_apply_pairs_lookup(j, ps, ki);
                assert(jar_lookup(f, ki) == Some(v));
                lemma_jar_find(f, ki);
                let fi = jar_find(f, ki);
                if fi != i {
                    assert(f[fi].0 == f[i].0);
                }
                assert(f[i].1 == v);
            },
            None => {},
        }
    }
    assert(jar_overwrite(f, ps) =~~= f);
}

/// Last write wins across two merges: if the second header assigns `k`,
/// the jar afterwards maps `k` to that header's final value for it.
pub proof fn lemma_merge_last_write_wins(j: JarSeq, s1: Seq<char>, s2: Seq<char>, k: Seq<char>)
    requires
        last_val(pairs_of(s2), k) is Some,
    ensures
        jar_lookup(merge_header(merge_header(j, s1), s2), k) == last_val(pairs_of(s2), k),
{
    lemma_apply_pairs_lookup(merge_header(j, s1), pairs_of(s2), k);
}

/// Parse one header segment into the name/value pair it sets.
fn seg_kv(seg: &str) -> (r: (String, String))
    ensures
        (r.0@, r.1@) == parse_seg(seg@),
{
    let n = seg.unicode_len();
    proof {
        assert(seg@.skip(0) =~= seg@);
    }
    match find_char_from(seg, '=', 0) {
        None => {
            let k = String::from_str(trim(seg));
            let v = String::from_str("true");
            (k, v)
        },
        Some(e) => {
            let ks = seg.substring_char(0, e);
            proof {
                assert(ks@ =~= seg@.take(e as int));
            }
            let k = String::from_str(trim(ks));
            let v_end: usize = match find_char_from(seg, '=', e + 1) {
                Some(e2) => e2,
                None => n,
            };
            let vs = seg.substring_char(e + 1, v_end);
            proof {
                let rest = seg@.skip(e + 1);
                if find_char(rest, '=') < 0 {
                    assert(vs@ =~= rest);
                } else {
                    assert(vs@ =~= rest.take(find_char(rest, '=')));
                }
            }
            let v = String::from_str(trim(vs));
            (k, v)
        },
    }
}

/// The session cookie jar: cookie names mapped to values, kept in insertion
/// order, each name held once.
#[derive(Debug)]
pub struct CookieJar {
    entries: Vec<(String, String)>,
}

impl View for CookieJar {
    type V = JarSeq;

    closed spec fn view(&self) -> JarSeq {
        Seq::new(self.entries@.len(), |i: int| (self.entries@[i].0@, self.entries@[i].1@))
    }
}

impl CookieJar {
    /// Whether no cookie name is held twice.
    pub open spec fn wf(&self) -> bool {
        jar_wf(self@)
    }

    /// An empty jar.
    pub fn new() -> (r: CookieJar)
        ensures
            r@ == Seq::<(Seq<char>, Seq<char>)>::empty(),
            r.wf(),
    {
        let r = CookieJar { entries: Vec::new() };
        proof {
            assert(r@ =~= Seq::<(Seq<char>, Seq<char>)>::empty());
        }
        r
    }

    /// Position of the entry named `k`, if one exists.
    fn position_of(&self, k: &String) -> (r: Option<usize>)
        ensures
            match r {
                Some(i) => i < self@.len() && jar_find(self@, k@) == i,
                None => jar_find(self@, k@) < 0,
            },
    {
        let n = self.entries.len();
        let mut i: usize = 0;
        while i < n
            invariant
                0 <= i <= n,
                n == self.entries@.len(),
                forall|a: int| 0 <= a < i ==> self@[a].0 != k@,
            decreases n - i,
        {
            if self.entries[i].0 == *k {
                proof {
                    lemma_jar_find_is(self@, k@, i as int);
                }
                return Some(i);
            }
            i += 1;
        }
        proof {
            lemma_jar_find(self@, k@);
        }
        None
    }

    /// The `Cookie` header value for a request: every entry as `key=value`,
    /// joined with `; ` in insertion order.
    pub fn cookie_header(&self) -> (r: String)
        ensures
            r@ == header_of(self@),
    {
        let mut r = String::new();
        let n = self.entries.len();
        let mut i: usize = 0;
        proof {
            assert(self@.take(0) =~= Seq::<(Seq<char>, Seq<char>)>::empty());
        }
        while i < n
            invariant
                0 <= i <= n,
                n == self.entries@.len(),
                r@ == header_of(self@.take(i as int)),
            decreases n - i,
        {
            if i > 0 {
                r.append("; ");
            }
            r.append(self.entries[i].0.as_str());
            r.append("=");
            r.append(self.entries[i].1.as_str());
            proof {
                let t = self@.take(i + 1);
                assert(t.drop_last() =~= self@.take(i as int));
                assert(t.last() == self@[i as int]);
                assert(r@ =~= header_of(t));
            }
            i += 1;
        }
        proof {
            assert(self@.take(n as int) =~= self@);
        }
        r
    }

    /// Fold one `Set-Cookie` header value into the jar.
    pub fn merge_set_cookie(&mut self, h: &str)
        ensures
            final(self)@ == merge_header(old(self)@, h@),
    {
        let n = h.unicode_len();
        let ghost m = merge_header(old(self)@, h@);
        let mut pos: usize = 0;
        proof {
            assert(h@.skip(0) =~= h@);
        }
        loop
            invariant
                0 <= pos <= n,
                n == h@.len(),
                m == apply_pairs(self@, pairs_of(h@.skip(pos as int))),
                m == merge_header(old(self)@, h@),
            decreases n - pos,
        {
            let ghost before = self@;
            let ghost rem = h@.skip(pos as int);
            match find_char_from(h, ';', pos) {
                Some(t) => {
                    let (k, v) = seg_kv(h.substring_char(pos, t));
                    proof {
                        assert(h@.subrange(pos as int, t as int) =~= rem.take(t - pos));
                        assert(pairs_of(rem)[0] == parse_seg(rem.take(t - pos)));
                        assert(pairs_of(rem).drop_first() =~= pairs_of(rem.skip(t - pos + 1)));
                        assert(rem.skip(t - pos + 1) =~= h@.skip(t + 1));
                    }
                    self.upsert(k, v);
                    pos = t + 1;
                    proof {
                        assert(apply_pairs(before, pairs_of(rem)) == apply_pairs(
                            self@,
                            pairs_of(h@.skip(pos as int)),
                        ));
                    }
                },
                None => {
                    let (k, v) = seg_kv(h.substring_char(pos, n));
                    proof {
                        assert(h@.subrange(pos as int, n as int) =~= rem);
                        assert(pairs_of(rem) =~= seq![parse_seg(rem)]);
                        assert(pairs_of(rem).drop_first() =~= Seq::<(Seq<char>,
                            Seq<char>,
                        )>::empty());
                    }
                    self.upsert(k, v);
                    proof {
                        reveal_with_fuel(apply_pairs, 2);
                        let p = parse_seg(rem);
                        assert(pairs_of(rem)[0] == p);
                        assert(apply_pairs(before, pairs_of(rem)) == apply_pairs(
                            jar_upsert(before, p.0, p.1),
                            pairs_of(rem).drop_first(),
                        ));
                        assert(apply_pairs(before, pairs_of(rem)) == self@);
                    }
                    return;
                },
            }
        }
    }

    /// Fold every `Set-Cookie` header of one response into the jar, in order.
    pub fn merge_set_cookies(&mut self, hs: &Vec<String>)
        ensures
            final(self)@ == merge_headers(old(self)@, strs_model(hs@)),
    {
        let ghost m = merge_headers(old(self)@, hs@.map_values(|x: String| x@));
        proof {
            assert(hs@.map_values(|x: String| x@) =~= strs_model(hs@));
        }
        let n = hs.len();
        let mut i: usize = 0;
        proof {
            assert(hs@.skip(0) =~= hs@);
        }
        while i < n
            invariant
                0 <= i <= n,
                n == hs@.len(),
                m == merge_headers(self@, hs@.skip(i as int).map_values(|x: String| x@)),
                m == merge_headers(old(self)@, hs@.map_values(|x: String| x@)),
            decreases n - i,
        {
            let ghost rem = hs@.skip(i as int).map_values(|x: String| x@);
            proof {
                assert(rem[0] == hs@[i as int]@);
                assert(rem.drop_first() =~= hs@.skip(i as int + 1).map_values(|x: String| x@));
            }
            self.merge_set_cookie(hs[i].as_str());
            i += 1;
        }
        proof {
            assert(hs@.skip(n as int).map_values(|x: String| x@) =~= Seq::<Seq<char>>::empty());
        }
    }

    /// The value stored under the name `k`, if one is held.
    pub fn lookup(&self, k: &str) -> (r: Option<String>)
        ensures
            match r {
                Some(v) => jar_lookup(self@, k@) == Some(v@),
                None => jar_lookup(self@, k@) is None,
            },
    {
        let n = self.entries.len();
        let mut i: usize = 0;
        while i < n
            invariant
                0 <= i <= n,
                n == self.entries@.len(),
                forall|a: int| 0 <= a < i ==> self@[a].0 != k@,
            decreases n - i,
        {
            if str_eq(self.entries[i].0.as_str(), k) {
                proof {
                    lemma_jar_find_is(self@, k@, i as int);
                }
                return Some(self.entries[i].1.clone());
            }
            i += 1;
        }
        proof {
            lemma_jar_find(self@, k@);
        }
        None
    }

    /// Insert or overwrite one cookie.
    pub fn upsert(&mut self, k: String, v: String)
        ensures
            final(self)@ == jar_upsert(old(self)@, k@, v@),
    {
        match self.position_of(&k) {
            Some(i) => {
                self.entries[i] = (k, v);
                proof {
                    assert(self@ =~~= jar_upsert(old(self)@, k@, v@));
                }
            },
            None => {
                self.entries.push((k, v));
                proof {
                    assert(self@ =~~= jar_upsert(old(self)@, k@, v@));
                }
            },
        }
    }
}

} // verus!
