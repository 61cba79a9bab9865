use vstd::prelude::*;

verus! {

/// `n` occurs verbatim somewhere inside `h`.
pub open spec fn contains_seq(h: Seq<char>, n: Seq<char>) -> bool {
    exists|i: int|
        0 <= i <= h.len() - n.len() && #[trigger] h.subrange(i, i + n.len() as int) == n
}

/// The needle matches `h` at position `at`.
fn str_matches_at(h: &str, n: &str, at: usize) -> (r: bool)
    requires
        at + n@.len() <= h@.len(),
    ensures
        r == (h@.subrange(at as int, at as int + n@.len() as int) == n@),
{
    let hl = h.unicode_len();
    let nl = n.unicode_len();
    let mut j: usize = 0;
    while j < nl
        invariant
            hl == h@.len(),
            nl == n@.len(),
            at + nl <= hl,
            j <= nl,
            forall|k: int| 0 <= k < j as int ==> h@[at + k] == n@[k],
        decreases nl - j,
    {
        if h.get_char(at + j) != n.get_char(j) {
            proof {
                let sub = h@.subrange(at as int, at as int + n@.len() as int);
                assert(sub[j as int] == h@[at + j as int]);
            }
            return false;
        }
        j += 1;
    }
    proof {
        assert(h@.subrange(at as int, at as int + n@.len() as int) =~= n@);
    }
    true
}

/// Substring search, specified against `contains_seq`.
pub fn str_contains(h: &str, n: &str) -> (r: bool)
    ensures
        r == contains_seq(h@, n@),
{
    let hl = h.unicode_len();
    let nl = n.unicode_len();
    if nl > hl {
        return false;
    }
    if nl == 0 {
        proof {
            assert(h@.subrange(0, 0 + n@.len() as int) =~= n@);
            assert(contains_seq(h@, n@));
        }
        return true;
    }
    let bound = hl - nl;
    let mut i: usize = 0;
    while i <= bound
        invariant
            hl == h@.len(),
            nl == n@.len(),
            0 < nl <= hl,
            bound == hl - nl,
            i <= bound + 1,
            forall|k: int|
                0 <= k < i as int ==> #[trigger] h@.subrange(k, k + n@.len() as int) != n@,
        decreases bound + 1 - i,
    {
        if str_matches_at(h, n, i) {
            assert(contains_seq(h@, n@)) by {
                assert(h@.subrange(i as int, i as int + n@.len() as int) == n@);
            }
            return true;
        }
        i += 1;
    }
    false
}

/// Character-wise string equality, specified against the views.
pub fn eq_str(a: &str, b: &str) -> (r: bool)
    ensures
        r == (a@ == b@),
{
    let al = a.unicode_len();
    let bl = b.unicode_len();
    if al != bl {
        return false;
    }
    let mut i: usize = 0;
    while i < al
        invariant
            al == a@.len(),
            al == b@.len(),
            i <= al,
            forall|k: int| 0 <= k < i as int ==> a@[k] == b@[k],
        decreases al - i,
    {
        if a.get_char(i) != b.get_char(i) {
            return false;
        }
        i += 1;
    }
    proof {
        assert(a@ =~= b@);
    }
    true
}

/// The Unicode white-space characters, as `str::trim` strips them.
pub open spec fn is_space_char(c: char) -> bool {
    let u = c as u32;
    ||| (0x9 <= u && u <= 0xD)
    ||| u == 0x20
    ||| u == 0x85
    ||| u == 0xA0
    ||| u == 0x1680
    ||| (0x2000 <= u && u <= 0x200A)
    ||| u == 0x2028
    ||| u == 0x2029
    ||| u == 0x202F
    ||| u == 0x205F
    ||| u == 0x3000
}

/// `s` with leading and trailing whitespace removed.
pub open spec fn trimmed(s: Seq<char>) -> Seq<char>
    decreases s.len(),
{
    if s.len() == 0 {
        s
    } else if is_space_char(s[0]) {
        trimmed(s.drop_first())
    } else if is_space_char(s[s.len() - 1]) {
        trimmed(s.drop_last())
    } else {
        s
    }
}

proof fn lemma_trimmed_all_space(s: Seq<char>)
    requires
        forall|j: int| 0 <= j < s.len() ==> is_space_char(#[trigger] s[j]),
    ensures
        trimmed(s).len() == 0,
    decreases s.len(),
{
    if s.len() > 0 {
        lemma_trimmed_all_space(s.drop_first());
    }
}

proof fn lemma_trimmed_subrange(s: Seq<char>, a: int, b: int)
    requires
        0 <= a <= b < s.len(),
        forall|j: int| 0 <= j < a ==> is_space_char(#[trigger] s[j]),
        forall|j: int| b < j < s.len() ==> is_space_char(#[trigger] s[j]),
        !is_space_char(s[a]),
        !is_space_char(s[b]),
    ensures
        trimmed(s) == s.subrange(a, b + 1),
    decreases s.len(),
{
    if a > 0 {
        lemma_trimmed_subrange(s.drop_first(), a - 1, b - 1);
        assert(s.drop_first().subrange(a - 1, b) =~= s.subrange(a, b + 1));
    } else if b < s.len() - 1 {
        lemma_trimmed_subrange(s.drop_last(), a, b);
        assert(s.drop_last().subrange(a, b + 1) =~= s.subrange(a, b + 1));
    } else {
        assert(s.subrange(0, s.len() as int) =~= s);
    }
}

fn is_space(c: char) -> (r: bool)
    ensures
        r == is_space_char(c),
{
    let u = c as u32;
    (0x9 <= u && u <= 0xD) || u == 0x20 || u == 0x85 || u == 0xA0 || u == 0x1680 || (0x2000 <= u
        && u <= 0x200A) || u == 0x2028 || u == 0x2029 || u == 0x202F || u == 0x205F || u == 0x3000
}

/// `s` with surrounding whitespace removed, as a fresh `String`.
pub fn trim_str(s: &str) -> (r: String)
    ensures
        r@ == trimmed(s@),
{
    let l = s.unicode_len();
    let mut a: usize = 0;
    while a < l && is_space(s.get_char(a))
        invariant
            l == s@.len(),
            a <= l,
            forall|j: int| 0 <= j < a as int ==> is_space_char(#[trigger] s@[j]),
        decreases l - a,
    {
        a += 1;
    }
    if a == l {
        proof {
            lemma_trimmed_all_space(s@);
            assert(trimmed(s@) =~= Seq::<char>::empty());
        }
        return String::new();
    }
    let mut b: usize = l - 1;
    while is_space(s.get_char(b))
        invariant
            l == s@.len(),
            a < l,
            a <= b < l,
            !is_space_char(s@[a as int]),
            forall|j: int| b < j < l as int ==> is_space_char(#[trigger] s@[j]),
        decreases b,
    {
        b -= 1;
    }
    let sub = s.substring_char(a, b + 1);
    proof {
        lemma_trimmed_subrange(s@, a as int, b as int);
    }
    sub.to_owned()
}

/// The elements of `parts` joined with `sep` between consecutive elements.
pub open spec fn joined(parts: Seq<Seq<char>>, sep: Seq<char>) -> Seq<char>
    decreases parts.len(),
{
    if parts.len() == 0 {
        Seq::empty()
    } else if parts.len() == 1 {
        parts[0]
    } else {
        joined(parts.drop_last(), sep) + sep + parts.last()
    }
}

/// Joins the strings of `parts`, separated by `sep`.
pub fn join_all(parts: &Vec<String>, sep: &str) -> (r: String)
    ensures
        r@ == joined(parts@.map_values(|p: String| p@), sep@),
{
    let ghost pv = parts@.map_values(|p: String| p@);
    let mut r = String::new();
    let mut i: usize = 0;
    while i < parts.len()
        invariant
            pv == parts@.map_values(|p: String| p@),
            i <= parts.len(),
            pv.len() == parts@.len(),
            r@ == joined(pv.take(i as int), sep@),
        decreases parts.len() - i,
    {
        if i > 0 {
            r.append(sep);
        }
        r.append(parts[i].as_str());
        proof {
            let t = pv.take(i as int + 1);
            if i == 0 {
                assert(t.len() == 1);
                assert(joined(t, sep@) == t[0]);
                assert(Seq::<char>::empty() + pv[0] =~= pv[0]);
            } else {
                assert(t.drop_last() =~= pv.take(i as int));
                assert(t.last() == pv[i as int]);
            }
        }
        i += 1;
    }
    proof {
        assert(pv.take(parts@.len() as int) =~= pv);
    }
    r
}

/// A sequence flanked by any two others is contained in the concatenation.
pub proof fn lemma_concat_contains_middle(a: Seq<char>, b: Seq<char>, c: Seq<char>)
    ensures
        contains_seq(a + b + c, b),
{
    let s = a + b + c;
    assert(s.subrange(a.len() as int, a.len() as int + b.len() as int) =~= b);
    assert(contains_seq(s, b));
}

/// The larger of two timestamps.
pub open spec fn max2(a: int, b: int) -> int {
    if a >= b {
        a
    } else {
        b
    }
}

/// Executable counterpart of `max2`.
pub fn max_i64(a: i64, b: i64) -> (r: i64)
    ensures
        r as int == max2(a as int, b as int),
{
    if a >= b {
        a
    } else {
        b
    }
}

} // verus!
