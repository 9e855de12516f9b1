//! Character-level utilities shared by the prompt builder, the response
//! extractor and the context codecs: converting between strings and
//! character vectors, string equality, substring search, and trimming.

use vstd::prelude::*;

verus! {

/// Relies on std's String::push: appends exactly one character.
#[verifier::external_body]
pub(crate) fn push_char(s: &mut String, c: char)
    ensures
        final(s)@ == old(s)@.push(c),
{
    s.push(c);
}

/// The characters of `s`, one vector element per character.
pub fn str_to_chars(s: &str) -> (r: Vec<char>)
    ensures
        r@ == s@,
{
    let n = s.unicode_len();
    let mut r: Vec<char> = Vec::new();
    let mut i: usize = 0;
    while i < n
        invariant
            n == s@.len(),
            i <= n,
            r@ == s@.take(i as int),
        decreases n - i,
    {
        r.push(s.get_char(i));
        i = i + 1;
        proof {
            assert(r@ =~= s@.take(i as int));
        }
    }
    proof {
        assert(s@.take(n as int) =~= s@);
    }
    r
}

/// The characters `v[from..to]`, collected into a string.
pub fn chars_range_to_string(v: &Vec<char>, from: usize, to: usize) -> (r: String)
    requires
        from <= to <= v@.len(),
    ensures
        r@ == v@.subrange(from as int, to as int),
{
    let mut r = String::new();
    let mut i: usize = from;
    while i < to
        invariant
            from <= i <= to <= v@.len(),
            r@ == v@.subrange(from as int, i as int),
        decreases to - i,
    {
        push_char(&mut r, v[i]);
        i = i + 1;
        proof {
            assert(r@ =~= v@.subrange(from as int, i as int));
        }
    }
    r
}

/// True exactly when the two strings hold the same characters.
pub fn str_eq(a: &str, b: &str) -> (r: bool)
    ensures
        r == (a@ == b@),
{
    let na = a.unicode_len();
    let nb = b.unicode_len();
    if na != nb {
        return false;
    }
    let mut i: usize = 0;
    while i < na
        invariant
            na == a@.len(),
            na == b@.len(),
            i <= na,
            forall|k: int| 0 <= k < i ==> a@[k] == b@[k],
        decreases na - i,
    {
        if a.get_char(i) != b.get_char(i) {
            return false;
        }
        i = i + 1;
    }
    proof {
        assert(a@ =~= b@);
    }
    true
}

/// The pattern `pat` occurs in `s` starting at index `i`.
pub open spec fn has_sub_at(s: Seq<char>, pat: Seq<char>, i: int) -> bool {
    0 <= i && i + pat.len() <= s.len() && s.subrange(i, i + pat.len()) == pat
}

/// The first index at or after `from` where `pat` occurs in `s`, if any.
/// A pattern without characters is treated as absent.
pub open spec fn find_spec(s: Seq<char>, pat: Seq<char>, from: int) -> Option<int>
    decreases s.len() - from when from >= 0
{
    if from < 0 || pat.len() == 0 {
        None
    } else if from + pat.len() > s.len() {
        None
    } else if s.subrange(from, from + pat.len()) == pat {
        Some(from)
    } else {
        find_spec(s, pat, from + 1)
    }
}

/// `find_spec` returns the first occurrence at or after `from`, and `None`
/// exactly when there is no occurrence there.
pub proof fn lemma_find_spec_characterization(s: Seq<char>, pat: Seq<char>, from: int)
    requires
        from >= 0,
        pat.len() >= 1,
    ensures
        find_spec(s, pat, from) matches Some(i) ==> from <= i && has_sub_at(s, pat, i)
            && (forall|j: int| from <= j < i ==> !has_sub_at(s, pat, j)),
        find_spec(s, pat, from) is None ==> (forall|j: int| from <= j ==> !has_sub_at(s, pat, j)),
    decreases s.len() - from
{
    if from + pat.len() > s.len() {
        assert forall|j: int| from <= j implies !has_sub_at(s, pat, j) by {}
    } else if s.subrange(from, from + pat.len()) == pat {
    } else {
        lemma_find_spec_characterization(s, pat, from + 1);
        assert(!has_sub_at(s, pat, from));
    }
}

/// If `pat` occurs at `at` and nowhere in `[from, at)`, the search finds `at`.
pub proof fn lemma_find_spec_exact(s: Seq<char>, pat: Seq<char>, from: int, at: int)
    requires
        0 <= from <= at,
        pat.len() >= 1,
        has_sub_at(s, pat, at),
        forall|j: int| from <= j < at ==> !has_sub_at(s, pat, j),
    ensures
        find_spec(s, pat, from) == Some(at),
    decreases at - from
{
    if from == at {
    } else {
        assert(!has_sub_at(s, pat, from));
        lemma_find_spec_exact(s, pat, from + 1, at);
        assert(find_spec(s, pat, from) == find_spec(s, pat, from + 1));
    }
}

/// The first occurrence of `pat` in `hay` at or after `from`.
pub fn find_from(hay: &Vec<char>, pat: &Vec<char>, from: usize) -> (r: Option<usize>)
    requires
        pat@.len() >= 1,
    ensures
        r matches Some(i) ==> find_spec(hay@, pat@, from as int) == Some(i as int),
        r is None ==> find_spec(hay@, pat@, from as int) is None,
{
    let n = hay.len();
    let m = pat.len();
    if m > n || from > n - m {
        proof {
            lemma_find_none_when_out_of_room(hay@, pat@, from as int);
        }
        return None;
    }
    let mut i: usize = from;
    while i <= n - m
        invariant
            n == hay@.len(),
            m == pat@.len(),
            1 <= m <= n,
            from <= i,
            find_spec(hay@, pat@, from as int) == find_spec(hay@, pat@, i as int),
        decreases n - i,
    {
        let mut j: usize = 0;
        let mut ok = true;
        while ok && j < m
            invariant
                n == hay@.len(),
                m == pat@.len(),
                i + m <= n,
                j <= m,
                ok ==> hay@.subrange(i as int, i + j) == pat@.subrange(0, j as int),
                !ok ==> !has_sub_at(hay@, pat@, i as int),
            decreases m - j + (if ok { 1int } else { 0int }),
        {
            if hay[i + j] != pat[j] {
                proof {
                    if has_sub_at(hay@, pat@, i as int) {
                        assert(hay@.subrange(i as int, i + m)[j as int] == hay@[i + j]);
                        assert(pat@[j as int] == hay@[i + j]);
                    }
                }
                ok = false;
            } else {
                proof {
                    assert(hay@.subrange(i as int, i + j + 1) =~= hay@.subrange(i as int, i + j).push(hay@[i + j]));
                    assert(pat@.subrange(0, j + 1) =~= pat@.subrange(0, j as int).push(pat@[j as int]));
                }
                j = j + 1;
            }
        }
        if ok {
            proof {
                assert(hay@.subrange(i as int, i + m) == pat@.subrange(0, m as int));
                assert(pat@.subrange(0, m as int) =~= pat@);
                assert(has_sub_at(hay@, pat@, i as int));
            }
            return Some(i);
        }
        proof {
            assert(find_spec(hay@, pat@, i as int) == find_spec(hay@, pat@, i + 1));
        }
        i = i + 1;
    }
    proof {
        assert(find_spec(hay@, pat@, i as int) is None);
    }
    None
}

proof fn lemma_find_none_when_out_of_room(s: Seq<char>, pat: Seq<char>, from: int)
    requires
        from >= 0,
        pat.len() >= 1,
        from + pat.len() > s.len(),
    ensures
        find_spec(s, pat, from) is None,
{
}

/// White space as the standard library's trim sees it: the Unicode
/// White_Space characters.
pub open spec fn is_wsp(c: char) -> bool {
    let u = c as u32;
    u == 0x09 || u == 0x0A || u == 0x0B || u == 0x0C || u == 0x0D || u == 0x20 || u == 0x85
        || u == 0xA0 || u == 0x1680 || (0x2000 <= u && u <= 0x200A) || u == 0x2028 || u == 0x2029
        || u == 0x202F || u == 0x205F || u == 0x3000
}

/// Whether `c` counts as white space for trimming.
pub fn is_wsp_char(c: char) -> (r: bool)
    ensures
        r == is_wsp(c),
{
    let u = c as u32;
    u == 0x09 || u == 0x0A || u == 0x0B || u == 0x0C || u == 0x0D || u == 0x20 || u == 0x85
        || u == 0xA0 || u == 0x1680 || (0x2000 <= u && u <= 0x200A) || u == 0x2028 || u == 0x2029
        || u == 0x202F || u == 0x205F || u == 0x3000
}

/// `s` without its leading white space.
pub open spec fn trim_start_spec(s: Seq<char>) -> Seq<char>
    decreases s.len()
{
    if s.len() > 0 && is_wsp(s[0]) {
        trim_start_spec(s.drop_first())
    } else {
        s
    }
}

/// `s` without its trailing white space.
pub open spec fn trim_end_spec(s: Seq<char>) -> Seq<char>
    decreases s.len()
{
    if s.len() > 0 && is_wsp(s[s.len() - 1]) {
        trim_end_spec(s.drop_last())
    } else {
        s
    }
}

/// `s` without leading and trailing white space, as the standard trim
/// returns it.
pub open spec fn trim_spec(s: Seq<char>) -> Seq<char> {
    trim_end_spec(trim_start_spec(s))
}

/// The characters `v[from..to]`, trimmed of white space at both ends and
/// collected into a string.
pub fn trim_range_to_string(v: &Vec<char>, from: usize, to: usize) -> (r: String)
    requires
        from <= to <= v@.len(),
    ensures
        r@ == trim_spec(v@.subrange(from as int, to as int)),
{
    let ghost whole = v@.subrange(from as int, to as int);
    let mut a: usize = from;
    while a < to && is_wsp_char(v[a])
        invariant
            from <= a <= to <= v@.len(),
            trim_start_spec(whole) == trim_start_spec(v@.subrange(a as int, to as int)),
            whole == v@.subrange(from as int, to as int),
        decreases to - a,
    {
        proof {
            assert(v@.subrange(a as int, to as int).drop_first() =~= v@.subrange(a + 1, to as int));
        }
        a = a + 1;
    }
    proof {
        assert(trim_start_spec(whole) == v@.subrange(a as int, to as int));
    }
    let mut b: usize = to;
    while b > a && is_wsp_char(v[b - 1])
        invariant
            from <= a <= b <= to <= v@.len(),
            trim_end_spec(v@.subrange(a as int, to as int)) == trim_end_spec(v@.subrange(a as int, b as int)),
        decreases b - a,
    {
        proof {
            assert(v@.subrange(a as int, b as int).drop_last() =~= v@.subrange(a as int, b - 1));
        }
        b = b - 1;
    }
    proof {
        assert(trim_end_spec(v@.subrange(a as int, b as int)) == v@.subrange(a as int, b as int));
    }
    chars_range_to_string(v, a, b)
}

/// `s` trimmed of white space at both ends.
pub fn trim_str(s: &str) -> (r: String)
    ensures
        r@ == trim_spec(s@),
{
    let v = str_to_chars(s);
    let n = v.len();
    proof {
        assert(v@.subrange(0, n as int) =~= s@);
    }
    trim_range_to_string(&v, 0, n)
}

/// The characters `v[from..to]`, copied into a new vector.
pub fn subvec(v: &Vec<char>, from: usize, to: usize) -> (r: Vec<char>)
    requires
        from <= to <= v@.len(),
    ensures
        r@ == v@.subrange(from as int, to as int),
{
    let mut r: Vec<char> = Vec::new();
    let mut i: usize = from;
    while i < to
        invariant
            from <= i <= to <= v@.len(),
            r@ == v@.subrange(from as int, i as int),
        decreases to - i,
    {
        r.push(v[i]);
        i = i + 1;
        proof {
            assert(r@ =~= v@.subrange(from as int, i as int));
        }
    }
    r
}

} // verus!
