use vstd::prelude::*;

verus! {

/// `c` is whitespace: a character of Unicode's `White_Space` property.
pub open spec fn is_space(c: char) -> bool {
    let u = c as u32;
    (0x09 <= u <= 0x0D) || u == 0x20 || u == 0x85 || u == 0xA0 || u == 0x1680 || (0x2000 <= u
        <= 0x200A) || u == 0x2028 || u == 0x2029 || u == 0x202F || u == 0x205F || u == 0x3000
}

fn space(c: char) -> (r: bool)
    ensures
        r == is_space(c),
{
    let u = c as u32;
    (0x09 <= u && u <= 0x0D) || u == 0x20 || u == 0x85 || u == 0xA0 || u == 0x1680 || (0x2000 <= u
        && u <= 0x200A) || u == 0x2028 || u == 0x2029 || u == 0x202F || u == 0x205F || u == 0x3000
}

/// The characters of `s` with every whitespace character left out.
pub open spec fn strip_spaces(s: Seq<char>) -> Seq<char>
    decreases s.len(),
{
    if s.len() == 0 {
        Seq::empty()
    } else {
        let r = strip_spaces(s.drop_last());
        if is_space(s.last()) {
            r
        } else {
            r.push(s.last())
        }
    }
}

pub open spec fn has_prefix(s: Seq<char>, p: Seq<char>) -> bool {
    p.len() <= s.len() && s.subrange(0, p.len() as int) == p
}

pub open spec fn has_suffix(s: Seq<char>, p: Seq<char>) -> bool {
    p.len() <= s.len() && s.subrange(s.len() - p.len(), s.len() as int) == p
}

pub fn without_spaces(s: &str) -> (r: Vec<char>)
    ensures
        r@ == strip_spaces(s@),
{
    let n = s.unicode_len();
    let mut r: Vec<char> = Vec::new();
    let mut i: usize = 0;
    while i < n
        invariant
            n == s@.len(),
            i <= n,
            r@ == strip_spaces(s@.subrange(0, i as int)),
        decreases n - i,
    {
        let c = s.get_char(i);
        proof {
            assert(s@.subrange(0, i + 1).drop_last() == s@.subrange(0, i as int));
        }
        if !space(c) {
            r.push(c);
        }
        i += 1;
    }
    proof {
        assert(s@.subrange(0, n as int) == s@);
    }
    r
}

pub fn str_has_prefix(s: &str, p: &str) -> (r: bool)
    ensures
        r == has_prefix(s@, p@),
{
    let n = s.unicode_len();
    let m = p.unicode_len();
    if m > n {
        return false;
    }
    let mut i: usize = 0;
    while i < m
        invariant
            n == s@.len(),
            m == p@.len(),
            m <= n,
            i <= m,
            forall|j: int| 0 <= j < i ==> s@[j] == p@[j],
        decreases m - i,
    {
        if s.get_char(i) != p.get_char(i) {
            proof {
                assert(s@.subrange(0, m as int)[i as int] != p@[i as int]);
            }
            return false;
        }
        i += 1;
    }
    proof {
        assert(s@.subrange(0, m as int) =~= p@);
    }
    true
}

pub fn str_equal(s: &str, p: &str) -> (r: bool)
    ensures
        r == (s@ == p@),
{
    if s.unicode_len() != p.unicode_len() {
        return false;
    }
    let r = str_has_prefix(s, p);
    proof {
        assert(s@.subrange(0, s@.len() as int) =~= s@);
    }
    r
}

pub fn chars_have_suffix(v: &Vec<char>, p: &str) -> (r: bool)
    ensures
        r == has_suffix(v@, p@),
{
    let n = v.len();
    let m = p.unicode_len();
    if m > n {
        return false;
    }
    let off = n - m;
    let mut i: usize = 0;
    while i < m
        invariant
            n == v@.len(),
            m == p@.len(),
            off == n - m,
            i <= m,
            forall|j: int| 0 <= j < i ==> v@[off + j] == p@[j],
        decreases m - i,
    {
        if v[off + i] != p.get_char(i) {
            proof {
                assert(v@.subrange(off as int, n as int)[i as int] != p@[i as int]);
            }
            return false;
        }
        i += 1;
    }
    proof {
        assert(v@.subrange(off as int, n as int) =~= p@);
    }
    true
}

pub fn chars_equal(v: &Vec<char>, p: &str) -> (r: bool)
    ensures
        r == (v@ == p@),
{
    if v.len() != p.unicode_len() {
        return false;
    }
    let r = chars_have_suffix(v, p);
    proof {
        assert(v@.subrange(0, v@.len() as int) =~= v@);
    }
    r
}

} // verus!
