//! Small verified utilities over byte strings: prefix and substring
//! tests, concatenation, and whitespace tokenizing.
use vstd::prelude::*;

verus! {

/// Whether `n` occurs as a contiguous substring of `h`.
pub open spec fn contains_sub(h: Seq<u8>, n: Seq<u8>) -> bool {
    exists|i: int| 0 <= i <= h.len() - n.len() && #[trigger] h.subrange(i, i + n.len()) == n
}

/// Whether `n` is a prefix of `h`.
pub open spec fn has_prefix(h: Seq<u8>, n: Seq<u8>) -> bool {
    n.len() <= h.len() && h.subrange(0, n.len() as int) == n
}

/// Whether the bytes of `h` starting at `i` match `n`.
fn matches_at(h: &[u8], n: &[u8], i: usize) -> (r: bool)
    requires
        0 <= i,
        i + n@.len() <= h@.len(),
    ensures
        r == (h@.subrange(i as int, i + n@.len()) == n@),
{
    let hl = h.len();
    proof {
        assert(h@.len() == hl as int);
    }
    let mut k: usize = 0;
    while k < n.len()
        invariant
            0 <= k <= n@.len(),
            i + n@.len() <= h@.len(),
            h@.len() <= usize::MAX,
            forall|j: int| 0 <= j < k ==> h@[i + j] == n@[j],
        decreases n@.len() - k,
    {
        if h[i + k] != n[k] {
            proof {
                assert(h@.subrange(i as int, i + n@.len())[k as int] != n@[k as int]);
            }
            return false;
        }
        k = k + 1;
    }
    proof {
        assert(h@.subrange(i as int, i + n@.len()) =~= n@);
    }
    true
}

/// Whether the bytes of `h` starting at `i` match `n`.
pub fn bytes_matches_at(h: &[u8], n: &[u8], i: usize) -> (r: bool)
    requires
        0 <= i,
        i + n@.len() <= h@.len(),
    ensures
        r == (h@.subrange(i as int, i + n@.len()) == n@),
{
    matches_at(h, n, i)
}

/// Appends the bytes of `src` between `from` and `to` to `dst`.
pub fn bytes_extend_range(dst: &mut Vec<u8>, src: &[u8], from: usize, to: usize)
    requires
        0 <= from <= to,
        to <= src@.len(),
    ensures
        final(dst)@ == old(dst)@ + src@.subrange(from as int, to as int),
{
    let ghost d0 = dst@;
    let sl = src.len();
    proof {
        assert(src@.len() == sl as int);
        assert(d0 + src@.subrange(from as int, from as int) =~= d0);
    }
    let mut k: usize = from;
    while k < to
        invariant
            from <= k <= to,
            to <= src@.len(),
            src@.len() <= usize::MAX,
            dst@ == d0 + src@.subrange(from as int, k as int),
        decreases to - k,
    {
        dst.push(src[k]);
        proof {
            assert(dst@ =~= d0 + src@.subrange(from as int, k + 1));
        }
        k = k + 1;
    }
    proof {
        assert(dst@ =~= d0 + src@.subrange(from as int, to as int));
    }
}

/// Whether `n` is a prefix of `h`.
pub fn bytes_starts_with(h: &[u8], n: &[u8]) -> (r: bool)
    ensures
        r == has_prefix(h@, n@),
{
    if n.len() > h.len() {
        return false;
    }
    matches_at(h, n, 0)
}

/// Whether `n` occurs anywhere in `h`.
pub fn bytes_contains(h: &[u8], n: &[u8]) -> (r: bool)
    ensures
        r == contains_sub(h@, n@),
{
    if n.len() > h.len() {
        proof {
            assert(!contains_sub(h@, n@));
        }
        return false;
    }
    if n.len() == 0 {
        proof {
            assert(h@.subrange(0, 0 + n@.len() as int) =~= n@);
        }
        return true;
    }
    let mut i: usize = 0;
    while i <= h.len() - n.len()
        invariant
            1 <= n@.len() <= h@.len(),
            0 <= i <= h@.len() - n@.len() + 1,
            forall|j: int| 0 <= j < i ==> #[trigger] h@.subrange(j, j + n@.len()) != n@,
        decreases h@.len() - n@.len() - i + 1,
    {
        if matches_at(h, n, i) {
            return true;
        }
        i = i + 1;
    }
    false
}

/// Appends all of `src` to `dst`.
pub fn bytes_extend(dst: &mut Vec<u8>, src: &[u8])
    ensures
        final(dst)@ == old(dst)@ + src@,
{
    let ghost d0 = dst@;
    let mut k: usize = 0;
    while k < src.len()
        invariant
            0 <= k <= src@.len(),
            dst@ == d0 + src@.subrange(0, k as int),
        decreases src@.len() - k,
    {
        dst.push(src[k]);
        k = k + 1;
    }
    proof {
        assert(dst@ =~= d0 + src@);
    }
}

/// Whether `b` is an ASCII whitespace byte: space, tab, line feed, form
/// feed or carriage return.
pub open spec fn is_ascii_whitespace(b: u8) -> bool {
    b == 0x20 || b == 0x09 || b == 0x0A || b == 0x0C || b == 0x0D
}

fn is_whitespace_byte(b: u8) -> (r: bool)
    ensures
        r == is_ascii_whitespace(b),
{
    b == 0x20 || b == 0x09 || b == 0x0A || b == 0x0C || b == 0x0D
}

/// The first whitespace-delimited token of `s`: the bytes from the first
/// non-whitespace byte up to the next whitespace byte.  `None` when `s`
/// is all whitespace or empty.
pub open spec fn spec_first_token(s: Seq<u8>) -> Option<Seq<u8>>
    decreases s.len(),
{
    if s.len() == 0 {
        None
    } else if is_ascii_whitespace(s[0]) {
        spec_first_token(s.subrange(1, s.len() as int))
    } else {
        Some(spec_token_from(s))
    }
}

/// The longest non-whitespace prefix of `s`.
pub open spec fn spec_token_from(s: Seq<u8>) -> Seq<u8>
    decreases s.len(),
{
    if s.len() == 0 || is_ascii_whitespace(s[0]) {
        Seq::empty()
    } else {
        seq![s[0]] + spec_token_from(s.subrange(1, s.len() as int))
    }
}

/// Extracts the first whitespace-delimited token, tolerating tool output
/// such as a hash followed by a file name.
pub fn first_whitespace_token(s: &[u8]) -> (r: Option<Vec<u8>>)
    ensures
        match r {
            Some(t) => spec_first_token(s@) == Some(t@),
            None => spec_first_token(s@) is None,
        },
{
    let mut i: usize = 0;
    proof {
        assert(s@.subrange(0, s@.len() as int) =~= s@);
    }
    while i < s.len() && is_whitespace_byte(s[i])
        invariant
            0 <= i <= s@.len(),
            spec_first_token(s@) == spec_first_token(s@.subrange(i as int, s@.len() as int)),
            forall|j: int| 0 <= j < i ==> is_ascii_whitespace(s@[j]),
        decreases s@.len() - i,
    {
        proof {
            let tail = s@.subrange(i as int, s@.len() as int);
            assert(tail[0] == s@[i as int]);
            assert(tail.subrange(1, tail.len() as int) =~= s@.subrange(
                i + 1,
                s@.len() as int,
            ));
        }
        i = i + 1;
    }
    if i == s.len() {
        proof {
            assert(s@.subrange(i as int, s@.len() as int) =~= Seq::<u8>::empty());
        }
        return None;
    }
    let start = i;
    let mut out: Vec<u8> = Vec::new();
    while i < s.len() && !is_whitespace_byte(s[i])
        invariant
            0 <= start <= i <= s@.len(),
            out@ == s@.subrange(start as int, i as int),
            forall|j: int| start <= j < i ==> !is_ascii_whitespace(s@[j]),
        decreases s@.len() - i,
    {
        out.push(s[i]);
        proof {
            assert(out@ =~= s@.subrange(start as int, i + 1));
        }
        i = i + 1;
    }
    proof {
        let tail = s@.subrange(start as int, s@.len() as int);
        lemma_token_from_prefix(tail, (i - start) as int);
        assert(tail.subrange(0, i - start) =~= s@.subrange(start as int, i as int));
        assert(tail.len() > 0 && !is_ascii_whitespace(tail[0]));
        assert(spec_first_token(s@) == spec_first_token(tail));
        assert(spec_first_token(tail) == Some(spec_token_from(tail)));
    }
    Some(out)
}

/// The longest non-whitespace prefix of `s` is its first `k` bytes when
/// those are non-whitespace and what follows is the end or whitespace.
proof fn lemma_token_from_prefix(s: Seq<u8>, k: int)
    requires
        0 <= k <= s.len(),
        forall|j: int| 0 <= j < k ==> !is_ascii_whitespace(s[j]),
        k == s.len() || is_ascii_whitespace(s[k]),
    ensures
        spec_token_from(s) == s.subrange(0, k),
    decreases s.len(),
{
    if k == 0 {
        assert(s.subrange(0, 0) =~= Seq::<u8>::empty());
    } else {
        let tail = s.subrange(1, s.len() as int);
        assert forall|j: int| 0 <= j < k - 1 implies !is_ascii_whitespace(tail[j]) by {
            assert(tail[j] == s[j + 1]);
        }
        if k - 1 < tail.len() {
            assert(tail[k - 1] == s[k as int]);
        }
        lemma_token_from_prefix(tail, k - 1);
        assert(s.subrange(0, k) =~= seq![s[0]] + tail.subrange(0, k - 1));
    }
}

} // verus!
