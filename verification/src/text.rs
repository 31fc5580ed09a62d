//! Whitespace and trimming over sequences of characters.

use vstd::prelude::*;

verus! {

/// Whether `c` is one of the code points that Unicode gives the property
/// `White_Space`.
pub open spec fn is_whitespace(c: char) -> bool {
    let n = c as u32;
    ||| 0x09 <= n <= 0x0D
    ||| n == 0x20
    ||| n == 0x85
    ||| n == 0xA0
    ||| n == 0x1680
    ||| 0x2000 <= n <= 0x200A
    ||| n == 0x2028
    ||| n == 0x2029
    ||| n == 0x202F
    ||| n == 0x205F
    ||| n == 0x3000
}

/// `s` without its leading whitespace.
pub open spec fn trim_start(s: Seq<char>) -> Seq<char>
    decreases s.len(),
{
    if s.len() > 0 && is_whitespace(s.first()) {
        trim_start(s.drop_first())
    } else {
        s
    }
}

/// `s` without its trailing whitespace.
pub open spec fn trim_end(s: Seq<char>) -> Seq<char>
    decreases s.len(),
{
    if s.len() > 0 && is_whitespace(s.last()) {
        trim_end(s.drop_last())
    } else {
        s
    }
}

/// `s` without its leading and trailing whitespace. Whitespace between two
/// other characters stays.
pub open spec fn trimmed(s: Seq<char>) -> Seq<char> {
    trim_end(trim_start(s))
}

/// Decides [`is_whitespace`].
pub fn whitespace(c: char) -> (b: bool)
    ensures
        b == is_whitespace(c),
{
    let n: u32 = c as u32;
    (0x09 <= n && n <= 0x0D) || n == 0x20 || n == 0x85 || n == 0xA0 || n == 0x1680 || (0x2000 <= n
        && n <= 0x200A) || n == 0x2028 || n == 0x2029 || n == 0x202F || n == 0x205F || n == 0x3000
}

/// Where the leading whitespace of `s` ends, `trim_start` begins.
proof fn lemma_trim_start(s: Seq<char>, lo: int)
    requires
        0 <= lo <= s.len(),
        forall|k: int| 0 <= k < lo ==> is_whitespace(s[k]),
        lo < s.len() ==> !is_whitespace(s[lo]),
    ensures
        trim_start(s) == s.subrange(lo, s.len() as int),
    decreases lo,
{
    if lo == 0 {
        assert(s.subrange(0, s.len() as int) =~= s);
    } else {
        let t = s.drop_first();
        assert forall|k: int| 0 <= k < lo - 1 implies is_whitespace(t[k]) by {
            assert(t[k] == s[k + 1]);
        }
        lemma_trim_start(t, lo - 1);
        assert(t.subrange(lo - 1, t.len() as int) =~= s.subrange(lo, s.len() as int));
    }
}

/// Where the trailing whitespace of `s` begins, `trim_end` ends.
proof fn lemma_trim_end(s: Seq<char>, hi: int)
    requires
        0 <= hi <= s.len(),
        forall|k: int| hi <= k < s.len() ==> is_whitespace(s[k]),
        hi > 0 ==> !is_whitespace(s[hi - 1]),
    ensures
        trim_end(s) == s.subrange(0, hi),
    decreases s.len() - hi,
{
    if hi == s.len() {
        assert(s.subrange(0, hi) =~= s);
    } else {
        let t = s.drop_last();
        lemma_trim_end(t, hi);
        assert(t.subrange(0, hi) =~= s.subrange(0, hi));
    }
}

/// Trimming cuts `s` down to the stretch from its first to its last character
/// that is no whitespace: where everything before `lo` and everything from
/// `hi` on is whitespace, and the stretch between them begins and ends with
/// another character, `trimmed(s)` is that stretch.
pub proof fn lemma_trimmed_is_core(s: Seq<char>, lo: int, hi: int)
    requires
        0 <= lo < hi <= s.len(),
        forall|k: int| 0 <= k < lo ==> is_whitespace(s[k]),
        forall|k: int| hi <= k < s.len() ==> is_whitespace(s[k]),
        !is_whitespace(s[lo]),
        !is_whitespace(s[hi - 1]),
    ensures
        trimmed(s) == s.subrange(lo, hi),
{
    lemma_trim_start(s, lo);
    let t = s.subrange(lo, s.len() as int);
    assert forall|k: int| hi - lo <= k < t.len() implies is_whitespace(t[k]) by {
        assert(t[k] == s[k + lo]);
    }
    assert(t[hi - lo - 1] == s[hi - 1]);
    lemma_trim_end(t, hi - lo);
    assert(t.subrange(0, hi - lo) =~= s.subrange(lo, hi));
}

/// Trimming a sequence of nothing but whitespace leaves nothing.
pub proof fn lemma_trimmed_of_blank(s: Seq<char>)
    requires
        forall|k: int| 0 <= k < s.len() ==> is_whitespace(s[k]),
    ensures
        trimmed(s) == Seq::<char>::empty(),
{
    lemma_trim_start(s, s.len() as int);
    assert(s.subrange(s.len() as int, s.len() as int) =~= Seq::<char>::empty());
}

/// The string that `s` is once its leading and trailing whitespace is taken
/// away.
pub fn trim(s: &str) -> (r: String)
    ensures
        r@ == trimmed(s@),
{
    let n = s.unicode_len();
    let mut lo: usize = n;
    let mut hi: usize = 0;
    let mut i: usize = 0;
    for c in it: s.chars()
        invariant
            n == s@.len(),
            it.seq() == s@,
            i == it.index(),
            hi <= i,
            lo == n || lo < hi,
            forall|k: int| 0 <= k < i && k < lo ==> is_whitespace(s@[k]),
            lo < n ==> !is_whitespace(s@[lo as int]),
            forall|k: int| hi <= k < i ==> is_whitespace(s@[k]),
            hi > 0 ==> !is_whitespace(s@[hi - 1]),
            hi > 0 ==> lo < n,
    {
        if !whitespace(c) {
            if lo == n {
                lo = i;
            }
            hi = i + 1;
        }
        i = i + 1;
    }
    if hi == 0 {
        proof {
            lemma_trimmed_of_blank(s@);
        }
        String::new()
    } else {
        proof {
            lemma_trimmed_is_core(s@, lo as int, hi as int);
        }
        s.substring_char(lo, hi).to_owned()
    }
}

} // verus!
