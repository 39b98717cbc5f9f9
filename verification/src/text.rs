//! Text helpers shared by the modules: Unicode white space, trimming and
//! comparison of strings by their characters.

use vstd::prelude::*;

verus! {

/// The Unicode `White_Space` property: the code points that `char::is_whitespace`
/// accepts.
pub open spec fn is_white_space(c: char) -> bool {
    let n: u32 = c as u32;
    (0x09 <= n && n <= 0x0d) || n == 0x20 || n == 0x85 || n == 0xa0 || n == 0x1680 || (0x2000
        <= n && n <= 0x200a) || n == 0x2028 || n == 0x2029 || n == 0x202f || n == 0x205f || n
        == 0x3000
}

/// Every character of `s` is white space (the empty text included).
pub open spec fn is_blank(s: Seq<char>) -> bool {
    forall|i: int| 0 <= i < s.len() ==> is_white_space(#[trigger] s[i])
}

/// The index of the first character at or after `i` that is not white space,
/// or the length of `s` when there is none.
pub open spec fn first_non_white(s: Seq<char>, i: int) -> int
    decreases s.len() - i,
{
    if i < 0 || i >= s.len() {
        s.len() as int
    } else if !is_white_space(s[i]) {
        i
    } else {
        first_non_white(s, i + 1)
    }
}

/// One past the last character before `j` and not below `lo` that is not white
/// space, or `lo` when there is none.
pub open spec fn end_non_white(s: Seq<char>, j: int, lo: int) -> int
    decreases j - lo,
{
    if j <= lo {
        lo
    } else if !is_white_space(s[j - 1]) {
        j
    } else {
        end_non_white(s, j - 1, lo)
    }
}

/// `s` without its leading and trailing white space, as `str::trim` gives it.
pub open spec fn trimmed(s: Seq<char>) -> Seq<char> {
    let a: int = first_non_white(s, 0);
    s.subrange(a, end_non_white(s, s.len() as int, a))
}

/// Tells whether `c` has the Unicode `White_Space` property.
pub fn is_white_space_char(c: char) -> (r: bool)
    ensures
        r == is_white_space(c),
{
    let n: u32 = c as u32;
    (0x09 <= n && n <= 0x0d) || n == 0x20 || n == 0x85 || n == 0xa0 || n == 0x1680 || (0x2000
        <= n && n <= 0x200a) || n == 0x2028 || n == 0x2029 || n == 0x202f || n == 0x205f || n
        == 0x3000
}

proof fn lemma_first_non_white_bounds(s: Seq<char>, i: int)
    requires
        0 <= i <= s.len(),
    ensures
        i <= first_non_white(s, i) <= s.len(),
        first_non_white(s, i) < s.len() ==> !is_white_space(s[first_non_white(s, i)]),
        forall|k: int| i <= k < first_non_white(s, i) ==> is_white_space(#[trigger] s[k]),
    decreases s.len() - i,
{
    if i < s.len() && is_white_space(s[i]) {
        lemma_first_non_white_bounds(s, i + 1);
    }
}

proof fn lemma_end_non_white_bounds(s: Seq<char>, j: int, lo: int)
    requires
        0 <= lo <= j <= s.len(),
    ensures
        lo <= end_non_white(s, j, lo) <= j,
        end_non_white(s, j, lo) > lo ==> !is_white_space(s[end_non_white(s, j, lo) - 1]),
        forall|k: int| end_non_white(s, j, lo) <= k < j ==> is_white_space(#[trigger] s[k]),
    decreases j - lo,
{
    if j > lo && is_white_space(s[j - 1]) {
        lemma_end_non_white_bounds(s, j - 1, lo);
    }
}

/// A text trims to nothing exactly when all its characters are white space.
pub proof fn lemma_trimmed_empty_iff_blank(s: Seq<char>)
    ensures
        (trimmed(s).len() == 0) == is_blank(s),
{
    lemma_first_non_white_bounds(s, 0);
    let a: int = first_non_white(s, 0);
    lemma_end_non_white_bounds(s, s.len() as int, a);
    if a < s.len() {
        assert(!is_white_space(s[a]));
        assert(end_non_white(s, s.len() as int, a) > a) by {
            if end_non_white(s, s.len() as int, a) == a {
                assert(is_white_space(s[a]));
            }
        }
    }
}

/// The characters of `s`, trimmed of leading and trailing Unicode white space.
pub fn trim_text(s: &str) -> (r: String)
    ensures
        r@ == trimmed(s@),
{
    let n: usize = s.unicode_len();
    let mut i: usize = 0;
    while i < n && is_white_space_char(s.get_char(i))
        invariant
            n == s@.len(),
            i <= n,
            first_non_white(s@, 0) == first_non_white(s@, i as int),
        decreases n - i,
    {
        i = i + 1;
    }
    let mut j: usize = n;
    while j > i && is_white_space_char(s.get_char(j - 1))
        invariant
            n == s@.len(),
            i <= j <= n,
            first_non_white(s@, 0) == i,
            end_non_white(s@, n as int, i as int) == end_non_white(s@, j as int, i as int),
        decreases j,
    {
        j = j - 1;
    }
    String::from_str(s.substring_char(i, j))
}

/// Whether `s` is empty once its surrounding white space is removed.
pub fn is_blank_text(s: &str) -> (r: bool)
    ensures
        r == is_blank(s@),
        r == (trimmed(s@).len() == 0),
{
    let n: usize = s.unicode_len();
    let mut i: usize = 0;
    while i < n
        invariant
            n == s@.len(),
            i <= n,
            forall|k: int| 0 <= k < i ==> is_white_space(#[trigger] s@[k]),
        decreases n - i,
    {
        if !is_white_space_char(s.get_char(i)) {
            proof {
                lemma_trimmed_empty_iff_blank(s@);
            }
            return false;
        }
        i = i + 1;
    }
    proof {
        lemma_trimmed_empty_iff_blank(s@);
    }
    true
}

/// Whether two texts hold the same characters.
pub fn same_text(a: &str, b: &str) -> (r: bool)
    ensures
        r == (a@ == b@),
{
    let x = String::from_str(a);
    let y = String::from_str(b);
    x == y
}

/// The decimal digit of `d`, for `d` below ten.
pub open spec fn digit_char(d: nat) -> char {
    (48 + d) as char
}

/// The decimal notation of `n`, without leading zeros.
pub open spec fn decimal(n: nat) -> Seq<char>
    decreases n,
{
    if n < 10 {
        seq![digit_char(n)]
    } else {
        decimal(n / 10).push(digit_char(n % 10))
    }
}

fn digit_text(d: u64) -> (r: &'static str)
    requires
        d < 10,
    ensures
        r@ == seq![digit_char(d as nat)],
{
    proof {
        reveal_strlit("0");
        reveal_strlit("1");
        reveal_strlit("2");
        reveal_strlit("3");
        reveal_strlit("4");
        reveal_strlit("5");
        reveal_strlit("6");
        reveal_strlit("7");
        reveal_strlit("8");
        reveal_strlit("9");
    }
    if d == 0 {
        "0"
    } else if d == 1 {
        "1"
    } else if d == 2 {
        "2"
    } else if d == 3 {
        "3"
    } else if d == 4 {
        "4"
    } else if d == 5 {
        "5"
    } else if d == 6 {
        "6"
    } else if d == 7 {
        "7"
    } else if d == 8 {
        "8"
    } else {
        "9"
    }
}

/// The decimal notation of `n`, as `u64::to_string` writes it.
pub fn decimal_text(n: u64) -> (r: String)
    ensures
        r@ == decimal(n as nat),
    decreases n,
{
    if n < 10 {
        String::from_str(digit_text(n))
    } else {
        let mut s = decimal_text(n / 10);
        s.append(digit_text(n % 10));
        s
    }
}

} // verus!
