//! Text primitives that the command compiler is built from: white-space
//! trimming and decimal rendering, each stated over sequences of characters.

use vstd::prelude::*;
use vstd::string::*;

verus! {

/// Whether `c` has the Unicode property White_Space.
pub open spec fn is_space(c: char) -> bool {
    let n = c as u32;
    ||| 0x09 <= n <= 0x0D
    ||| n == 0x20
    ||| n == 0x85
    ||| n == 0xA0
    ||| n == 0x1680
    ||| 0x2000 <= n <= 0x200A
    ||| n == 0x2028
    ||| n == 0x2029
    ||| n == 0x202F
    ||| n == 0x205F
    ||| n == 0x3000
}

/// `s` without its leading white space.
pub open spec fn trim_start(s: Seq<char>) -> Seq<char>
    decreases s.len(),
{
    if s.len() > 0 && is_space(s.first()) {
        trim_start(s.drop_first())
    } else {
        s
    }
}

/// `s` without its trailing white space.
pub open spec fn trim_end(s: Seq<char>) -> Seq<char>
    decreases s.len(),
{
    if s.len() > 0 && is_space(s.last()) {
        trim_end(s.drop_last())
    } else {
        s
    }
}

/// `s` without its leading and trailing white space; white space inside is kept.
pub open spec fn trimmed(s: Seq<char>) -> Seq<char> {
    trim_end(trim_start(s))
}

/// A text is blank when nothing is left of it after trimming.
pub open spec fn is_blank(s: Seq<char>) -> bool {
    trimmed(s).len() == 0
}

/// The character that stands for the decimal digit `d`.
pub open spec fn digit(d: nat) -> char {
    if d == 0 {
        '0'
    } else if d == 1 {
        '1'
    } else if d == 2 {
        '2'
    } else if d == 3 {
        '3'
    } else if d == 4 {
        '4'
    } else if d == 5 {
        '5'
    } else if d == 6 {
        '6'
    } else if d == 7 {
        '7'
    } else if d == 8 {
        '8'
    } else {
        '9'
    }
}

/// The decimal numeral of `n`: most significant digit first, no leading zero,
/// `0` written as one digit.
pub open spec fn decimal(n: nat) -> Seq<char>
    decreases n,
{
    if n < 10 {
        seq![digit(n)]
    } else {
        decimal(n / 10).push(digit(n % 10))
    }
}

/// The number that a run of decimal digits stands for.
pub open spec fn numeral_value(s: Seq<char>) -> nat
    decreases s.len(),
{
    if s.len() == 0 {
        0
    } else {
        numeral_value(s.drop_last()) * 10 + (s.last() as u32 - '0' as u32) as nat
    }
}

/// The number of white-space characters that `s` starts with.
pub open spec fn leading_spaces(s: Seq<char>) -> nat
    decreases s.len(),
{
    if s.len() > 0 && is_space(s.first()) {
        1 + leading_spaces(s.drop_first())
    } else {
        0
    }
}

/// The number of white-space characters that `s` ends with.
pub open spec fn trailing_spaces(s: Seq<char>) -> nat
    decreases s.len(),
{
    if s.len() > 0 && is_space(s.last()) {
        1 + trailing_spaces(s.drop_last())
    } else {
        0
    }
}

/// If the first `k` characters of `s` are white space and the next one, where
/// there is one, is not, trimming the start removes exactly those `k`.
pub proof fn lemma_trim_start(s: Seq<char>, k: int)
    requires
        0 <= k <= s.len(),
        forall|j: int| 0 <= j < k ==> is_space(#[trigger] s[j]),
        k < s.len() ==> !is_space(s[k]),
    ensures
        trim_start(s) == s.subrange(k, s.len() as int),
    decreases k,
{
    if k == 0 {
        assert(s.subrange(0, s.len() as int) =~= s);
    } else {
        let t = s.drop_first();
        assert forall|j: int| 0 <= j < k - 1 implies is_space(#[trigger] t[j]) by {
            assert(t[j] == s[j + 1]);
        }
        lemma_trim_start(t, k - 1);
        assert(t.subrange(k - 1, t.len() as int) =~= s.subrange(k, s.len() as int));
    }
}

/// If everything of `s` from index `k` on is white space and the character
/// before, where there is one, is not, trimming the end keeps exactly the
/// first `k` characters.
pub proof fn lemma_trim_end(s: Seq<char>, k: int)
    requires
        0 <= k <= s.len(),
        forall|j: int| k <= j < s.len() ==> is_space(#[trigger] s[j]),
        k > 0 ==> !is_space(s[k - 1]),
    ensures
        trim_end(s) == s.subrange(0, k),
    decreases s.len() - k,
{
    if k == s.len() {
        assert(s.subrange(0, k) =~= s);
    } else {
        let t = s.drop_last();
        lemma_trim_end(t, k);
        assert(t.subrange(0, k) =~= s.subrange(0, k));
    }
}

/// The leading white space of `s` is a run of white-space characters that
/// ends at the first other character, or at the end of `s`.
pub proof fn lemma_leading_spaces(s: Seq<char>)
    ensures
        leading_spaces(s) <= s.len(),
        forall|j: int| 0 <= j < leading_spaces(s) ==> is_space(#[trigger] s[j]),
        leading_spaces(s) < s.len() ==> !is_space(s[leading_spaces(s) as int]),
    decreases s.len(),
{
    if s.len() > 0 && is_space(s.first()) {
        let t = s.drop_first();
        lemma_leading_spaces(t);
        assert forall|j: int| 0 <= j < leading_spaces(s) implies is_space(#[trigger] s[j]) by {
            if j > 0 {
                assert(s[j] == t[j - 1]);
            }
        }
        if leading_spaces(s) < s.len() {
            assert(s[leading_spaces(s) as int] == t[leading_spaces(t) as int]);
        }
    }
}

/// The trailing white space of `s` is a run of white-space characters that
/// starts after the last other character, or at the start of `s`.
pub proof fn lemma_trailing_spaces(s: Seq<char>)
    ensures
        trailing_spaces(s) <= s.len(),
        forall|j: int| s.len() - trailing_spaces(s) <= j < s.len() ==> is_space(#[trigger] s[j]),
        trailing_spaces(s) < s.len() ==> !is_space(s[s.len() - trailing_spaces(s) - 1]),
    decreases s.len(),
{
    if s.len() > 0 && is_space(s.last()) {
        let t = s.drop_last();
        lemma_trailing_spaces(t);
        assert forall|j: int| s.len() - trailing_spaces(s) <= j < s.len() implies is_space(
            #[trigger] s[j],
        ) by {
            if j < s.len() - 1 {
                assert(s[j] == t[j]);
            }
        }
        if trailing_spaces(s) < s.len() {
            assert(s[s.len() - trailing_spaces(s) - 1] == t[t.len() - trailing_spaces(t) - 1]);
        }
    }
}

/// Trimming keeps one stretch of the text as it is, white space inside
/// included. All that it leaves out before and after the stretch is white
/// space, and the stretch neither starts nor ends with white space. The
/// result gives where the stretch starts and where it ends.
pub proof fn lemma_trimmed(s: Seq<char>) -> (bounds: (int, int))
    ensures
        0 <= bounds.0 <= bounds.1 <= s.len(),
        trimmed(s) == s.subrange(bounds.0, bounds.1),
        forall|j: int| 0 <= j < bounds.0 ==> is_space(#[trigger] s[j]),
        forall|j: int| bounds.1 <= j < s.len() ==> is_space(#[trigger] s[j]),
        bounds.0 < bounds.1 ==> !is_space(s[bounds.0]) && !is_space(s[bounds.1 - 1]),
        bounds.0 == bounds.1 ==> bounds.0 == s.len(),
{
    let a = leading_spaces(s) as int;
    lemma_leading_spaces(s);
    lemma_trim_start(s, a);
    let t = s.subrange(a, s.len() as int);
    let b = trailing_spaces(t) as int;
    lemma_trailing_spaces(t);
    lemma_trim_end(t, t.len() - b);
    assert(t.subrange(0, t.len() - b) =~= s.subrange(a, s.len() - b));
    if a < s.len() {
        assert(t[0] == s[a]);
        if b == t.len() {
            assert(is_space(t[0]));
        }
        assert(t[t.len() - b - 1] == s[s.len() - b - 1]);
    }
    assert forall|j: int| s.len() - b <= j < s.len() implies is_space(#[trigger] s[j]) by {
        assert(s[j] == t[j - a]);
    }
    (a, s.len() - b)
}

/// Trimming a trimmed text changes nothing.
pub proof fn lemma_trimmed_twice(s: Seq<char>)
    ensures
        trimmed(trimmed(s)) == trimmed(s),
{
    let bounds = lemma_trimmed(s);
    let t = trimmed(s);
    if t.len() > 0 {
        assert(t[0] == s[bounds.0]);
        assert(t[t.len() - 1] == s[bounds.1 - 1]);
        lemma_trim_start(t, 0);
        lemma_trim_end(t, t.len() as int);
        assert(t.subrange(0, t.len() as int) =~= t);
    }
}

/// The decimal numeral of `n` is made of digits, at least one, starts with
/// `0` only for 0 itself, and stands for `n`.
pub proof fn lemma_decimal(n: nat)
    ensures
        decimal(n).len() >= 1,
        forall|i: int| 0 <= i < decimal(n).len() ==> '0' <= #[trigger] decimal(n)[i] <= '9',
        n > 0 ==> decimal(n)[0] != '0',
        numeral_value(decimal(n)) == n,
    decreases n,
{
    if n < 10 {
        let d = decimal(n);
        assert(d.drop_last() =~= Seq::empty());
        reveal_with_fuel(numeral_value, 2);
    } else {
        let front = decimal(n / 10);
        lemma_decimal(n / 10);
        let d = decimal(n);
        assert(d.drop_last() =~= front);
        assert(d[0] == front[0]);
        assert forall|i: int| 0 <= i < d.len() implies '0' <= #[trigger] d[i] <= '9' by {
            if i < front.len() {
                assert(d[i] == front[i]);
            }
        }
    }
}

/// Tells whether `c` is a white-space character.
pub fn is_whitespace(c: char) -> (b: bool)
    ensures
        b == is_space(c),
{
    let n: u32 = c as u32;
    (0x09 <= n && n <= 0x0D) || n == 0x20 || n == 0x85 || n == 0xA0 || n == 0x1680 || (0x2000 <= n
        && n <= 0x200A) || n == 0x2028 || n == 0x2029 || n == 0x202F || n == 0x205F || n == 0x3000
}

/// The part of `s` between its leading and its trailing white space.
pub fn trim(s: &str) -> (r: &str)
    ensures
        r@ == trimmed(s@),
{
    let n = s.unicode_len();
    let mut start: usize = 0;
    let mut end: usize = 0;
    let mut i: usize = 0;
    for c in it: s.chars()
        invariant
            it.seq() == s@,
            n == s@.len(),
            i == it.index(),
            end <= i,
            end == 0 ==> forall|j: int| 0 <= j < i ==> is_space(#[trigger] s@[j]),
            end > 0 ==> {
                &&& start < end
                &&& forall|j: int| 0 <= j < start ==> is_space(#[trigger] s@[j])
                &&& !is_space(s@[start as int])
                &&& !is_space(s@[end - 1])
                &&& forall|j: int| end <= j < i ==> is_space(#[trigger] s@[j])
            },
    {
        if !is_whitespace(c) {
            if end == 0 {
                start = i;
            }
            end = i + 1;
        }
        i = i + 1;
    }
    if end == 0 {
        proof {
            lemma_trim_start(s@, n as int);
            assert(s@.subrange(n as int, n as int) =~= s@.subrange(0, 0));
        }
        s.substring_char(0, 0)
    } else {
        proof {
            let t = s@.subrange(start as int, n as int);
            lemma_trim_start(s@, start as int);
            assert forall|j: int| end - start <= j < t.len() implies is_space(#[trigger] t[j]) by {
                assert(t[j] == s@[j + start]);
            }
            lemma_trim_end(t, end - start);
            assert(t.subrange(0, end - start) =~= s@.subrange(start as int, end as int));
        }
        s.substring_char(start, end)
    }
}

/// Tells whether `a` and `b` hold the same characters.
pub fn same_text(a: &str, b: &str) -> (r: bool)
    ensures
        r == (a@ == b@),
{
    let a: String = a.to_owned();
    let b: String = b.to_owned();
    a == b
}

/// A copy of `v`, text by text.
pub fn clone_texts(v: &Vec<String>) -> (r: Vec<String>)
    ensures
        r.deep_view() == v.deep_view(),
{
    let mut r: Vec<String> = Vec::new();
    let mut i: usize = 0;
    while i < v.len()
        invariant
            i <= v.len(),
            r.len() == i,
            forall|j: int| 0 <= j < i ==> r@[j]@ == v@[j]@,
        decreases v.len() - i,
    {
        r.push(v[i].clone());
        i = i + 1;
    }
    assert(r.deep_view() =~= v.deep_view());
    r
}

/// A copy of `t`.
pub fn clone_opt_text(t: &Option<String>) -> (r: Option<String>)
    ensures
        r.deep_view() == t.deep_view(),
{
    match t {
        Some(s) => Some(s.clone()),
        None => None,
    }
}

/// The one-character text of the decimal digit `d`.
fn digit_str(d: u32) -> (r: &'static str)
    requires
        d < 10,
    ensures
        r@ == seq![digit(d as nat)],
{
    proof {
        reveal_strlit("0");
        reveal_strlit("1");
        reveal_strlit("2");
        reveal_strlit("3");
        reveal_strlit("4");
        reveal_strlit("5");
        reveal_strlit("6");
        reveal_strlit("7");
        reveal_strlit("8");
        reveal_strlit("9");
    }
    let r = if d == 0 {
        "0"
    } else if d == 1 {
        "1"
    } else if d == 2 {
        "2"
    } else if d == 3 {
        "3"
    } else if d == 4 {
        "4"
    } else if d == 5 {
        "5"
    } else if d == 6 {
        "6"
    } else if d == 7 {
        "7"
    } else if d == 8 {
        "8"
    } else {
        "9"
    };
    assert(r@ =~= seq![digit(d as nat)]);
    r
}

/// Appends the decimal numeral of `n` to `out`.
pub fn push_decimal(out: &mut String, n: u32)
    ensures
        final(out)@ == old(out)@ + decimal(n as nat),
    decreases n,
{
    if n >= 10 {
        push_decimal(out, n / 10);
    }
    out.append(digit_str(n % 10));
}

} // verus!
