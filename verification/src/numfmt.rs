//! Decimal text: printing an unsigned number, and reading one back from a
//! typed command entry (leading and trailing blanks ignored).
use vstd::prelude::*;

verus! {

/// The character for one decimal digit.
pub open spec fn digit_char(d: int) -> char {
    if d == 0 {
        '0'
    } else if d == 1 {
        '1'
    } else if d == 2 {
        '2'
    } else if d == 3 {
        '3'
    } else if d == 4 {
        '4'
    } else if d == 5 {
        '5'
    } else if d == 6 {
        '6'
    } else if d == 7 {
        '7'
    } else if d == 8 {
        '8'
    } else {
        '9'
    }
}

/// The decimal representation of a non-negative number, most significant
/// digit first, with no leading zeros (a lone zero for 0).
pub open spec fn dec_rep(n: int) -> Seq<char>
    decreases n,
{
    if n < 10 {
        seq![digit_char(n)]
    } else {
        dec_rep(n / 10).push(digit_char(n % 10))
    }
}

fn digit_to_char(d: usize) -> (c: char)
    requires
        d < 10,
    ensures
        c == digit_char(d as int),
{
    if d == 0 {
        '0'
    } else if d == 1 {
        '1'
    } else if d == 2 {
        '2'
    } else if d == 3 {
        '3'
    } else if d == 4 {
        '4'
    } else if d == 5 {
        '5'
    } else if d == 6 {
        '6'
    } else if d == 7 {
        '7'
    } else if d == 8 {
        '8'
    } else {
        '9'
    }
}

/// The decimal digits of `n`, as characters.
pub fn fmt_usize(n: usize) -> (v: Vec<char>)
    ensures
        v@ == dec_rep(n as int),
    decreases n,
{
    if n < 10 {
        let mut v: Vec<char> = Vec::new();
        v.push(digit_to_char(n));
        proof {
            assert(v@ =~= dec_rep(n as int));
        }
        v
    } else {
        let mut v = fmt_usize(n / 10);
        v.push(digit_to_char(n % 10));
        proof {
            assert(v@ =~= dec_rep(n as int));
        }
        v
    }
}

/// Whether `c` is a decimal digit.
pub open spec fn is_digit(c: char) -> bool {
    48 <= c as u32 <= 57
}

/// The value of a decimal digit character.
pub open spec fn digit_val(c: char) -> int {
    c as u32 - 48
}

/// Whether every character of `s` is a decimal digit.
pub open spec fn all_digits(s: Seq<char>) -> bool {
    forall|i: int| 0 <= i < s.len() ==> is_digit(#[trigger] s[i])
}

/// The number the digit characters of `s` denote, most significant first.
pub open spec fn digits_val(s: Seq<char>) -> int
    decreases s.len(),
{
    if s.len() == 0 {
        0
    } else {
        digits_val(s.drop_last()) * 10 + digit_val(s.last())
    }
}

/// Whether `c` is a blank that a typed entry may carry around a number:
/// any ASCII whitespace character. Unicode-only spaces are not blanks.
pub open spec fn is_blank(c: char) -> bool {
    c == ' ' || c == '\t' || c == '\r' || c == '\n' || c == '\x0b' || c == '\x0c'
}

/// `s` without its leading blanks.
pub open spec fn trim_front(s: Seq<char>) -> Seq<char>
    decreases s.len(),
{
    if s.len() > 0 && is_blank(s[0]) {
        trim_front(s.drop_first())
    } else {
        s
    }
}

/// `s` without its trailing blanks.
pub open spec fn trim_back(s: Seq<char>) -> Seq<char>
    decreases s.len(),
{
    if s.len() > 0 && is_blank(s.last()) {
        trim_back(s.drop_last())
    } else {
        s
    }
}

/// `s` without leading and trailing blanks.
pub open spec fn trimmed(s: Seq<char>) -> Seq<char> {
    trim_back(trim_front(s))
}

/// What parsing `s` as a non-negative decimal number yields: the number,
/// allowing one leading plus sign, or nothing when, blanks and that sign
/// aside, `s` is empty or holds a non-digit.
pub open spec fn parse_usize_spec(s: Seq<char>) -> Option<int> {
    let t = trimmed(s);
    let dg = if t.len() > 0 && t[0] == '+' {
        t.drop_first()
    } else {
        t
    };
    if dg.len() == 0 || !all_digits(dg) {
        None
    } else {
        Some(digits_val(dg))
    }
}

proof fn lemma_trim_front_is_skip(s: Seq<char>, k: int)
    requires
        0 <= k <= s.len(),
        forall|i: int| 0 <= i < k ==> is_blank(#[trigger] s[i]),
        k == s.len() || !is_blank(s[k]),
    ensures
        trim_front(s) == s.skip(k),
    decreases k,
{
    if k == 0 {
        assert(s.skip(0) =~= s);
    } else {
        lemma_trim_front_is_skip(s.drop_first(), k - 1);
        assert(s.drop_first().skip(k - 1) =~= s.skip(k));
    }
}

proof fn lemma_trim_back_is_take(s: Seq<char>, m: int)
    requires
        0 <= m <= s.len(),
        forall|i: int| m <= i < s.len() ==> is_blank(#[trigger] s[i]),
        m == 0 || !is_blank(s[m - 1]),
    ensures
        trim_back(s) == s.take(m),
    decreases s.len() - m,
{
    if m == s.len() {
        if s.len() > 0 && is_blank(s.last()) {
            assert(false);
        }
        assert(s.take(m) =~= s);
    } else {
        lemma_trim_back_is_take(s.drop_last(), m);
        assert(s.drop_last().take(m) =~= s.take(m));
    }
}

proof fn lemma_digits_val_nonneg(s: Seq<char>)
    requires
        all_digits(s),
    ensures
        digits_val(s) >= 0,
    decreases s.len(),
{
    if s.len() > 0 {
        assert(all_digits(s.drop_last())) by {
            assert(forall|i: int| 0 <= i < s.len() - 1 ==> s.drop_last()[i] == #[trigger] s[i]);
        }
        lemma_digits_val_nonneg(s.drop_last());
    }
}

proof fn lemma_digits_val_prefix_le(s: Seq<char>, j: int)
    requires
        all_digits(s),
        0 <= j <= s.len(),
    ensures
        digits_val(s.take(j)) <= digits_val(s),
    decreases s.len() - j,
{
    if j == s.len() {
        assert(s.take(j) =~= s);
    } else {
        assert(all_digits(s.drop_last())) by {
            assert(forall|i: int| 0 <= i < s.len() - 1 ==> s.drop_last()[i] == #[trigger] s[i]);
        }
        lemma_digits_val_nonneg(s.drop_last());
        lemma_digits_val_prefix_le(s.drop_last(), j);
        assert(s.drop_last().take(j) =~= s.take(j));
    }
}

fn is_blank_exec(c: char) -> (r: bool)
    ensures
        r == is_blank(c),
{
    c == ' ' || c == '\t' || c == '\r' || c == '\n' || c == '\x0b' || c == '\x0c'
}

/// Parses the characters as a non-negative decimal number, ignoring leading
/// and trailing blanks and allowing one leading plus sign: the number when
/// it is well-formed and fits, nothing when it is ill-formed, and nothing
/// when it is too large to represent.
pub fn parse_usize(s: &Vec<char>) -> (r: Option<usize>)
    ensures
        match parse_usize_spec(s@) {
            None => r is None,
            Some(v) => 0 <= v && (if v <= usize::MAX {
                r == Some(v as usize)
            } else {
                r is None
            }),
        },
{
    let n = s.len();
    let mut start: usize = 0;
    while start < n && is_blank_exec(s[start as usize])
        invariant
            n == s@.len(),
            0 <= start <= n,
            forall|i: int| 0 <= i < start ==> is_blank(#[trigger] s@[i]),
        decreases n - start,
    {
        start = start + 1;
    }
    let mut endx: usize = n;
    while endx > start && is_blank_exec(s[endx - 1])
        invariant
            n == s@.len(),
            start <= endx <= n,
            forall|i: int| endx <= i < n ==> is_blank(#[trigger] s@[i]),
        decreases endx,
    {
        endx = endx - 1;
    }
    proof {
        lemma_trim_front_is_skip(s@, start as int);
        let u = s@.skip(start as int);
        lemma_trim_back_is_take(u, endx - start);
        assert(trimmed(s@) == u.take(endx - start));
    }
    let ghost t = trimmed(s@);
    proof {
        assert(t.len() == endx - start);
        assert(forall|j: int| 0 <= j < t.len() ==> t[j] == s@[start + j]);
    }
    let mut dstart = start;
    if start < endx && s[start] == '+' {
        dstart = start + 1;
    }
    let ghost dg = if t.len() > 0 && t[0] == '+' {
        t.drop_first()
    } else {
        t
    };
    proof {
        assert(dg.len() == endx - dstart);
        assert(forall|j: int| 0 <= j < dg.len() ==> dg[j] == s@[dstart + j]);
    }
    if endx == dstart {
        return None;
    }
    let mut acc: usize = 0;
    let mut i = dstart;
    while i < endx
        invariant
            n == s@.len(),
            dstart <= i <= endx <= n,
            dg.len() == endx - dstart,
            forall|j: int| 0 <= j < dg.len() ==> dg[j] == s@[dstart + j],
            parse_usize_spec(s@) == (if dg.len() == 0 || !all_digits(dg) {
                None
            } else {
                Some(digits_val(dg))
            }),
            all_digits(dg.take(i - dstart)),
            acc == digits_val(dg.take(i - dstart)),
        decreases endx - i,
    {
        let c = s[i];
        let code = c as u32;
        if code < 48 || code > 57 {
            proof {
                assert(dg[i - dstart] == c);
                assert(!is_digit(c));
                assert(!all_digits(dg));
            }
            return None;
        }
        let d = (code - 48) as usize;
        proof {
            assert(dg.take(i - dstart + 1).drop_last() =~= dg.take(i - dstart));
            assert(dg.take(i - dstart + 1).last() == c);
            assert(digits_val(dg.take(i - dstart + 1)) == acc * 10 + d);
        }
        let stepped = match acc.checked_mul(10) {
            Some(m) => m.checked_add(d),
            None => None,
        };
        match stepped {
            Some(next) => {
                acc = next;
            },
            None => {
                proof {
                    let j = i - dstart + 1;
                    assert(all_digits(dg.take(j)));
                    if all_digits(dg) {
                        lemma_digits_val_nonneg(dg);
                        lemma_digits_val_prefix_le(dg, j);
                        assert(digits_val(dg) >= digits_val(dg.take(j)));
                        assert(digits_val(dg.take(j)) > usize::MAX);
                    }
                }
                return None;
            },
        }
        i = i + 1;
    }
    proof {
        assert(dg.take(endx - dstart) =~= dg);
    }
    Some(acc)
}

} // verus!
