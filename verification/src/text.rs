//! Character-level text helpers for the line framing protocol.
//!
//! The debugger pipe is line oriented: the engine trims trailing whitespace
//! from output lines, trims command text before framing it, and scans lines
//! for a marker substring.  Each helper here has a direct mathematical
//! statement over `Seq<char>`.

use vstd::prelude::*;
use vstd::string::*;

verus! {

/// Whitespace as `char::is_whitespace` defines it: the Unicode
/// white-space code points — tab through carriage return, space, next
/// line, no-break space, ogham space mark, the en-quad through hair-space
/// range, line and paragraph separators, narrow no-break space, medium
/// mathematical space, and ideographic space.
pub open spec fn is_wspace(c: char) -> bool {
    let x = c as int;
    (9 <= x && x <= 13) || x == 32 || x == 0x85 || x == 0xa0 || x == 0x1680 || (0x2000 <= x
        && x <= 0x200a) || x == 0x2028 || x == 0x2029 || x == 0x202f || x == 0x205f || x
        == 0x3000
}

/// Executable counterpart of [`is_wspace`].
pub fn is_wspace_char(c: char) -> (r: bool)
    ensures
        r == is_wspace(c),
{
    let x = c as u32;
    (9 <= x && x <= 13) || x == 32 || x == 0x85 || x == 0xa0 || x == 0x1680 || (0x2000 <= x
        && x <= 0x200a) || x == 0x2028 || x == 0x2029 || x == 0x202f || x == 0x205f || x
        == 0x3000
}

/// Length that remains of `s` once trailing whitespace is removed.
pub open spec fn trim_end_len(s: Seq<char>) -> nat
    decreases s.len(),
{
    if s.len() == 0 || !is_wspace(s[s.len() - 1]) {
        s.len()
    } else {
        trim_end_len(s.drop_last())
    }
}

/// `s` with trailing whitespace removed.
pub open spec fn trim_end_spec(s: Seq<char>) -> Seq<char> {
    s.subrange(0, trim_end_len(s) as int)
}

proof fn lemma_trim_end_len_le(s: Seq<char>)
    ensures
        trim_end_len(s) <= s.len(),
    decreases s.len(),
{
    if !(s.len() == 0 || !is_wspace(s[s.len() - 1])) {
        lemma_trim_end_len_le(s.drop_last());
    }
}

/// The trimmed length is exactly the cut point: everything from it on is
/// whitespace, and the character just before it (if any) is not.
proof fn lemma_trim_end_len_at(s: Seq<char>, j: int)
    requires
        0 <= j <= s.len(),
        forall|k: int| j <= k < s.len() ==> is_wspace(s[k]),
        j == 0 || !is_wspace(s[j - 1]),
    ensures
        trim_end_len(s) == j,
    decreases s.len(),
{
    if s.len() == 0 {
    } else if j == s.len() {
    } else {
        assert(is_wspace(s[s.len() - 1]));
        assert(forall|k: int| j <= k < s.drop_last().len() ==> is_wspace(s.drop_last()[k]));
        lemma_trim_end_len_at(s.drop_last(), j);
    }
}

/// Remove trailing whitespace from `s`.
pub fn trim_end_str(s: &str) -> (r: String)
    ensures
        r@ == trim_end_spec(s@),
{
    let n = s.unicode_len();
    let mut j = n;
    while j > 0 && is_wspace_char(s.get_char(j - 1))
        invariant
            0 <= j <= n,
            n == s@.len(),
            forall|k: int| j <= k < n ==> is_wspace(s@[k]),
        decreases j,
    {
        j = j - 1;
    }
    proof {
        lemma_trim_end_len_at(s@, j as int);
    }
    let t = s.substring_char(0, j);
    String::from_str(t)
}

/// Number of leading whitespace characters of `s`.
pub open spec fn lead_wspace_len(s: Seq<char>) -> nat
    decreases s.len(),
{
    if s.len() == 0 || !is_wspace(s[0]) {
        0
    } else {
        1 + lead_wspace_len(s.subrange(1, s.len() as int))
    }
}

proof fn lemma_lead_wspace_len_le(s: Seq<char>)
    ensures
        lead_wspace_len(s) <= s.len(),
    decreases s.len(),
{
    if !(s.len() == 0 || !is_wspace(s[0])) {
        lemma_lead_wspace_len_le(s.subrange(1, s.len() as int));
    }
}

proof fn lemma_lead_wspace_len_at(s: Seq<char>, i: int)
    requires
        0 <= i <= s.len(),
        forall|k: int| 0 <= k < i ==> is_wspace(s[k]),
        i == s.len() || !is_wspace(s[i]),
    ensures
        lead_wspace_len(s) == i,
    decreases s.len(),
{
    if s.len() == 0 || i == 0 {
    } else {
        assert(is_wspace(s[0]));
        let t = s.subrange(1, s.len() as int);
        assert(forall|k: int| 0 <= k < i - 1 ==> t[k] == s[k + 1] && is_wspace(t[k]));
        lemma_lead_wspace_len_at(t, i - 1);
    }
}

/// `s` with leading whitespace removed.
pub open spec fn trim_start_spec(s: Seq<char>) -> Seq<char> {
    s.subrange(lead_wspace_len(s) as int, s.len() as int)
}

/// `s` with whitespace removed from both ends.
pub open spec fn trim_spec(s: Seq<char>) -> Seq<char> {
    trim_start_spec(trim_end_spec(s))
}

/// Remove whitespace from both ends of `s`.
pub fn trim_str(s: &str) -> (r: String)
    ensures
        r@ == trim_spec(s@),
{
    let n = s.unicode_len();
    let mut j = n;
    while j > 0 && is_wspace_char(s.get_char(j - 1))
        invariant
            0 <= j <= n,
            n == s@.len(),
            forall|k: int| j <= k < n ==> is_wspace(s@[k]),
        decreases j,
    {
        j = j - 1;
    }
    proof {
        lemma_trim_end_len_at(s@, j as int);
    }
    let ghost e = trim_end_spec(s@);
    let mut i: usize = 0;
    while i < j && is_wspace_char(s.get_char(i))
        invariant
            0 <= i <= j <= n,
            n == s@.len(),
            e == s@.subrange(0, j as int),
            forall|k: int| 0 <= k < i ==> is_wspace(s@[k]),
        decreases j - i,
    {
        i = i + 1;
    }
    proof {
        assert(forall|k: int| 0 <= k < i ==> e[k] == s@[k]);
        if (i as int) < e.len() {
            assert(e[i as int] == s@[i as int]);
        }
        lemma_lead_wspace_len_at(e, i as int);
    }
    let t = s.substring_char(i, j);
    proof {
        assert(t@ =~= trim_spec(s@));
    }
    String::from_str(t)
}

/// `needle` occurs in `hay` starting at position `i`.
pub open spec fn matches_at(hay: Seq<char>, needle: Seq<char>, i: int) -> bool {
    0 <= i && i + needle.len() <= hay.len() && hay.subrange(i, i + needle.len() as int)
        == needle
}

/// `needle` occurs somewhere in `hay` as a contiguous run.
pub open spec fn has_substr(hay: Seq<char>, needle: Seq<char>) -> bool {
    exists|i: int| matches_at(hay, needle, i)
}

/// Whether `needle` occurs in `hay` as a contiguous substring.
pub fn contains_substr(hay: &str, needle: &str) -> (r: bool)
    ensures
        r == has_substr(hay@, needle@),
{
    let hn = hay.unicode_len();
    let nn = needle.unicode_len();
    if nn > hn {
        proof {
            assert(forall|i: int| !matches_at(hay@, needle@, i));
        }
        return false;
    }
    let mut i: usize = 0;
    while i <= hn - nn
        invariant
            0 <= i <= hn - nn + 1,
            nn <= hn,
            hn == hay@.len(),
            nn == needle@.len(),
            forall|p: int| 0 <= p < i ==> !matches_at(hay@, needle@, p),
        decreases hn - nn - i + 1,
    {
        let mut k: usize = 0;
        let mut all_eq = true;
        while k < nn
            invariant
                0 <= k <= nn,
                i + nn <= hn,
                hn == hay@.len(),
                nn == needle@.len(),
                all_eq == (forall|q: int| 0 <= q < k ==> hay@[i + q] == needle@[q]),
            decreases nn - k,
        {
            if hay.get_char(i + k) != needle.get_char(k) {
                proof {
                    assert(!(forall|q: int| 0 <= q < k + 1 ==> hay@[i + q] == needle@[q]));
                }
                all_eq = false;
                k = nn;
            } else {
                k = k + 1;
            }
        }
        if all_eq {
            proof {
                assert(hay@.subrange(i as int, i + nn as int) =~= needle@);
                assert(matches_at(hay@, needle@, i as int));
            }
            return true;
        }
        proof {
            if matches_at(hay@, needle@, i as int) {
                assert(forall|q: int| 0 <= q < nn ==> #[trigger] needle@[q] == hay@.subrange(
                    i as int,
                    i + nn as int,
                )[q]);
                assert(false);
            }
        }
        i = i + 1;
    }
    proof {
        assert(forall|p: int| matches_at(hay@, needle@, p) ==> 0 <= p <= hn - nn);
    }
    false
}

/// Whether two string slices hold the same characters.
pub fn str_eq(a: &str, b: &str) -> (r: bool)
    ensures
        r == (a@ == b@),
{
    let an = a.unicode_len();
    let bn = b.unicode_len();
    if an != bn {
        return false;
    }
    let mut i: usize = 0;
    while i < an
        invariant
            0 <= i <= an,
            an == a@.len(),
            an == b@.len(),
            forall|k: int| 0 <= k < i ==> a@[k] == b@[k],
        decreases an - i,
    {
        if a.get_char(i) != b.get_char(i) {
            return false;
        }
        i = i + 1;
    }
    proof {
        assert(a@ =~= b@);
    }
    true
}

/// The lines joined by single newlines, with nothing appended after the
/// last line; no lines give the empty text.
pub open spec fn join_with_newlines(ls: Seq<Seq<char>>) -> Seq<char>
    decreases ls.len(),
{
    if ls.len() == 0 {
        Seq::empty()
    } else if ls.len() == 1 {
        ls[0]
    } else {
        join_with_newlines(ls.drop_last()) + "\n"@ + ls.last()
    }
}

/// Join `lines` with single newlines.
pub fn join_lines(lines: &Vec<String>) -> (r: String)
    ensures
        r@ == join_with_newlines(lines.deep_view()),
{
    let ghost dv = lines.deep_view();
    let mut r = String::new();
    let mut i: usize = 0;
    while i < lines.len()
        invariant
            0 <= i <= lines.len(),
            dv == lines.deep_view(),
            dv.len() == lines.len(),
            r@ == join_with_newlines(dv.take(i as int)),
        decreases lines.len() - i,
    {
        if i > 0 {
            r.append("\n");
        }
        r.append(lines[i].as_str());
        proof {
            assert(dv.take(i + 1).drop_last() =~= dv.take(i as int));
            assert(dv.take(i + 1).last() == dv[i as int]);
            assert(lines[i as int]@ == dv[i as int]);
            if i == 0 {
                assert(r@ =~= join_with_newlines(dv.take(i + 1)));
            }
        }
        i = i + 1;
    }
    proof {
        assert(dv.take(i as int) =~= dv);
    }
    r
}

/// The character for one decimal digit.
pub open spec fn dec_digit(d: nat) -> char {
    if d == 0 {
        '0'
    } else if d == 1 {
        '1'
    } else if d == 2 {
        '2'
    } else if d == 3 {
        '3'
    } else if d == 4 {
        '4'
    } else if d == 5 {
        '5'
    } else if d == 6 {
        '6'
    } else if d == 7 {
        '7'
    } else if d == 8 {
        '8'
    } else {
        '9'
    }
}

/// The decimal rendering of `n`, most significant digit first,
/// without leading zeroes (a single `'0'` for zero).
pub open spec fn dec_str(n: nat) -> Seq<char>
    decreases n,
{
    if n < 10 {
        seq![dec_digit(n)]
    } else {
        dec_str(n / 10).push(dec_digit(n % 10))
    }
}

fn dec_digit_str(d: u64) -> (r: &'static str)
    requires
        d < 10,
    ensures
        r@ == seq![dec_digit(d as nat)],
{
    proof {
        reveal_strlit("0");
        reveal_strlit("1");
        reveal_strlit("2");
        reveal_strlit("3");
        reveal_strlit("4");
        reveal_strlit("5");
        reveal_strlit("6");
        reveal_strlit("7");
        reveal_strlit("8");
        reveal_strlit("9");
    }
    let r = if d == 0 {
        "0"
    } else if d == 1 {
        "1"
    } else if d == 2 {
        "2"
    } else if d == 3 {
        "3"
    } else if d == 4 {
        "4"
    } else if d == 5 {
        "5"
    } else if d == 6 {
        "6"
    } else if d == 7 {
        "7"
    } else if d == 8 {
        "8"
    } else {
        "9"
    };
    proof {
        assert(r@ =~= seq![dec_digit(d as nat)]);
    }
    r
}

/// Render `n` in decimal.
pub fn u64_to_string(n: u64) -> (r: String)
    ensures
        r@ == dec_str(n as nat),
    decreases n,
{
    if n < 10 {
        String::from_str(dec_digit_str(n))
    } else {
        let mut r = u64_to_string(n / 10);
        r.append(dec_digit_str(n % 10));
        proof {
            assert(r@ =~= dec_str(n as nat));
        }
        r
    }
}

/// A decimal digit.
pub open spec fn is_dec_digit(c: char) -> bool {
    48 <= c as int && c as int <= 57
}

/// The value of one decimal digit (zero for anything else).
pub open spec fn digit_of(c: char) -> nat {
    if is_dec_digit(c) {
        (c as int - 48) as nat
    } else {
        0
    }
}

/// The numeric value of a digit run, most significant digit first.
pub open spec fn dec_val(s: Seq<char>) -> nat
    decreases s.len(),
{
    if s.len() == 0 {
        0
    } else {
        dec_val(s.drop_last()) * 10 + digit_of(s.last())
    }
}

/// `s` with one leading plus sign removed, as integer parsing accepts it.
pub open spec fn plus_stripped(s: Seq<char>) -> Seq<char> {
    if s.len() >= 1 && s[0] == '+' {
        s.subrange(1, s.len() as int)
    } else {
        s
    }
}

/// `s` is the text of a `u64`: after an optional leading plus, at least
/// one character, all decimal digits, and a value that fits.
pub open spec fn is_u64_text(s: Seq<char>) -> bool {
    let d = plus_stripped(s);
    &&& d.len() >= 1
    &&& forall|i: int| 0 <= i < d.len() ==> is_dec_digit(d[i])
    &&& dec_val(d) <= u64::MAX
}

/// A longer digit prefix never has a smaller value.
proof fn lemma_dec_val_take_le(s: Seq<char>, j: int)
    requires
        0 <= j <= s.len(),
    ensures
        dec_val(s.take(j)) <= dec_val(s),
    decreases s.len(),
{
    if j == s.len() {
        assert(s.take(j) =~= s);
    } else {
        assert(s.take(j) =~= s.drop_last().take(j));
        lemma_dec_val_take_le(s.drop_last(), j);
        assert(dec_val(s.drop_last()) * 10 >= dec_val(s.drop_last()));
    }
}

/// Parse `s` as a `u64`, as `str::parse` reads it: an optional leading
/// plus, then decimal digits; anything else, or a value that does not
/// fit, is `None`.
pub fn parse_u64(s: &str) -> (r: Option<u64>)
    ensures
        r is Some <==> is_u64_text(s@),
        r matches Some(v) ==> v == dec_val(plus_stripped(s@)),
{
    let n = s.unicode_len();
    let start: usize = if n >= 1 && s.get_char(0) == '+' {
        1
    } else {
        0
    };
    let ghost d = plus_stripped(s@);
    proof {
        assert(d =~= s@.subrange(start as int, n as int));
    }
    if start >= n {
        proof {
            assert(plus_stripped(s@).len() == 0);
        }
        return None;
    }
    let mut acc: u64 = 0;
    let mut i = start;
    while i < n
        invariant
            start <= i <= n,
            n == s@.len(),
            d == plus_stripped(s@),
            d == s@.subrange(start as int, n as int),
            d.len() == n - start,
            forall|k: int| 0 <= k < i - start ==> is_dec_digit(d[k]),
            acc == dec_val(d.take(i - start)),
        decreases n - i,
    {
        let c = s.get_char(i);
        let x = c as u32;
        proof {
            assert(d[i - start] == s@[i as int]);
            assert(x as int == c as int);
        }
        if !(48 <= x && x <= 57) {
            proof {
                assert(!is_dec_digit(plus_stripped(s@)[i - start]));
                assert(!is_u64_text(s@));
            }
            return None;
        }
        let dv: u64 = (x - 48) as u64;
        proof {
            assert(is_dec_digit(d[i - start]));
            assert(digit_of(d[i - start]) == dv as nat);
            vstd::arithmetic::div_mod::lemma_fundamental_div_mod(
                (u64::MAX - dv) as int,
                10,
            );
            assert(d.take(i - start + 1).drop_last() =~= d.take(i - start));
            assert(d.take(i - start + 1).last() == d[i - start]);
            assert(dec_val(d.take(i - start + 1)) == acc * 10 + dv);
        }
        if acc > (u64::MAX - dv) / 10 {
            proof {
                assert(dec_val(d.take(i - start + 1)) > u64::MAX);
                lemma_dec_val_take_le(d, i - start + 1);
                assert(dec_val(plus_stripped(s@)) > u64::MAX);
                assert(!is_u64_text(s@));
            }
            return None;
        }
        acc = acc * 10 + dv;
        i = i + 1;
    }
    proof {
        assert(d.take(i - start) =~= d);
        assert(forall|k: int|
            0 <= k < plus_stripped(s@).len() ==> is_dec_digit(plus_stripped(s@)[k]));
        assert(dec_val(plus_stripped(s@)) == acc as nat);
        assert(is_u64_text(s@));
    }
    Some(acc)
}

/// The code point of `c`, with an ASCII capital folded to lower case.
pub open spec fn lower_ascii(c: char) -> int {
    if 65 <= c as int && c as int <= 90 {
        c as int + 32
    } else {
        c as int
    }
}

/// The two texts are equal up to ASCII letter case.
pub open spec fn eq_nocase(a: Seq<char>, b: Seq<char>) -> bool {
    a.len() == b.len() && (forall|i: int|
        0 <= i < a.len() ==> lower_ascii(a[i]) == lower_ascii(b[i]))
}

/// Compare two texts, folding ASCII letter case.
pub fn eq_ignore_ascii_case(a: &str, b: &str) -> (r: bool)
    ensures
        r == eq_nocase(a@, b@),
{
    let an = a.unicode_len();
    let bn = b.unicode_len();
    if an != bn {
        return false;
    }
    let mut i: usize = 0;
    while i < an
        invariant
            0 <= i <= an,
            an == a@.len(),
            an == b@.len(),
            forall|k: int| 0 <= k < i ==> lower_ascii(a@[k]) == lower_ascii(b@[k]),
        decreases an - i,
    {
        let xa = a.get_char(i) as u32;
        let xb = b.get_char(i) as u32;
        let la = if 65 <= xa && xa <= 90 {
            xa + 32
        } else {
            xa
        };
        let lb = if 65 <= xb && xb <= 90 {
            xb + 32
        } else {
            xb
        };
        if la != lb {
            return false;
        }
        i = i + 1;
    }
    true
}

/// Two distinct numbers never render to the same decimal string.
pub proof fn lemma_dec_str_injective(a: nat, b: nat)
    requires
        dec_str(a) == dec_str(b),
    ensures
        a == b,
    decreases a,
{
    lemma_dec_str_last(a);
    lemma_dec_str_last(b);
    if a < 10 && b < 10 {
        lemma_dec_digit_injective(a, b);
    } else if a < 10 {
        lemma_dec_str_len(b / 10);
        assert(dec_str(b).len() >= 2);
    } else if b < 10 {
        lemma_dec_str_len(a / 10);
        assert(dec_str(a).len() >= 2);
    } else {
        assert(dec_str(a).drop_last() == dec_str(a / 10));
        assert(dec_str(b).drop_last() == dec_str(b / 10));
        lemma_dec_digit_injective(a % 10, b % 10);
        lemma_dec_str_injective(a / 10, b / 10);
    }
}

proof fn lemma_dec_str_len(n: nat)
    ensures
        dec_str(n).len() >= 1,
    decreases n,
{
    if n >= 10 {
        lemma_dec_str_len(n / 10);
    }
}

proof fn lemma_dec_str_last(n: nat)
    ensures
        dec_str(n).len() >= 1,
        dec_str(n).last() == dec_digit(n % 10),
        n >= 10 ==> dec_str(n).drop_last() == dec_str(n / 10),
        n < 10 ==> dec_str(n).len() == 1,
    decreases n,
{
    if n < 10 {
    } else {
        lemma_dec_str_len(n / 10);
        assert(dec_str(n) == dec_str(n / 10).push(dec_digit(n % 10)));
        assert(dec_str(n).drop_last() =~= dec_str(n / 10));
    }
}

proof fn lemma_dec_digit_injective(a: nat, b: nat)
    requires
        a < 10,
        b < 10,
        dec_digit(a) == dec_digit(b),
    ensures
        a == b,
{
}

} // verus!
