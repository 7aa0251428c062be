//! Character-level utilities shared by the parsing and formatting code:
//! string equality, ASCII case-insensitive comparison, searching, trimming,
//! and decimal conversion.

use vstd::prelude::*;
use vstd::string::StrSliceExecFns;
use vstd::string::StringExecFns;

verus! {

/// Exact equality of two string slices, decided character by character.
pub fn str_eq(a: &str, b: &str) -> (r: bool)
    ensures
        r == (a@ == b@),
{
    let a_len = a.unicode_len();
    let b_len = b.unicode_len();
    if a_len != b_len {
        assert(a@ != b@) by {
            assert(a@.len() != b@.len());
        }
        return false;
    }
    let mut i: usize = 0;
    while i < a_len
        invariant
            a_len == a@.len(),
            b_len == b@.len(),
            a_len == b_len,
            i <= a_len,
            forall|j: int| 0 <= j < i ==> a@[j] == b@[j],
        decreases a_len - i,
    {
        if a.get_char(i) != b.get_char(i) {
            return false;
        }
        i += 1;
    }
    proof {
        assert(a@ =~= b@);
    }
    true
}

/// ASCII case folding on a Unicode code point: the uppercase letters fold
/// onto the lowercase ones, every other code point is left alone.
pub open spec fn fold_code(u: u32) -> u32 {
    if 65 <= u && u <= 90 {
        (u + 32) as u32
    } else {
        u
    }
}

/// Case-insensitive equality of two character sequences, folding ASCII
/// letters only, as header-field comparison requires.
pub open spec fn eq_ci(a: Seq<char>, b: Seq<char>) -> bool {
    &&& a.len() == b.len()
    &&& forall|i: int| 0 <= i < a.len() ==> fold_code(a[i] as u32) == fold_code(b[i] as u32)
}

/// Case-insensitive equality of two string slices.
pub fn str_eq_ci(a: &str, b: &str) -> (r: bool)
    ensures
        r == eq_ci(a@, b@),
{
    let a_len = a.unicode_len();
    let b_len = b.unicode_len();
    if a_len != b_len {
        return false;
    }
    let mut i: usize = 0;
    while i < a_len
        invariant
            a_len == a@.len(),
            b_len == b@.len(),
            a_len == b_len,
            i <= a_len,
            forall|j: int| 0 <= j < i ==> fold_code(a@[j] as u32) == fold_code(b@[j] as u32),
        decreases a_len - i,
    {
        let mut ua = a.get_char(i) as u32;
        let mut ub = b.get_char(i) as u32;
        if 65 <= ua && ua <= 90 {
            ua = ua + 32;
        }
        if 65 <= ub && ub <= 90 {
            ub = ub + 32;
        }
        if ua != ub {
            return false;
        }
        i += 1;
    }
    true
}

/// The first index at or after `from` where `c` occurs in `s`.
pub open spec fn find_char_from(s: Seq<char>, c: char, from: int) -> Option<int>
    decreases s.len() - from,
{
    if from < 0 || from >= s.len() {
        None
    } else if s[from] == c {
        Some(from)
    } else {
        find_char_from(s, c, from + 1)
    }
}

/// What a result of [`find_char_from`] means: the index found is the first
/// occurrence at or after `from`, and `None` means there is none.
pub proof fn lemma_find_char_from(s: Seq<char>, c: char, from: int)
    requires
        0 <= from,
    ensures
        match find_char_from(s, c, from) {
            Some(i) => from <= i < s.len() && s[i] == c && forall|j: int|
                from <= j < i ==> s[j] != c,
            None => forall|j: int| from <= j < s.len() ==> s[j] != c,
        },
    decreases s.len() - from,
{
    if from < 0 || from >= s.len() {
    } else if s[from] == c {
    } else {
        lemma_find_char_from(s, c, from + 1);
    }
}

/// Finds the first occurrence of `c` in `s` at or after index `from`.
pub fn find_char(s: &str, c: char, from: usize) -> (r: Option<usize>)
    requires
        from <= s@.len(),
    ensures
        match r {
            Some(i) => find_char_from(s@, c, from as int) == Some(i as int) && from <= i
                < s@.len(),
            None => find_char_from(s@, c, from as int) is None,
        },
{
    let len = s.unicode_len();
    let mut i: usize = from;
    while i < len
        invariant
            len == s@.len(),
            from <= i <= len,
            find_char_from(s@, c, from as int) == find_char_from(s@, c, i as int),
        decreases len - i,
    {
        if s.get_char(i) == c {
            return Some(i);
        }
        i += 1;
    }
    None
}

/// The first index at or after `from` where the two-character separator
/// `": "` begins in `s`.
pub open spec fn find_sep_from(s: Seq<char>, from: int) -> Option<int>
    decreases s.len() - from,
{
    if from < 0 || from + 1 >= s.len() {
        None
    } else if s[from] == ':' && s[from + 1] == ' ' {
        Some(from)
    } else {
        find_sep_from(s, from + 1)
    }
}

/// What a result of [`find_sep_from`] means.
pub proof fn lemma_find_sep_from(s: Seq<char>, from: int)
    requires
        0 <= from,
    ensures
        match find_sep_from(s, from) {
            Some(i) => from <= i && i + 1 < s.len() && s[i] == ':' && s[i + 1] == ' ',
            None => true,
        },
    decreases s.len() - from,
{
    if from < 0 || from + 1 >= s.len() {
    } else if s[from] == ':' && s[from + 1] == ' ' {
    } else {
        lemma_find_sep_from(s, from + 1);
    }
}

/// Finds the first occurrence of the separator `": "` in `s` at or after
/// index `from`.
pub fn find_sep(s: &str, from: usize) -> (r: Option<usize>)
    requires
        from <= s@.len(),
    ensures
        match r {
            Some(i) => find_sep_from(s@, from as int) == Some(i as int) && from <= i && i + 1
                < s@.len(),
            None => find_sep_from(s@, from as int) is None,
        },
{
    let len = s.unicode_len();
    if len == 0 {
        return None;
    }
    let mut i: usize = from;
    while i < len - 1
        invariant
            len == s@.len(),
            len >= 1,
            from <= i,
            i <= len,
            find_sep_from(s@, from as int) == find_sep_from(s@, i as int),
        decreases len - i,
    {
        if s.get_char(i) == ':' && s.get_char(i + 1) == ' ' {
            return Some(i);
        }
        i += 1;
    }
    None
}

/// The first index at or after `from` where the two-byte terminator
/// `CR LF` begins in `s`.
pub open spec fn find_crlf_from(s: Seq<u8>, from: int) -> Option<int>
    decreases s.len() - from,
{
    if from < 0 || from + 1 >= s.len() {
        None
    } else if s[from] == 13 && s[from + 1] == 10 {
        Some(from)
    } else {
        find_crlf_from(s, from + 1)
    }
}

/// What a result of [`find_crlf_from`] means: the position found holds the
/// first `CR LF` at or after `from`.
pub proof fn lemma_find_crlf_from(s: Seq<u8>, from: int)
    requires
        0 <= from,
    ensures
        match find_crlf_from(s, from) {
            Some(i) => from <= i && i + 2 <= s.len() && s[i] == 13 && s[i + 1] == 10 && forall|
                j: int,
            |
                from <= j < i ==> !(#[trigger] s[j] == 13 && s[j + 1] == 10),
            None => forall|j: int| from <= j && j + 1 < s.len() ==> !(#[trigger] s[j] == 13 && s[j
                + 1] == 10),
        },
    decreases s.len() - from,
{
    if from < 0 || from + 1 >= s.len() {
    } else if s[from] == 13 && s[from + 1] == 10 {
    } else {
        lemma_find_crlf_from(s, from + 1);
    }
}

/// Finds the first `CR LF` in `s` at or after index `from`.
pub fn find_crlf(s: &[u8], from: usize) -> (r: Option<usize>)
    requires
        from <= s@.len(),
    ensures
        match r {
            Some(i) => find_crlf_from(s@, from as int) == Some(i as int) && from <= i && i + 2
                <= s@.len(),
            None => find_crlf_from(s@, from as int) is None,
        },
{
    let len = s.len();
    if len == 0 {
        return None;
    }
    let mut i: usize = from;
    while i < len - 1
        invariant
            len == s@.len(),
            len >= 1,
            from <= i,
            i <= len,
            find_crlf_from(s@, from as int) == find_crlf_from(s@, i as int),
        decreases len - i,
    {
        if s[i] == 13u8 && s[i + 1] == 10u8 {
            return Some(i);
        }
        i += 1;
    }
    None
}

/// Whether a code point has the Unicode white-space property.
pub open spec fn is_ws_code(u: u32) -> bool {
    ||| u == 9
    ||| u == 10
    ||| u == 11
    ||| u == 12
    ||| u == 13
    ||| u == 32
    ||| u == 0x85
    ||| u == 0xA0
    ||| u == 0x1680
    ||| (0x2000 <= u && u <= 0x200A)
    ||| u == 0x2028
    ||| u == 0x2029
    ||| u == 0x202F
    ||| u == 0x205F
    ||| u == 0x3000
}

/// Whether a character is white space.
pub open spec fn is_ws(c: char) -> bool {
    is_ws_code(c as u32)
}

/// Decides [`is_ws`] on a character.
pub fn char_is_ws(c: char) -> (r: bool)
    ensures
        r == is_ws(c),
{
    let u = c as u32;
    u == 9 || u == 10 || u == 11 || u == 12 || u == 13 || u == 32 || u == 0x85 || u == 0xA0 || u
        == 0x1680 || (0x2000 <= u && u <= 0x200A) || u == 0x2028 || u == 0x2029 || u == 0x202F || u
        == 0x205F || u == 0x3000
}

/// `s` without its leading white space.
pub open spec fn trim_front(s: Seq<char>) -> Seq<char>
    decreases s.len(),
{
    if s.len() > 0 && is_ws(s[0]) {
        trim_front(s.drop_first())
    } else {
        s
    }
}

/// `s` without its trailing white space.
pub open spec fn trim_back(s: Seq<char>) -> Seq<char>
    decreases s.len(),
{
    if s.len() > 0 && is_ws(s[s.len() - 1]) {
        trim_back(s.drop_last())
    } else {
        s
    }
}

/// `s` without its leading and trailing white space.
pub open spec fn trim_chars(s: Seq<char>) -> Seq<char> {
    trim_back(trim_front(s))
}

/// A run of white space at the front trims away exactly to the first
/// non-white-space character.
proof fn lemma_trim_front_prefix(s: Seq<char>, k: int)
    requires
        0 <= k <= s.len(),
        forall|j: int| 0 <= j < k ==> is_ws(s[j]),
        k == s.len() || !is_ws(s[k]),
    ensures
        trim_front(s) =~= s.subrange(k, s.len() as int),
    decreases k,
{
    if k == 0 {
        if s.len() > 0 && is_ws(s[0]) {
            assert(false);
        }
        assert(trim_front(s) == s);
    } else {
        assert(is_ws(s[0]));
        let t = s.drop_first();
        assert(trim_front(s) == trim_front(t));
        assert(forall|j: int| 0 <= j < k - 1 ==> is_ws(t[j]));
        assert(k - 1 == t.len() || !is_ws(t[k - 1]));
        lemma_trim_front_prefix(t, k - 1);
        assert(t.subrange(k - 1, t.len() as int) =~= s.subrange(k, s.len() as int));
    }
}

/// A run of white space at the back trims away exactly to the last
/// non-white-space character.
proof fn lemma_trim_back_suffix(s: Seq<char>, k: int)
    requires
        0 <= k <= s.len(),
        forall|j: int| k <= j < s.len() ==> is_ws(s[j]),
        k == 0 || !is_ws(s[k - 1]),
    ensures
        trim_back(s) =~= s.subrange(0, k),
    decreases s.len() - k,
{
    if k == s.len() {
        if s.len() > 0 && is_ws(s[s.len() - 1]) {
            assert(false);
        }
        assert(trim_back(s) == s);
    } else {
        assert(is_ws(s[s.len() - 1]));
        let t = s.drop_last();
        assert(trim_back(s) == trim_back(t));
        lemma_trim_back_suffix(t, k);
        assert(t.subrange(0, k) =~= s.subrange(0, k));
    }
}

/// Trims leading and trailing white space from a string, returning an owned
/// copy of the middle.
pub fn trim(s: &str) -> (r: String)
    ensures
        r@ == trim_chars(s@),
{
    let len = s.unicode_len();
    let mut start: usize = 0;
    while start < len && char_is_ws(s.get_char(start))
        invariant
            len == s@.len(),
            start <= len,
            forall|j: int| 0 <= j < start ==> is_ws(s@[j]),
        decreases len - start,
    {
        start += 1;
    }
    proof {
        lemma_trim_front_prefix(s@, start as int);
    }
    if start == len {
        proof {
            assert(trim_front(s@) =~= Seq::<char>::empty());
            assert(trim_chars(s@) =~= Seq::<char>::empty());
        }
        return String::new();
    }
    let mut end: usize = len;
    while end > start && char_is_ws(s.get_char(end - 1))
        invariant
            len == s@.len(),
            start <= end <= len,
            !is_ws(s@[start as int]),
            forall|j: int| end <= j < len ==> is_ws(s@[j]),
        decreases end,
    {
        end -= 1;
    }
    proof {
        assert(end > start) by {
            if end == start {
                assert(is_ws(s@[start as int]));
            }
        }
        let f = trim_front(s@);
        assert(f =~= s@.subrange(start as int, len as int));
        lemma_trim_back_suffix(f, end - start);
        assert(f.subrange(0, end - start) =~= s@.subrange(start as int, end as int));
    }
    let piece = s.substring_char(start, end);
    piece.to_owned()
}

/// The character that writes a single decimal digit.
pub open spec fn digit_char(d: int) -> char {
    if d == 0 {
        '0'
    } else if d == 1 {
        '1'
    } else if d == 2 {
        '2'
    } else if d == 3 {
        '3'
    } else if d == 4 {
        '4'
    } else if d == 5 {
        '5'
    } else if d == 6 {
        '6'
    } else if d == 7 {
        '7'
    } else if d == 8 {
        '8'
    } else {
        '9'
    }
}

/// The decimal notation of a natural number, most significant digit first,
/// with no sign, no padding and no leading zero except for zero itself.
pub open spec fn dec_chars(n: nat) -> Seq<char>
    decreases n,
{
    if n < 10 {
        seq![digit_char(n as int)]
    } else {
        dec_chars(n / 10) + seq![digit_char((n % 10) as int)]
    }
}

/// The one-character string of a single decimal digit.
fn digit_str(d: usize) -> (r: &'static str)
    requires
        d < 10,
    ensures
        r@ =~= seq![digit_char(d as int)],
{
    let r: &'static str = if d == 0 {
        "0"
    } else if d == 1 {
        "1"
    } else if d == 2 {
        "2"
    } else if d == 3 {
        "3"
    } else if d == 4 {
        "4"
    } else if d == 5 {
        "5"
    } else if d == 6 {
        "6"
    } else if d == 7 {
        "7"
    } else if d == 8 {
        "8"
    } else {
        "9"
    };
    proof {
        reveal_strlit("0");
        reveal_strlit("1");
        reveal_strlit("2");
        reveal_strlit("3");
        reveal_strlit("4");
        reveal_strlit("5");
        reveal_strlit("6");
        reveal_strlit("7");
        reveal_strlit("8");
        reveal_strlit("9");
    }
    r
}

/// Writes a number in decimal notation.
pub fn usize_to_string(n: usize) -> (r: String)
    ensures
        r@ == dec_chars(n as nat),
    decreases n,
{
    if n < 10 {
        digit_str(n).to_owned()
    } else {
        let mut s = usize_to_string(n / 10);
        s.append(digit_str(n % 10));
        s
    }
}

/// Whether a character is a decimal digit.
pub open spec fn is_digit(c: char) -> bool {
    48 <= c as u32 && c as u32 <= 57
}

/// The numeric value of a decimal digit character.
pub open spec fn digit_val(c: char) -> int {
    c as u32 - 48
}

/// Whether every character of `s` is a decimal digit.
pub open spec fn all_digits(s: Seq<char>) -> bool {
    forall|i: int| 0 <= i < s.len() ==> is_digit(s[i])
}

/// The numeric value of a sequence of decimal digit characters.
pub open spec fn digits_val(s: Seq<char>) -> int
    decreases s.len(),
{
    if s.len() == 0 {
        0
    } else {
        digits_val(s.drop_last()) * 10 + digit_val(s.last())
    }
}

/// The digit part of an unsigned decimal token: an optional leading `+`
/// sign is skipped.
pub open spec fn usize_digits(s: Seq<char>) -> Seq<char> {
    if s.len() > 0 && s[0] == '+' {
        s.drop_first()
    } else {
        s
    }
}

/// What an unsigned decimal token denotes: the value of its digits, if it
/// has at least one digit, nothing else, and the value is representable.
pub open spec fn parse_usize_chars(s: Seq<char>) -> Option<nat> {
    let d = usize_digits(s);
    if d.len() > 0 && all_digits(d) && digits_val(d) <= usize::MAX {
        Some(digits_val(d) as nat)
    } else {
        None
    }
}

/// The value of a digit sequence never shrinks as digits are appended.
proof fn lemma_digits_val_monotone(s: Seq<char>, k: int)
    requires
        all_digits(s),
        0 <= k <= s.len(),
    ensures
        digits_val(s) >= digits_val(s.take(k)),
        digits_val(s.take(k)) >= 0,
    decreases s.len() - k,
{
    if k == s.len() {
        assert(s.take(k) =~= s);
        lemma_digits_val_nonneg(s);
    } else {
        lemma_digits_val_monotone(s, k + 1);
        let t = s.take(k + 1);
        assert(t.drop_last() =~= s.take(k));
        assert(is_digit(s[k]));
        assert(digits_val(t) == digits_val(s.take(k)) * 10 + digit_val(s[k]));
        lemma_digits_val_nonneg(s.take(k));
    }
}

/// The value of a digit sequence is never negative.
proof fn lemma_digits_val_nonneg(s: Seq<char>)
    requires
        all_digits(s),
    ensures
        digits_val(s) >= 0,
    decreases s.len(),
{
    if s.len() > 0 {
        assert(all_digits(s.drop_last()));
        lemma_digits_val_nonneg(s.drop_last());
        assert(is_digit(s.last()));
    }
}

/// Reads an unsigned decimal token: an optional `+` sign, then one or more
/// digits, nothing else, with a representable value. Anything else reads as
/// nothing.
pub fn parse_usize(s: &str) -> (r: Option<usize>)
    ensures
        match r {
            Some(n) => parse_usize_chars(s@) == Some(n as nat),
            None => parse_usize_chars(s@) is None,
        },
{
    let len = s.unicode_len();
    let mut start: usize = 0;
    if len > 0 && s.get_char(0) == '+' {
        start = 1;
    }
    let ghost d = usize_digits(s@);
    proof {
        assert(d =~= s@.subrange(start as int, len as int));
    }
    if start == len {
        return None;
    }
    let mut acc: usize = 0;
    let mut i: usize = start;
    while i < len
        invariant
            len == s@.len(),
            start <= i <= len,
            start < len,
            d == usize_digits(s@),
            d =~= s@.subrange(start as int, len as int),
            forall|j: int| start <= j < i ==> is_digit(s@[j]),
            all_digits(d.take(i - start)),
            acc == digits_val(d.take(i - start)),
        decreases len - i,
    {
        let c = s.get_char(i);
        let u = c as u32;
        if !(48 <= u && u <= 57) {
            proof {
                assert(!is_digit(d[i - start]));
                assert(!all_digits(d));
            }
            return None;
        }
        let dv = (u - 48) as usize;
        proof {
            assert(d.take(i - start + 1).drop_last() =~= d.take(i - start));
            assert(d.take(i - start + 1).last() == s@[i as int]);
        }
        let next = match acc.checked_mul(10) {
            Some(t) => t.checked_add(dv),
            None => None,
        };
        match next {
            Some(v) => {
                acc = v;
            },
            None => {
                proof {
                    if all_digits(d) {
                        let p = d.take(i - start + 1);
                        assert(all_digits(p));
                        assert(digits_val(p) == acc * 10 + dv);
                        assert(digits_val(p) > usize::MAX);
                        lemma_digits_val_monotone(d, i - start + 1);
                        assert(digits_val(d) >= digits_val(p));
                        assert(digits_val(d) > usize::MAX);
                    }
                }
                return None;
            },
        }
        i += 1;
    }
    proof {
        assert(d.take(i - start) =~= d);
    }
    Some(acc)
}

} // verus!
