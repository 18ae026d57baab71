//! Character and string utilities: whitespace, trimming, tokens,
//! decimal formatting and integer parsing.

use vstd::prelude::*;

verus! {

/// Unicode `White_Space` property, which `char::is_whitespace` tests.
pub open spec fn is_whitespace(c: char) -> bool {
    let u = c as u32;
    ||| (0x09 <= u && u <= 0x0D)
    ||| u == 0x20
    ||| u == 0x85
    ||| u == 0xA0
    ||| u == 0x1680
    ||| (0x2000 <= u && u <= 0x200A)
    ||| u == 0x2028
    ||| u == 0x2029
    ||| u == 0x202F
    ||| u == 0x205F
    ||| u == 0x3000
}

/// Tells whether `c` is a whitespace character.
pub fn char_is_whitespace(c: char) -> (b: bool)
    ensures
        b == is_whitespace(c),
{
    let u = c as u32;
    (0x09 <= u && u <= 0x0D) || u == 0x20 || u == 0x85 || u == 0xA0 || u == 0x1680 || (0x2000
        <= u && u <= 0x200A) || u == 0x2028 || u == 0x2029 || u == 0x202F || u == 0x205F || u
        == 0x3000
}


/// Appends `c` to `s` (std's `String::push`).
#[verifier::external_body]
pub(crate) fn push_char(s: &mut String, c: char)
    ensures
        final(s)@ == old(s)@.push(c),
{
    s.push(c);
}

/// The characters of `s`, in order.
pub fn chars_of(s: &str) -> (v: Vec<char>)
    ensures
        v@ == s@,
{
    let mut v: Vec<char> = Vec::new();
    for c in it: s.chars()
        invariant
            v@ == it.seq().take(it.index() as int),
            it.seq() == s@,
    {
        v.push(c);
    }
    v
}

/// A string holding the characters `v[from..to]`.
pub fn string_from_chars(v: &Vec<char>, from: usize, to: usize) -> (s: String)
    requires
        from <= to <= v.len(),
    ensures
        s@ == v@.subrange(from as int, to as int),
{
    let mut s = String::new();
    let mut i = from;
    while i < to
        invariant
            from <= i <= to <= v.len(),
            s@ == v@.subrange(from as int, i as int),
        decreases to - i,
    {
        push_char(&mut s, v[i]);
        assert(v@.subrange(from as int, i + 1) == v@.subrange(from as int, i as int).push(v@[i as int]));
        i = i + 1;
    }
    s
}


/// Length of the run of characters at the start of `s` whose whitespace-ness is `ws`.
pub open spec fn run_len(s: Seq<char>, ws: bool) -> nat
    decreases s.len(),
{
    if s.len() > 0 && is_whitespace(s[0]) == ws {
        1 + run_len(s.drop_first(), ws)
    } else {
        0
    }
}

/// Length of the run of characters at the end of `s` whose whitespace-ness is `ws`.
pub open spec fn back_run_len(s: Seq<char>, ws: bool) -> nat
    decreases s.len(),
{
    if s.len() > 0 && is_whitespace(s.last()) == ws {
        1 + back_run_len(s.drop_last(), ws)
    } else {
        0
    }
}

/// `s` without leading and trailing whitespace (`str::trim`).
pub open spec fn trim(s: Seq<char>) -> Seq<char> {
    let a = s.skip(run_len(s, true) as int);
    a.take(a.len() - back_run_len(a, true))
}

/// The first whitespace-separated token of `s`, if any (`split_whitespace().next()`).
pub open spec fn first_token(s: Seq<char>) -> Option<Seq<char>> {
    let a = s.skip(run_len(s, true) as int);
    if a.len() == 0 {
        None
    } else {
        Some(a.take(run_len(a, false) as int))
    }
}

/// What follows the first token of `s`.
pub open spec fn after_first_token(s: Seq<char>) -> Seq<char> {
    let a = s.skip(run_len(s, true) as int);
    a.skip(run_len(a, false) as int)
}

/// The second whitespace-separated token of `s`, if any (`split_whitespace().nth(1)`).
pub open spec fn second_token(s: Seq<char>) -> Option<Seq<char>> {
    first_token(after_first_token(s))
}

proof fn lemma_back_run_len_step(s: Seq<char>, ws: bool, lo: int, hi: int)
    requires
        0 <= lo < hi <= s.len(),
        is_whitespace(s[hi - 1]) == ws,
    ensures
        back_run_len(s.subrange(lo, hi), ws) == 1 + back_run_len(s.subrange(lo, hi - 1), ws),
{
    assert(s.subrange(lo, hi).drop_last() =~= s.subrange(lo, hi - 1));
}

/// End of the run of characters of `v[from..to]`, from its start, whose
/// whitespace-ness is `ws`.
pub fn run_end(v: &Vec<char>, from: usize, to: usize, ws: bool) -> (r: usize)
    requires
        from <= to <= v.len(),
    ensures
        r == from + run_len(v@.subrange(from as int, to as int), ws),
        r <= to,
{
    let mut i = from;
    while i < to && char_is_whitespace(v[i]) == ws
        invariant
            from <= i <= to <= v.len(),
            run_len(v@.subrange(from as int, to as int), ws) == (i - from) + run_len(
                v@.subrange(i as int, to as int),
                ws,
            ),
        decreases to - i,
    {
        proof {
            assert(v@.subrange(i as int, to as int).drop_first() =~= v@.subrange(i + 1, to as int));
        }
        i = i + 1;
    }
    proof {
        if i < to {
            assert(v@.subrange(i as int, to as int)[0] == v@[i as int]);
        }
    }
    i
}

/// Start of the run of characters of `v[lo..to]`, from its end, whose
/// whitespace-ness is `ws`.
pub fn back_run_start(v: &Vec<char>, lo: usize, to: usize, ws: bool) -> (r: usize)
    requires
        lo <= to <= v.len(),
    ensures
        r == to - back_run_len(v@.subrange(lo as int, to as int), ws),
        lo <= r <= to,
{
    let mut j = to;
    while j > lo && char_is_whitespace(v[j - 1]) == ws
        invariant
            lo <= j <= to <= v.len(),
            back_run_len(v@.subrange(lo as int, to as int), ws) == (to - j) + back_run_len(
                v@.subrange(lo as int, j as int),
                ws,
            ),
        decreases j,
    {
        proof {
            lemma_back_run_len_step(v@, ws, lo as int, j as int);
        }
        j = j - 1;
    }
    proof {
        if j > lo {
            assert(v@.subrange(lo as int, j as int).last() == v@[j - 1]);
        }
    }
    j
}

/// Bounds `(start, end)` of `trim(v[from..to])` within `v`.
pub fn trim_bounds(v: &Vec<char>, from: usize, to: usize) -> (r: (usize, usize))
    requires
        from <= to <= v.len(),
    ensures
        from <= r.0 <= r.1 <= to,
        v@.subrange(r.0 as int, r.1 as int) == trim(v@.subrange(from as int, to as int)),
{
    let start = run_end(v, from, to, true);
    let end = back_run_start(v, start, to, true);
    proof {
        let s = v@.subrange(from as int, to as int);
        let a = s.skip(run_len(s, true) as int);
        assert(a =~= v@.subrange(start as int, to as int));
        assert(v@.subrange(start as int, end as int) =~= a.take(a.len() - back_run_len(a, true)));
    }
    (start, end)
}

/// Bounds of the second whitespace-separated token of `v`, if there is one.
pub fn second_token_bounds(v: &Vec<char>) -> (r: Option<(usize, usize)>)
    ensures
        match r {
            Some((a, b)) => a <= b <= v.len() && second_token(v@) == Some(
                v@.subrange(a as int, b as int),
            ),
            None => second_token(v@) is None,
        },
{
    let n = v.len();
    let s1 = run_end(v, 0, n, true);
    let e1 = run_end(v, s1, n, false);
    let s2 = run_end(v, e1, n, true);
    let e2 = run_end(v, s2, n, false);
    proof {
        let s = v@;
        assert(s.subrange(0, n as int) =~= s);
        let a = s.skip(run_len(s, true) as int);
        assert(a =~= s.subrange(s1 as int, n as int));
        assert(after_first_token(s) =~= s.subrange(e1 as int, n as int)) by {
            assert(a.skip(run_len(a, false) as int) =~= s.subrange(e1 as int, n as int));
        }
        let t = after_first_token(s);
        let b = t.skip(run_len(t, true) as int);
        assert(b =~= s.subrange(s2 as int, n as int));
        if b.len() > 0 {
            assert(b.take(run_len(b, false) as int) =~= s.subrange(s2 as int, e2 as int));
        }
    }
    if s2 < n {
        Some((s2, e2))
    } else {
        None
    }
}

/// `c` is one of `0`..`9`.
pub open spec fn is_digit(c: char) -> bool {
    48 <= c as u32 && c as u32 <= 57
}

/// Value of the decimal digits `s` (all of them digits).
pub open spec fn digits_value(s: Seq<char>) -> nat
    decreases s.len(),
{
    if s.len() == 0 {
        0
    } else {
        digits_value(s.drop_last()) * 10 + (s.last() as u32 - 48) as nat
    }
}

/// All characters of `s` are decimal digits.
pub open spec fn all_digits(s: Seq<char>) -> bool {
    forall|i: int| 0 <= i < s.len() ==> is_digit(#[trigger] s[i])
}

/// `s` starts with a `-` that `str::parse` reads as a sign.
pub open spec fn int_negative(s: Seq<char>, signed: bool) -> bool {
    signed && s.len() > 0 && s[0] == '-'
}

/// The digits of an integer literal `s`, past its sign.
pub open spec fn int_body(s: Seq<char>, signed: bool) -> Seq<char> {
    if s.len() > 0 && (s[0] == '+' || int_negative(s, signed)) {
        s.drop_first()
    } else {
        s
    }
}

/// The integer that `str::parse` reads from `s`, before the range check: an
/// optional `+` (or `-` when `signed`), then one or more decimal digits.
pub open spec fn parse_int(s: Seq<char>, signed: bool) -> Option<int> {
    let body = int_body(s, signed);
    if body.len() == 0 || !all_digits(body) {
        None
    } else if int_negative(s, signed) {
        Some(-(digits_value(body) as int))
    } else {
        Some(digits_value(body) as int)
    }
}

/// `s.parse::<i64>().ok()`.
pub open spec fn parse_i64(s: Seq<char>) -> Option<i64> {
    match parse_int(s, true) {
        Some(v) => if i64::MIN <= v <= i64::MAX {
            Some(v as i64)
        } else {
            None
        },
        None => None,
    }
}

/// `s.parse::<usize>().ok()`.
pub open spec fn parse_usize(s: Seq<char>) -> Option<usize> {
    match parse_int(s, false) {
        Some(v) => if 0 <= v <= usize::MAX {
            Some(v as usize)
        } else {
            None
        },
        None => None,
    }
}

/// Reads the integer in `v[from..to]` as `str::parse` does, with `limit_pos`
/// and `limit_neg` bounding the magnitude of positive and negative values.
fn parse_range(v: &Vec<char>, from: usize, to: usize, signed: bool, limit_pos: u128, limit_neg: u128) -> (r: Option<i128>)
    requires
        from <= to <= v.len(),
        limit_pos <= u64::MAX,
        limit_neg <= u64::MAX,
    ensures
        match parse_int(v@.subrange(from as int, to as int), signed) {
            Some(x) => if (x >= 0 && x <= limit_pos) || (x < 0 && -x <= limit_neg) {
                r == Some(x as i128)
            } else {
                r is None
            },
            None => r is None,
        },
{
    let ghost s = v@.subrange(from as int, to as int);
    let neg = signed && from < to && v[from] == '-';
    let start = if from < to && (v[from] == '+' || neg) {
        from + 1
    } else {
        from
    };
    let ghost body = v@.subrange(start as int, to as int);
    assert(body =~= int_body(s, signed));
    let limit = if neg {
        limit_neg
    } else {
        limit_pos
    };
    if start == to {
        return None;
    }
    let mut acc: u128 = 0;
    let mut over = false;
    let mut i = start;
    while i < to
        invariant
            from <= start <= i <= to <= v.len(),
            body == v@.subrange(start as int, to as int),
            s == v@.subrange(from as int, to as int),
            neg == int_negative(s, signed),
            body == int_body(s, signed),
            limit == (if neg { limit_neg } else { limit_pos }),
            limit <= u64::MAX,
            forall|k: int| start <= k < i ==> is_digit(#[trigger] v@[k]),
            !over ==> acc == digits_value(v@.subrange(start as int, i as int)) && acc <= limit,
            over ==> digits_value(v@.subrange(start as int, i as int)) > limit,
        decreases to - i,
    {
        let c = v[i];
        let u = c as u32;
        if !(48 <= u && u <= 57) {
            assert(!is_digit(body[i - start]));
            return None;
        }
        let d = (u - 48) as u128;
        let ghost prev = v@.subrange(start as int, i as int);
        assert(v@.subrange(start as int, i + 1).drop_last() =~= prev);
        if !over {
            acc = acc * 10 + d;
            if acc > limit {
                over = true;
            }
        }
        i = i + 1;
    }
    assert(v@.subrange(start as int, i as int) =~= body);
    assert(all_digits(body)) by {
        assert forall|k: int| 0 <= k < body.len() implies is_digit(#[trigger] body[k]) by {
            assert(body[k] == v@[start + k]);
        }
    }
    if over {
        None
    } else if neg {
        Some(-(acc as i128))
    } else {
        Some(acc as i128)
    }
}

/// `v[from..to].parse::<i64>().ok()`.
pub fn parse_i64_range(v: &Vec<char>, from: usize, to: usize) -> (r: Option<i64>)
    requires
        from <= to <= v.len(),
    ensures
        r == parse_i64(v@.subrange(from as int, to as int)),
{
    match parse_range(v, from, to, true, 0x7fff_ffff_ffff_ffff, 0x8000_0000_0000_0000) {
        Some(x) => Some(x as i64),
        None => None,
    }
}

/// `v[from..to].parse::<usize>().ok()`.
pub fn parse_usize_range(v: &Vec<char>, from: usize, to: usize) -> (r: Option<usize>)
    requires
        from <= to <= v.len(),
    ensures
        r == parse_usize(v@.subrange(from as int, to as int)),
{
    match parse_range(v, from, to, false, usize::MAX as u128, 0) {
        Some(x) => Some(x as usize),
        None => None,
    }
}

/// Decimal digit character for `d < 10`.
pub open spec fn digit_char(d: nat) -> char {
    if d == 0 { '0' } else if d == 1 { '1' } else if d == 2 { '2' } else if d == 3 { '3' }
    else if d == 4 { '4' } else if d == 5 { '5' } else if d == 6 { '6' } else if d == 7 { '7' }
    else if d == 8 { '8' } else { '9' }
}

/// Decimal representation of `n`, without leading zeros.
pub open spec fn decimal(n: nat) -> Seq<char>
    decreases n,
{
    if n < 10 {
        seq![digit_char(n)]
    } else {
        decimal(n / 10).push(digit_char(n % 10))
    }
}

/// Decimal representation of `i`, with a `-` when negative (`i64`'s `Display`).
pub open spec fn signed_decimal(i: int) -> Seq<char> {
    if i < 0 {
        seq!['-'] + decimal((-i) as nat)
    } else {
        decimal(i as nat)
    }
}

fn digit_to_char(d: u64) -> (c: char)
    requires
        d < 10,
    ensures
        c == digit_char(d as nat),
{
    if d == 0 { '0' } else if d == 1 { '1' } else if d == 2 { '2' } else if d == 3 { '3' }
    else if d == 4 { '4' } else if d == 5 { '5' } else if d == 6 { '6' } else if d == 7 { '7' }
    else if d == 8 { '8' } else { '9' }
}

/// Appends the decimal representation of `n` to `s`.
pub fn push_decimal(s: &mut String, n: u64)
    ensures
        final(s)@ == old(s)@ + decimal(n as nat),
    decreases n,
{
    if n >= 10 {
        push_decimal(s, n / 10);
    }
    push_char(s, digit_to_char(n % 10));
    proof {
        if n >= 10 {
            assert(old(s)@ + decimal(n as nat) =~= (old(s)@ + decimal((n / 10) as nat)).push(
                digit_char((n % 10) as nat),
            ));
        } else {
            assert(old(s)@ + decimal(n as nat) =~= old(s)@.push(digit_char(n as nat)));
        }
    }
}

/// Appends the decimal representation of `i` (with its sign) to `s`.
pub fn push_signed_decimal(s: &mut String, i: i64)
    ensures
        final(s)@ == old(s)@ + signed_decimal(i as int),
{
    if i < 0 {
        push_char(s, '-');
        let m: u64 = if i == i64::MIN {
            0x8000_0000_0000_0000
        } else {
            (-i) as u64
        };
        push_decimal(s, m);
        assert(old(s)@ + signed_decimal(i as int) =~= old(s)@.push('-') + decimal(m as nat));
    } else {
        push_decimal(s, i as u64);
    }
}


/// The code of `c` after ASCII lowercasing.
pub open spec fn lower_code(c: char) -> u32 {
    let u = c as u32;
    if 65 <= u && u <= 90 {
        (u + 32) as u32
    } else {
        u
    }
}

/// `s` begins with the lowercase `p` once its ASCII letters are lowered.
pub open spec fn starts_with_ignore_case(s: Seq<char>, p: Seq<char>) -> bool {
    &&& p.len() <= s.len()
    &&& forall|i: int| 0 <= i < p.len() ==> lower_code(#[trigger] s[i]) == p[i] as u32
}

/// `t` occurs in `s` at position `i`.
pub open spec fn occurs_at(s: Seq<char>, t: Seq<char>, i: int) -> bool {
    0 <= i && i + t.len() <= s.len() && s.subrange(i, i + t.len()) == t
}

/// `t` occurs somewhere in `s` (`str::contains`).
pub open spec fn contains_seq(s: Seq<char>, t: Seq<char>) -> bool {
    exists|i: int| occurs_at(s, t, i)
}

/// Whether `v` begins with `p`, ignoring the case of ASCII letters in `v`.
pub fn starts_with_ignore_case_chars(v: &Vec<char>, p: &str) -> (b: bool)
    ensures
        b == starts_with_ignore_case(v@, p@),
{
    let pv = chars_of(p);
    if pv.len() > v.len() {
        return false;
    }
    let mut i: usize = 0;
    while i < pv.len()
        invariant
            pv@ == p@,
            pv.len() <= v.len(),
            i <= pv.len(),
            forall|k: int| 0 <= k < i ==> lower_code(#[trigger] v@[k]) == pv@[k] as u32,
        decreases pv.len() - i,
    {
        let u = v[i] as u32;
        let l = if 65 <= u && u <= 90 {
            u + 32
        } else {
            u
        };
        if l != pv[i] as u32 {
            assert(lower_code(v@[i as int]) != p@[i as int] as u32);
            return false;
        }
        i = i + 1;
    }
    true
}

/// Whether `v[at..]` begins with `t`.
fn occurs_at_exec(v: &Vec<char>, t: &Vec<char>, at: usize) -> (b: bool)
    requires
        at + t.len() <= v.len(),
    ensures
        b == occurs_at(v@, t@, at as int),
{
    let mut k: usize = 0;
    while k < t.len()
        invariant
            at + t.len() <= v.len(),
            k <= t.len(),
            forall|j: int| 0 <= j < k ==> v@[at + j] == t@[j],
        decreases t.len() - k,
    {
        if v[at + k] != t[k] {
            assert(v@.subrange(at as int, at + t.len())[k as int] != t@[k as int]);
            return false;
        }
        k = k + 1;
    }
    assert(v@.subrange(at as int, at + t.len()) =~= t@);
    true
}

/// Whether `t` occurs in `v`.
pub fn contains_chars(v: &Vec<char>, t: &str) -> (b: bool)
    ensures
        b == contains_seq(v@, t@),
{
    let tv = chars_of(t);
    if tv.len() > v.len() {
        assert(!contains_seq(v@, t@));
        return false;
    }
    if tv.len() == 0 {
        assert(v@.subrange(0, 0) =~= t@);
        assert(occurs_at(v@, t@, 0));
        return true;
    }
    let last = v.len() - tv.len();
    let mut i: usize = 0;
    while i <= last
        invariant
            tv@ == t@,
            last + tv.len() == v.len(),
            tv.len() > 0,
            i <= last + 1,
            forall|j: int| 0 <= j < i ==> !occurs_at(v@, t@, j),
        decreases last + 1 - i,
    {
        if occurs_at_exec(v, &tv, i) {
            return true;
        }
        i = i + 1;
    }
    assert forall|j: int| !occurs_at(v@, t@, j) by {
        if 0 <= j && j + t@.len() <= v@.len() {
            assert(j < i);
        }
    }
    false
}

/// Whether the characters of `a` and `b` are the same.
pub fn str_eq(a: &str, b: &str) -> (r: bool)
    ensures
        r == (a@ == b@),
{
    let av = chars_of(a);
    let bv = chars_of(b);
    if av.len() != bv.len() {
        return false;
    }
    let mut i: usize = 0;
    while i < av.len()
        invariant
            av@ == a@,
            bv@ == b@,
            av.len() == bv.len(),
            i <= av.len(),
            forall|k: int| 0 <= k < i ==> av@[k] == bv@[k],
        decreases av.len() - i,
    {
        if av[i] != bv[i] {
            return false;
        }
        i = i + 1;
    }
    assert(av@ =~= bv@);
    true
}


/// `s` begins with `p`.
pub open spec fn starts_with(s: Seq<char>, p: Seq<char>) -> bool {
    p.len() <= s.len() && s.take(p.len() as int) == p
}

/// Whether `v` begins with `p`.
pub fn starts_with_chars(v: &Vec<char>, p: &str) -> (b: bool)
    ensures
        b == starts_with(v@, p@),
{
    let pv = chars_of(p);
    if pv.len() > v.len() {
        return false;
    }
    let mut i: usize = 0;
    while i < pv.len()
        invariant
            pv@ == p@,
            pv.len() <= v.len(),
            i <= pv.len(),
            forall|k: int| 0 <= k < i ==> v@[k] == pv@[k],
        decreases pv.len() - i,
    {
        if v[i] != pv[i] {
            assert(v@.take(p@.len() as int)[i as int] != p@[i as int]);
            return false;
        }
        i = i + 1;
    }
    assert(v@.take(p@.len() as int) =~= p@);
    true
}

/// The leading run of `ws` characters: all of them have that whitespace-ness,
/// and the character after it, if any, does not.
pub proof fn lemma_run_len_bounds(s: Seq<char>, ws: bool)
    ensures
        run_len(s, ws) <= s.len(),
        forall|i: int| 0 <= i < run_len(s, ws) ==> is_whitespace(#[trigger] s[i]) == ws,
        run_len(s, ws) < s.len() ==> is_whitespace(s[run_len(s, ws) as int]) != ws,
    decreases s.len(),
{
    if s.len() > 0 && is_whitespace(s[0]) == ws {
        let t = s.drop_first();
        lemma_run_len_bounds(t, ws);
        assert forall|i: int| 0 <= i < run_len(s, ws) implies is_whitespace(#[trigger] s[i]) == ws by {
            if i > 0 {
                assert(s[i] == t[i - 1]);
            }
        }
        if run_len(s, ws) < s.len() {
            assert(s[run_len(s, ws) as int] == t[run_len(t, ws) as int]);
        }
    }
}

/// The trailing run of `ws` characters: all of them have that whitespace-ness,
/// and the character before it, if any, does not.
pub proof fn lemma_back_run_len_bounds(s: Seq<char>, ws: bool)
    ensures
        back_run_len(s, ws) <= s.len(),
        forall|i: int| s.len() - back_run_len(s, ws) <= i < s.len() ==> is_whitespace(#[trigger] s[i]) == ws,
        back_run_len(s, ws) < s.len() ==> is_whitespace(s[s.len() - back_run_len(s, ws) - 1]) != ws,
    decreases s.len(),
{
    if s.len() > 0 && is_whitespace(s.last()) == ws {
        let t = s.drop_last();
        lemma_back_run_len_bounds(t, ws);
        assert forall|i: int| s.len() - back_run_len(s, ws) <= i < s.len() implies is_whitespace(#[trigger] s[i]) == ws by {
            if i < s.len() - 1 {
                assert(s[i] == t[i]);
            }
        }
        if back_run_len(s, ws) < s.len() {
            assert(s[s.len() - back_run_len(s, ws) - 1] == t[t.len() - back_run_len(t, ws) - 1]);
        }
    }
}

/// `trim(s)` is the part of `s` between its leading and trailing whitespace:
/// a contiguous piece of `s`, with only whitespace outside it, that neither
/// starts nor ends with whitespace.
pub proof fn lemma_trim_is_core(s: Seq<char>)
    ensures
        exists|a: int, b: int|
            #![trigger s.subrange(a, b)]
            0 <= a <= b <= s.len() && trim(s) == s.subrange(a, b)
                && (forall|i: int| 0 <= i < a ==> is_whitespace(#[trigger] s[i]))
                && (forall|i: int| b <= i < s.len() ==> is_whitespace(#[trigger] s[i])),
        trim(s).len() > 0 ==> !is_whitespace(trim(s)[0]) && !is_whitespace(trim(s).last()),
{
    lemma_run_len_bounds(s, true);
    let a = run_len(s, true) as int;
    let t = s.skip(a);
    lemma_back_run_len_bounds(t, true);
    let e = back_run_len(t, true) as int;
    let b = s.len() - e;
    assert(trim(s) =~= s.subrange(a, b));
    assert forall|i: int| b <= i < s.len() implies is_whitespace(#[trigger] s[i]) by {
        assert(s[i] == t[i - a]);
    }
    if trim(s).len() > 0 {
        assert(trim(s)[0] == s[a]);
        assert(trim(s).last() == t[t.len() - e - 1]);
    }
}

/// Digits of `decimal(n)`: at least one, all decimal digits, worth `n`.
pub proof fn lemma_decimal_digits(n: nat)
    ensures
        decimal(n).len() >= 1,
        all_digits(decimal(n)),
        digits_value(decimal(n)) == n,
    decreases n,
{
    if n >= 10 {
        lemma_decimal_digits(n / 10);
        let s = decimal(n / 10);
        let d = digit_char(n % 10);
        assert(decimal(n) == s.push(d));
        assert(s.push(d).drop_last() =~= s);
        assert(all_digits(s.push(d))) by {
            assert forall|i: int| 0 <= i < s.push(d).len() implies is_digit(#[trigger] s.push(d)[i]) by {
                if i < s.len() {
                    assert(s.push(d)[i] == s[i]);
                }
            }
        }
        assert(digit_char(n % 10) as u32 == 48 + n % 10);
        assert(s.push(d).last() == d);
        assert(digits_value(s.push(d)) == digits_value(s) * 10 + (n % 10));
        assert((n / 10) * 10 + n % 10 == n);
    } else {
        assert(digit_char(n) as u32 == 48 + n);
        let s = decimal(n);
        assert(s.drop_last() =~= Seq::<char>::empty());
        assert(s.last() == digit_char(n));
        assert(digits_value(s) == digits_value(s.drop_last()) * 10 + (n as int));
    }
}

/// `str::parse::<i64>` reads back what `i64`'s `Display` writes.
pub proof fn lemma_parse_i64_signed_decimal(n: i64)
    ensures
        parse_i64(signed_decimal(n as int)) == Some(n),
{
    let s = signed_decimal(n as int);
    if n < 0 {
        let m = (-(n as int)) as nat;
        lemma_decimal_digits(m);
        assert(s.drop_first() =~= decimal(m));
        assert(int_negative(s, true));
        assert(int_body(s, true) == decimal(m));
    } else {
        lemma_decimal_digits(n as nat);
        assert(is_digit(s[0]));
        assert(int_body(s, true) == s);
    }
}

} // verus!
