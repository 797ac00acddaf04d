use vstd::prelude::*;
use vstd::utf8::*;

verus! {

/// Whether `c` carries the Unicode `White_Space` property, the test that
/// `char::is_whitespace` makes: U+0009 to U+000D, U+0020, U+0085, U+00A0,
/// U+1680, U+2000 to U+200A, U+2028, U+2029, U+202F, U+205F and U+3000.
pub open spec fn unicode_white_space(c: char) -> bool {
    let n = c as u32;
    ||| 0x09 <= n <= 0x0D
    ||| n == 0x20
    ||| n == 0x85
    ||| n == 0xA0
    ||| n == 0x1680
    ||| 0x2000 <= n <= 0x200A
    ||| n == 0x2028
    ||| n == 0x2029
    ||| n == 0x202F
    ||| n == 0x205F
    ||| n == 0x3000
}

/// Whether `c` is white space (what `char::is_whitespace` tests).
pub fn is_white_space(c: char) -> (b: bool)
    ensures
        b == unicode_white_space(c),
{
    let n = c as u32;
    (0x09 <= n && n <= 0x0D) || n == 0x20 || n == 0x85 || n == 0xA0 || n == 0x1680
        || (0x2000 <= n && n <= 0x200A) || n == 0x2028 || n == 0x2029 || n == 0x202F || n == 0x205F
        || n == 0x3000
}

/// Trusted: calls `String::push`, which appends `c` at the end of `s`.
#[verifier::external_body]
pub(crate) fn push_char(s: &mut String, c: char)
    ensures
        final(s)@ == old(s)@.push(c),
{
    s.push(c)
}

/// Trusted: calls `String::pop`, which removes and returns the last
/// character of `s`, or returns `None` and leaves `s` alone when it is empty.
#[verifier::external_body]
pub(crate) fn pop_char(s: &mut String) -> (r: Option<char>)
    ensures
        old(s)@.len() == 0 ==> r is None && final(s)@ == old(s)@,
        old(s)@.len() > 0 ==> r == Some(old(s)@.last()) && final(s)@ == old(s)@.drop_last(),
{
    s.pop()
}

/// What `String::from_utf8_lossy` makes of `bytes`.
pub uninterp spec fn utf8_lossy(bytes: Seq<u8>) -> Seq<char>;

/// Trusted: calls `String::from_utf8_lossy`, which decodes `bytes` as UTF-8
/// and puts U+FFFD in place of each invalid sequence; on valid UTF-8 that is
/// the plain decoding. The result in general is named `utf8_lossy`.
#[verifier::external_body]
pub(crate) fn from_utf8_lossy(bytes: &[u8]) -> (s: String)
    ensures
        s@ == utf8_lossy(bytes@),
        valid_utf8(bytes@) ==> s@ == decode_utf8(bytes@),
{
    String::from_utf8_lossy(bytes).into_owned()
}

/// The characters of `s`, in order.
pub fn chars_of(s: &str) -> (v: Vec<char>)
    ensures
        v@ == s@,
{
    let mut v: Vec<char> = Vec::new();
    for c in it: s.chars()
        invariant
            v@ == it.seq().take(it.index() as int),
    {
        v.push(c);
    }
    v
}

/// A string of the characters `v[from..to]`.
pub fn string_of_range(v: &Vec<char>, from: usize, to: usize) -> (s: String)
    requires
        from <= to <= v@.len(),
    ensures
        s@ == v@.subrange(from as int, to as int),
{
    let mut s = String::new();
    let mut i = from;
    while i < to
        invariant
            from <= i <= to <= v@.len(),
            s@ == v@.subrange(from as int, i as int),
        decreases to - i,
    {
        push_char(&mut s, v[i]);
        proof {
            assert(v@.subrange(from as int, i + 1) == v@.subrange(from as int, i as int).push(v@[i as int]));
        }
        i = i + 1;
    }
    s
}

/// `s` holds white space only (what `s.trim().is_empty()` tests).
pub open spec fn is_blank(s: Seq<char>) -> bool {
    forall|i: int| 0 <= i < s.len() ==> unicode_white_space(#[trigger] s[i])
}

/// Whether `s.trim()` is empty.
pub fn blank(s: &str) -> (b: bool)
    ensures
        b == is_blank(s@),
{
    let v = chars_of(s);
    let mut i: usize = 0;
    while i < v.len()
        invariant
            i <= v@.len(),
            v@ == s@,
            forall|j: int| 0 <= j < i ==> unicode_white_space(#[trigger] v@[j]),
        decreases v.len() - i,
    {
        if !is_white_space(v[i]) {
            return false;
        }
        i = i + 1;
    }
    true
}

/// `s` with its trailing white space removed (what `str::trim_end` gives).
pub open spec fn trim_end(s: Seq<char>) -> Seq<char>
    decreases s.len(),
{
    if s.len() > 0 && unicode_white_space(s.last()) {
        trim_end(s.drop_last())
    } else {
        s
    }
}

/// `s` with its leading white space removed (what `str::trim_start` gives).
pub open spec fn trim_start(s: Seq<char>) -> Seq<char>
    decreases s.len(),
{
    if s.len() > 0 && unicode_white_space(s[0]) {
        trim_start(s.drop_first())
    } else {
        s
    }
}

/// `trim_end(s)` is `s` cut at the first position from which only white space follows.
proof fn lemma_trim_end_prefix(s: Seq<char>, k: int)
    requires
        0 <= k <= s.len(),
        forall|j: int| k <= j < s.len() ==> unicode_white_space(#[trigger] s[j]),
        k == 0 || !unicode_white_space(s[k - 1]),
    ensures
        trim_end(s) == s.subrange(0, k),
    decreases s.len(),
{
    if s.len() > k {
        assert(s.drop_last().subrange(0, k) == s.subrange(0, k));
        lemma_trim_end_prefix(s.drop_last(), k);
    } else {
        assert(s.subrange(0, k) == s);
    }
}

/// `trim_start(s)` is `s` from the first position that is not white space.
proof fn lemma_trim_start_suffix(s: Seq<char>, k: int)
    requires
        0 <= k <= s.len(),
        forall|j: int| 0 <= j < k ==> unicode_white_space(#[trigger] s[j]),
        k == s.len() || !unicode_white_space(s[k]),
    ensures
        trim_start(s) == s.subrange(k, s.len() as int),
    decreases s.len(),
{
    if k > 0 {
        assert(s.drop_first().subrange(k - 1, s.len() - 1) == s.subrange(k, s.len() as int));
        lemma_trim_start_suffix(s.drop_first(), k - 1);
    } else {
        assert(s.subrange(0, s.len() as int) == s);
    }
}

/// `trim_start(s)` is `s` without a prefix made of white space only.
proof fn lemma_trim_start_cut(s: Seq<char>) -> (k: int)
    ensures
        0 <= k <= s.len(),
        trim_start(s) == s.subrange(k, s.len() as int),
        forall|j: int| 0 <= j < k ==> unicode_white_space(#[trigger] s[j]),
    decreases s.len(),
{
    if s.len() > 0 && unicode_white_space(s[0]) {
        let rest = s.drop_first();
        let k1 = lemma_trim_start_cut(rest);
        assert(rest.subrange(k1, rest.len() as int) =~= s.subrange(k1 + 1, s.len() as int));
        assert forall|j: int| 0 <= j < k1 + 1 implies unicode_white_space(#[trigger] s[j]) by {
            if j > 0 {
                assert(s[j] == rest[j - 1]);
            }
        }
        k1 + 1
    } else {
        assert(s.subrange(0, s.len() as int) =~= s);
        0
    }
}

/// A pattern that starts with a character other than white space occurs in
/// `s` exactly when it occurs in `s` with its leading white space removed.
pub proof fn lemma_contains_after_trim_start(s: Seq<char>, pat: Seq<char>)
    requires
        pat.len() > 0,
        !unicode_white_space(pat[0]),
    ensures
        contains_seq(trim_start(s), pat) <==> contains_seq(s, pat),
{
    let k = lemma_trim_start_cut(s);
    let t = s.subrange(k, s.len() as int);
    if contains_seq(t, pat) {
        let i = choose|i: int| occurs_at(t, pat, i);
        assert(s.subrange(i + k, i + k + pat.len()) =~= t.subrange(i, i + pat.len()));
        assert(occurs_at(s, pat, i + k));
    }
    if contains_seq(s, pat) {
        let i = choose|i: int| occurs_at(s, pat, i);
        assert(s.subrange(i, i + pat.len())[0] == s[i]);
        if i < k {
            assert(unicode_white_space(s[i]));
        }
        assert(t.subrange(i - k, i - k + pat.len()) =~= s.subrange(i, i + pat.len()));
        assert(occurs_at(t, pat, i - k));
    }
}

/// The index at which the trailing white space of `v` starts.
pub fn trim_end_index(v: &Vec<char>) -> (k: usize)
    ensures
        k <= v@.len(),
        trim_end(v@) == v@.subrange(0, k as int),
{
    let mut k = v.len();
    while k > 0 && is_white_space(v[k - 1])
        invariant
            k <= v@.len(),
            forall|j: int| k <= j < v@.len() ==> unicode_white_space(#[trigger] v@[j]),
        decreases k,
    {
        k = k - 1;
    }
    proof {
        lemma_trim_end_prefix(v@, k as int);
    }
    k
}

/// The index at which the leading white space of `v[from..]` ends.
pub fn trim_start_index(v: &Vec<char>, from: usize) -> (k: usize)
    requires
        from <= v@.len(),
    ensures
        from <= k <= v@.len(),
        trim_start(v@.subrange(from as int, v@.len() as int)) == v@.subrange(k as int, v@.len() as int),
{
    let mut k = from;
    while k < v.len() && is_white_space(v[k])
        invariant
            from <= k <= v@.len(),
            forall|j: int| from <= j < k ==> unicode_white_space(#[trigger] v@[j]),
        decreases v.len() - k,
    {
        k = k + 1;
    }
    proof {
        let t = v@.subrange(from as int, v@.len() as int);
        assert forall|j: int| 0 <= j < k - from implies unicode_white_space(#[trigger] t[j]) by {
            assert(t[j] == v@[from + j]);
        }
        lemma_trim_start_suffix(t, k - from);
        assert(t.subrange(k - from, t.len() as int) == v@.subrange(k as int, v@.len() as int));
    }
    k
}

/// `trim_end(s)` as a new string.
pub fn trimmed_end(s: &str) -> (r: String)
    ensures
        r@ == trim_end(s@),
{
    let v = chars_of(s);
    let k = trim_end_index(&v);
    string_of_range(&v, 0, k)
}

/// Whether `pat` occurs in `s` at position `i`.
pub open spec fn occurs_at(s: Seq<char>, pat: Seq<char>, i: int) -> bool {
    0 <= i && i + pat.len() <= s.len() && s.subrange(i, i + pat.len()) == pat
}

/// Whether `pat` occurs in `s` (what `str::contains` tests for a string pattern).
pub open spec fn contains_seq(s: Seq<char>, pat: Seq<char>) -> bool {
    exists|i: int| occurs_at(s, pat, i)
}

/// Whether `pat` occurs in `v[from..]`.
pub fn contains_from(v: &Vec<char>, from: usize, pat: &Vec<char>) -> (b: bool)
    requires
        from <= v@.len(),
    ensures
        b == contains_seq(v@.subrange(from as int, v@.len() as int), pat@),
{
    let ghost t = v@.subrange(from as int, v@.len() as int);
    if pat.len() == 0 {
        proof {
            assert(t.subrange(0, 0) =~= pat@);
            assert(occurs_at(t, pat@, 0));
        }
        return true;
    }
    if pat.len() > v.len() - from {
        proof {
            assert forall|i: int| !occurs_at(t, pat@, i) by {}
        }
        return false;
    }
    let n = v.len();
    let last = n - pat.len();
    let mut i = from;
    while i <= last
        invariant
            from <= i <= last + 1,
            0 < pat@.len(),
            n == v@.len(),
            last + pat@.len() == n,
            t == v@.subrange(from as int, v@.len() as int),
            forall|j: int| 0 <= j < i - from ==> !occurs_at(t, pat@, j),
        decreases last + 1 - i,
    {
        let mut k: usize = 0;
        let mut same = true;
        while k < pat.len()
            invariant
                i <= last,
                n == v@.len(),
                last + pat@.len() == n,
                k <= pat@.len(),
                same == (forall|m: int| 0 <= m < k ==> v@[i + m] == pat@[m]),
            decreases pat.len() - k,
        {
            assert(i + k < v@.len());
            if v[i + k] != pat[k] {
                same = false;
            }
            k = k + 1;
        }
        let ghost j = i - from;
        proof {
            if same {
                assert(t.subrange(j, j + pat@.len()) =~= pat@);
                assert(occurs_at(t, pat@, j));
            } else {
                let m = choose|m: int| 0 <= m < pat@.len() && v@[i + m] != pat@[m];
                assert(t.subrange(j, j + pat@.len())[m] == v@[i + m]);
            }
        }
        if same {
            return true;
        }
        i = i + 1;
    }
    proof {
        assert forall|j: int| !occurs_at(t, pat@, j) by {
            if occurs_at(t, pat@, j) {
                assert(j < i - from);
            }
        }
    }
    false
}

/// The decimal digit `d` (for `d < 10`).
pub open spec fn digit_char(d: nat) -> char {
    if d == 0 { '0' } else if d == 1 { '1' } else if d == 2 { '2' } else if d == 3 { '3' }
    else if d == 4 { '4' } else if d == 5 { '5' } else if d == 6 { '6' } else if d == 7 { '7' }
    else if d == 8 { '8' } else { '9' }
}

/// The decimal numeral of `n`, as `Display` writes an unsigned integer.
pub open spec fn decimal(n: nat) -> Seq<char>
    decreases n,
{
    if n < 10 {
        seq![digit_char(n)]
    } else {
        decimal(n / 10).push(digit_char(n % 10))
    }
}

fn digit(d: usize) -> (c: char)
    requires
        d < 10,
    ensures
        c == digit_char(d as nat),
{
    match d {
        0 => '0',
        1 => '1',
        2 => '2',
        3 => '3',
        4 => '4',
        5 => '5',
        6 => '6',
        7 => '7',
        8 => '8',
        _ => '9',
    }
}

/// Appends the decimal numeral of `n` to `s`.
pub fn push_decimal(s: &mut String, n: usize)
    ensures
        final(s)@ == old(s)@ + decimal(n as nat),
    decreases n,
{
    if n >= 10 {
        push_decimal(s, n / 10);
    }
    push_char(s, digit(n % 10));
    proof {
        if n >= 10 {
            assert(old(s)@ + decimal(n as nat) == old(s)@ + decimal((n / 10) as nat) + seq![digit_char((n % 10) as nat)]);
        } else {
            assert(old(s)@ + decimal(n as nat) == old(s)@.push(digit_char((n % 10) as nat)));
        }
    }
}

/// Appends the characters of `t` to `s`.
pub fn push_str(s: &mut String, t: &str)
    ensures
        final(s)@ == old(s)@ + t@,
{
    s.append(t);
}

} // verus!
