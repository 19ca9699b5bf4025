//! Character-level text helpers: decimal formatting, Unicode whitespace,
//! trimming, line splitting and whitespace splitting, each proved against a
//! direct definition over `Seq<char>`.
use vstd::prelude::*;

verus! {

/// `String::push` of std: appends one character.
#[verifier::external_body]
pub(crate) fn push_char(s: &mut String, c: char)
    ensures
        final(s)@ == old(s)@.push(c),
{
    s.push(c)
}

/// The characters of `s`, in order.
pub fn chars_of(s: &str) -> (res: Vec<char>)
    ensures
        res@ == s@,
{
    let mut v: Vec<char> = Vec::new();
    for c in it: s.chars()
        invariant
            it.seq() == s@,
            v@ == it.seq().take(it.index()),
    {
        v.push(c);
    }
    v
}

/// The string made of the characters `v[from..to]`.
pub fn string_of_range(v: &Vec<char>, from: usize, to: usize) -> (res: String)
    requires
        from <= to <= v@.len(),
    ensures
        res@ == v@.subrange(from as int, to as int),
{
    let mut s = String::new();
    let mut i = from;
    while i < to
        invariant
            from <= i <= to <= v@.len(),
            s@ == v@.subrange(from as int, i as int),
        decreases to - i,
    {
        push_char(&mut s, v[i]);
        assert(v@.subrange(from as int, i + 1) =~= v@.subrange(from as int, i as int).push(v@[i as int]));
        i += 1;
    }
    s
}

/// The decimal digit character for `d < 10`.
pub open spec fn digit_char(d: nat) -> char {
    (48 + d) as char
}

/// Decimal notation of a natural number, without leading zeros.
pub open spec fn decimal(n: nat) -> Seq<char>
    decreases n,
{
    if n < 10 {
        seq![digit_char(n)]
    } else {
        decimal(n / 10).push(digit_char(n % 10))
    }
}

/// An integer written with at least two characters, zero-padded after the
/// sign, as `format!("{:02}", n)` writes it.
pub open spec fn zero_padded2(n: int) -> Seq<char> {
    if n < 0 {
        seq!['-'] + decimal((-n) as nat)
    } else if n < 10 {
        seq!['0'] + decimal(n as nat)
    } else {
        decimal(n as nat)
    }
}

fn digit(d: u32) -> (c: char)
    requires
        d < 10,
    ensures
        c == digit_char(d as nat),
{
    let b: u8 = 48u8 + (d as u8);
    b as char
}

/// Appends the decimal notation of `n` to `s`.
pub fn append_decimal(s: &mut String, n: u32)
    ensures
        final(s)@ == old(s)@ + decimal(n as nat),
    decreases n,
{
    if n >= 10 {
        append_decimal(s, n / 10);
    }
    push_char(s, digit(n % 10));
    assert(n >= 10 ==> decimal(n as nat) == decimal((n / 10) as nat).push(digit_char((n % 10) as nat)));
}

/// `n` in decimal notation.
pub fn decimal_string(n: u32) -> (res: String)
    ensures
        res@ == decimal(n as nat),
{
    let mut s = String::new();
    append_decimal(&mut s, n);
    assert(s@ =~= decimal(n as nat));
    s
}

/// `n` zero-padded to two characters.
pub fn zero_padded2_string(n: i32) -> (res: String)
    ensures
        res@ == zero_padded2(n as int),
{
    let mut s = String::new();
    if n < 0 {
        push_char(&mut s, '-');
        let wide: i64 = 0i64 - (n as i64);
        let magnitude: u32 = wide as u32;
        append_decimal(&mut s, magnitude);
    } else {
        if n < 10 {
            push_char(&mut s, '0');
        }
        append_decimal(&mut s, n as u32);
    }
    assert(s@ =~= zero_padded2(n as int));
    s
}

/// Unicode White_Space, the property that `char::is_whitespace` tests.
pub open spec fn is_space(c: char) -> bool {
    let u = c as u32;
    ||| 9 <= u <= 13
    ||| u == 32
    ||| u == 0x85
    ||| u == 0xA0
    ||| u == 0x1680
    ||| 0x2000 <= u <= 0x200A
    ||| u == 0x2028
    ||| u == 0x2029
    ||| u == 0x202F
    ||| u == 0x205F
    ||| u == 0x3000
}

/// Whether `c` is Unicode white space.
pub fn is_space_char(c: char) -> (res: bool)
    ensures
        res == is_space(c),
{
    let u = c as u32;
    (9 <= u && u <= 13) || u == 32 || u == 0x85 || u == 0xA0 || u == 0x1680 || (0x2000 <= u && u
        <= 0x200A) || u == 0x2028 || u == 0x2029 || u == 0x202F || u == 0x205F || u == 0x3000
}

/// `s` without its leading white space.
pub open spec fn trim_start(s: Seq<char>) -> Seq<char>
    decreases s.len(),
{
    if s.len() > 0 && is_space(s[0]) {
        trim_start(s.drop_first())
    } else {
        s
    }
}

/// `s` without its trailing white space.
pub open spec fn trim_end(s: Seq<char>) -> Seq<char>
    decreases s.len(),
{
    if s.len() > 0 && is_space(s.last()) {
        trim_end(s.drop_last())
    } else {
        s
    }
}

/// `s` without leading and trailing white space, as `str::trim` gives it.
pub open spec fn trim(s: Seq<char>) -> Seq<char> {
    trim_end(trim_start(s))
}

/// `s` trimmed of white space at both ends.
pub fn trimmed(s: &str) -> (res: String)
    ensures
        res@ == trim(s@),
{
    let v = chars_of(s);
    let n = v.len();
    let mut i: usize = 0;
    assert(v@.skip(0) =~= v@);
    while i < n && is_space_char(v[i])
        invariant
            i <= n == v@.len(),
            trim_start(v@) == trim_start(v@.skip(i as int)),
        decreases n - i,
    {
        assert(v@.skip(i as int).drop_first() =~= v@.skip(i + 1));
        i += 1;
    }
    assert(trim_start(v@) == v@.skip(i as int));
    let mut j: usize = n;
    while j > i && is_space_char(v[j - 1])
        invariant
            i <= j <= n == v@.len(),
            trim_end(v@.skip(i as int)) == trim_end(v@.subrange(i as int, j as int)),
        decreases j,
    {
        assert(v@.subrange(i as int, j as int).drop_last() =~= v@.subrange(i as int, j - 1));
        j -= 1;
    }
    assert(v@.skip(i as int) =~= v@.subrange(i as int, n as int));
    string_of_range(&v, i, j)
}

/// Length of the run of non-white-space characters that starts `s`.
pub open spec fn word_len(s: Seq<char>) -> nat
    decreases s.len(),
{
    if s.len() == 0 || is_space(s[0]) {
        0
    } else {
        1 + word_len(s.drop_first())
    }
}

/// The white-space separated words of `s`, as `str::split_whitespace`
/// yields them.
pub open spec fn words(s: Seq<char>) -> Seq<Seq<char>>
    decreases s.len(),
{
    if s.len() == 0 {
        seq![]
    } else if is_space(s[0]) {
        words(s.drop_first())
    } else {
        let k = word_len(s);
        proof {
            lemma_word_len_bound(s);
        }
        seq![s.take(k as int)] + words(s.skip(k as int))
    }
}

/// A word is no longer than the text, and is empty exactly when the text
/// is empty or starts with white space.
pub proof fn lemma_word_len_bound(s: Seq<char>)
    ensures
        word_len(s) <= s.len(),
        word_len(s) > 0 <==> (s.len() > 0 && !is_space(s[0])),
    decreases s.len(),
{
    if s.len() > 0 && !is_space(s[0]) {
        lemma_word_len_bound(s.drop_first());
    }
}

/// The words of `v[from..to]`.
pub fn split_words(v: &Vec<char>, from: usize, to: usize) -> (res: Vec<String>)
    requires
        from <= to <= v@.len(),
    ensures
        res@.map_values(|w: String| w@) == words(v@.subrange(from as int, to as int)),
{
    let ghost s = v@.subrange(from as int, to as int);
    let mut out: Vec<String> = Vec::new();
    let mut i = from;
    while i < to
        invariant
            from <= i <= to <= v@.len(),
            s == v@.subrange(from as int, to as int),
            words(s) == out@.map_values(|w: String| w@) + words(v@.subrange(i as int, to as int)),
        decreases to - i,
    {
        let ghost rest = v@.subrange(i as int, to as int);
        if is_space_char(v[i]) {
            assert(rest.drop_first() =~= v@.subrange(i + 1, to as int));
            i += 1;
        } else {
            let mut k = i + 1;
            assert(rest.drop_first() =~= v@.subrange(i + 1, to as int));
            while k < to && !is_space_char(v[k])
                invariant
                    i < k <= to <= v@.len(),
                    rest == v@.subrange(i as int, to as int),
                    word_len(rest) == (k - i) + word_len(v@.subrange(k as int, to as int)),
                decreases to - k,
            {
                assert(v@.subrange(k as int, to as int).drop_first() =~= v@.subrange(k + 1, to as int));
                k += 1;
            }
            let w = string_of_range(v, i, k);
            let ghost before = out@.map_values(|w: String| w@);
            out.push(w);
            assert(out@.map_values(|w: String| w@) =~= before.push(w@));
            assert(word_len(rest) == k - i);
            assert(rest.take((k - i) as int) =~= v@.subrange(i as int, k as int));
            assert(rest.skip((k - i) as int) =~= v@.subrange(k as int, to as int));
            assert(words(rest) == seq![v@.subrange(i as int, k as int)] + words(v@.subrange(k as int, to as int)));
            assert(before.push(w@) + words(v@.subrange(k as int, to as int)) =~= before + words(rest));
            i = k;
        }
    }
    assert(words(v@.subrange(i as int, to as int)) =~= Seq::<Seq<char>>::empty());
    assert(out@.map_values(|w: String| w@) + Seq::<Seq<char>>::empty() =~= out@.map_values(|w: String| w@));
    out
}

/// Number of characters before the first line feed of `s` (all of them when
/// there is none).
pub open spec fn line_len(s: Seq<char>) -> nat
    decreases s.len(),
{
    if s.len() == 0 || s[0] == '\n' {
        0
    } else {
        1 + line_len(s.drop_first())
    }
}

/// A line that ended in a line feed loses a carriage return before it.
pub open spec fn strip_cr(l: Seq<char>) -> Seq<char> {
    if l.len() > 0 && l.last() == '\r' {
        l.drop_last()
    } else {
        l
    }
}

/// A line is no longer than the text and holds no line feed; a line
/// shorter than the text ends at a line feed.
pub proof fn lemma_line_len_bound(s: Seq<char>)
    ensures
        line_len(s) <= s.len(),
        line_len(s) < s.len() ==> s[line_len(s) as int] == '\n',
        forall|j: int| 0 <= j < line_len(s) ==> s[j] != '\n',
    decreases s.len(),
{
    if s.len() > 0 && s[0] != '\n' {
        lemma_line_len_bound(s.drop_first());
        assert forall|j: int| 0 <= j < line_len(s) implies s[j] != '\n' by {
            if j > 0 {
                assert(s[j] == s.drop_first()[j - 1]);
            }
        }
    }
}

/// The lines of `s`, as `str::lines` yields them: split at `\n` or `\r\n`,
/// with no empty line after a final line ending.
pub open spec fn lines(s: Seq<char>) -> Seq<Seq<char>>
    decreases s.len(),
{
    if s.len() == 0 {
        seq![]
    } else {
        let k = line_len(s);
        proof {
            lemma_line_len_bound(s);
        }
        if k == s.len() {
            seq![s]
        } else {
            seq![strip_cr(s.take(k as int))] + lines(s.skip(k + 1 as int))
        }
    }
}

/// Index just past the line of `v` that starts at `from`, and the index at
/// which its text ends (before `\n` or `\r\n`).
pub fn next_line(v: &Vec<char>, from: usize) -> (res: (usize, usize))
    requires
        from < v@.len(),
    ensures
        ({
            let rest = v@.skip(from as int);
            let k = line_len(rest);
            &&& from < res.0 <= v@.len()
            &&& from <= res.1 <= res.0
            &&& k == rest.len() ==> res.0 == v@.len() && res.1 == v@.len()
            &&& k < rest.len() ==> res.0 == from + k + 1
                && v@.subrange(from as int, res.1 as int) == strip_cr(rest.take(k as int))
        }),
{
    let ghost rest = v@.skip(from as int);
    let n = v.len();
    let mut k = from;
    assert(v@.skip(from as int) =~= v@.skip(k as int));
    while k < n && v[k] != '\n'
        invariant
            from <= k <= n == v@.len(),
            rest == v@.skip(from as int),
            line_len(rest) == (k - from) + line_len(v@.skip(k as int)),
        decreases n - k,
    {
        assert(v@.skip(k as int).drop_first() =~= v@.skip(k + 1));
        k += 1;
    }
    proof {
        lemma_line_len_bound(rest);
    }
    if k == n {
        assert(line_len(v@.skip(k as int)) == 0);
        (n, n)
    } else {
        assert(line_len(v@.skip(k as int)) == 0);
        assert(rest.take((k - from) as int) =~= v@.subrange(from as int, k as int));
        if k > from && v[k - 1] == '\r' {
            assert(v@.subrange(from as int, k as int).drop_last() =~= v@.subrange(
                from as int,
                k - 1,
            ));
            (k + 1, k - 1)
        } else {
            (k + 1, k)
        }
    }
}

} // verus!
