//! Character-level text helpers: trimming, decimal numbers, padding and
//! the few standard-library string operations the rest of the crate needs.
use vstd::prelude::*;
use vstd::string::StringExecFns;

verus! {

broadcast use vstd::string::group_string_axioms;

/// The characters of `s`, in order.
pub fn chars_of(s: &str) -> (v: Vec<char>)
    ensures
        v@ == s@,
{
    let mut v: Vec<char> = Vec::new();
    for c in it: s.chars()
        invariant
            it.seq() == s@,
            v@ == it.seq().take(it.index()),
    {
        v.push(c);
    }
    v
}

/// Appends one character to `s` (std `String::push`).
#[verifier::external_body]
pub(crate) fn push_char(s: &mut String, c: char)
    ensures
        final(s)@ == old(s)@.push(c),
{
    s.push(c);
}

/// Removes and returns the last character of `s` (std `String::pop`).
#[verifier::external_body]
pub(crate) fn pop_char(s: &mut String) -> (r: Option<char>)
    ensures
        old(s)@.len() == 0 ==> r is None && final(s)@ == old(s)@,
        old(s)@.len() > 0 ==> r == Some(old(s)@.last()) && final(s)@ == old(s)@.drop_last(),
{
    s.pop()
}

/// A new string holding `v[lo..hi]`.
pub fn string_from_range(v: &Vec<char>, lo: usize, hi: usize) -> (r: String)
    requires
        lo <= hi <= v@.len(),
    ensures
        r@ == v@.subrange(lo as int, hi as int),
{
    let mut r = String::new();
    let mut i: usize = lo;
    while i < hi
        invariant
            lo <= i <= hi <= v@.len(),
            r@ == v@.subrange(lo as int, i as int),
        decreases hi - i,
    {
        push_char(&mut r, v[i]);
        assert(v@.subrange(lo as int, i + 1) == v@.subrange(lo as int, i as int).push(v@[i as int]));
        i = i + 1;
    }
    r
}

/// `a` followed by `b`, as a new string.
pub fn concat(a: &str, b: &str) -> (r: String)
    ensures
        r@ == a@ + b@,
{
    let mut r = a.to_owned();
    r.append(b);
    r
}

/// Whether `c` has the Unicode White_Space property, the set that
/// `char::is_whitespace` and `str::trim` go by.
pub open spec fn is_white_space(c: char) -> bool {
    let u = c as u32;
    ||| 0x09 <= u <= 0x0d
    ||| u == 0x20
    ||| u == 0x85
    ||| u == 0xa0
    ||| u == 0x1680
    ||| 0x2000 <= u <= 0x200a
    ||| u == 0x2028
    ||| u == 0x2029
    ||| u == 0x202f
    ||| u == 0x205f
    ||| u == 0x3000
}

/// Decides `is_white_space`.
pub fn white_space(c: char) -> (r: bool)
    ensures
        r == is_white_space(c),
{
    let u = c as u32;
    (0x09 <= u && u <= 0x0d) || u == 0x20 || u == 0x85 || u == 0xa0 || u == 0x1680 || (0x2000
        <= u && u <= 0x200a) || u == 0x2028 || u == 0x2029 || u == 0x202f || u == 0x205f || u
        == 0x3000
}

/// `s` without its leading white space.
pub open spec fn trim_start_spec(s: Seq<char>) -> Seq<char>
    decreases s.len(),
{
    if s.len() > 0 && is_white_space(s[0]) {
        trim_start_spec(s.drop_first())
    } else {
        s
    }
}

/// `s` without its trailing white space.
pub open spec fn trim_end_spec(s: Seq<char>) -> Seq<char>
    decreases s.len(),
{
    if s.len() > 0 && is_white_space(s.last()) {
        trim_end_spec(s.drop_last())
    } else {
        s
    }
}

/// `s` without leading and trailing white space, as `str::trim` gives it.
pub open spec fn trimmed(s: Seq<char>) -> Seq<char> {
    trim_end_spec(trim_start_spec(s))
}

/// Whether `s` holds nothing but white space.
pub open spec fn is_blank_spec(s: Seq<char>) -> bool {
    trimmed(s).len() == 0
}

/// `s` with leading and trailing white space removed.
pub fn trim(s: &str) -> (r: String)
    ensures
        r@ == trimmed(s@),
{
    let v = chars_of(s);
    let n = v.len();
    let mut lo: usize = 0;
    assert(v@.subrange(0, n as int) == v@);
    while lo < n && white_space(v[lo])
        invariant
            lo <= n == v@.len(),
            trim_start_spec(v@) == trim_start_spec(v@.subrange(lo as int, n as int)),
        decreases n - lo,
    {
        assert(v@.subrange(lo as int, n as int).drop_first() == v@.subrange(lo + 1, n as int));
        lo = lo + 1;
    }
    let mut hi: usize = n;
    while hi > lo && white_space(v[hi - 1])
        invariant
            lo <= hi <= n == v@.len(),
            trim_start_spec(v@) == v@.subrange(lo as int, n as int),
            trim_end_spec(v@.subrange(lo as int, n as int)) == trim_end_spec(
                v@.subrange(lo as int, hi as int),
            ),
        decreases hi - lo,
    {
        assert(v@.subrange(lo as int, hi as int).drop_last() == v@.subrange(lo as int, hi - 1));
        hi = hi - 1;
    }
    string_from_range(&v, lo, hi)
}

/// Whether `s` is empty once trimmed.
pub fn is_blank(s: &str) -> (b: bool)
    ensures
        b == is_blank_spec(s@),
{
    let t = trim(s);
    t.as_str().is_empty()
}

/// Whether `c` is one of the ASCII white-space characters: tab, line feed,
/// vertical tab, form feed, carriage return, space.
pub open spec fn ascii_space(c: char) -> bool {
    c == '\t' || c == '\n' || c == '\u{b}' || c == '\u{c}' || c == '\r' || c == ' '
}

/// Whether every character of `t` is ASCII white space.
pub open spec fn all_ascii_space(t: Seq<char>) -> bool {
    forall|i: int| 0 <= i < t.len() ==> ascii_space(#[trigger] t[i])
}

proof fn lemma_trim_start_skips(t: Seq<char>, x: Seq<char>)
    requires
        all_ascii_space(t),
    ensures
        trim_start_spec(t + x) == trim_start_spec(x),
    decreases t.len(),
{
    if t.len() == 0 {
        assert(t + x =~= x);
    } else {
        assert(ascii_space(t[0]));
        assert((t + x)[0] == t[0]);
        assert((t + x).drop_first() =~= t.drop_first() + x);
        assert(all_ascii_space(t.drop_first())) by {
            assert forall|i: int| 0 <= i < t.drop_first().len() implies ascii_space(
                #[trigger] t.drop_first()[i],
            ) by {
                assert(t.drop_first()[i] == t[i + 1]);
            }
        }
        lemma_trim_start_skips(t.drop_first(), x);
    }
}

proof fn lemma_trim_end_skips(x: Seq<char>, t: Seq<char>)
    requires
        all_ascii_space(t),
    ensures
        trim_end_spec(x + t) == trim_end_spec(x),
    decreases t.len(),
{
    if t.len() == 0 {
        assert(x + t =~= x);
    } else {
        assert(ascii_space(t[t.len() - 1]));
        assert((x + t).last() == t[t.len() - 1]);
        assert((x + t).drop_last() =~= x + t.drop_last());
        assert(all_ascii_space(t.drop_last())) by {
            assert forall|i: int| 0 <= i < t.drop_last().len() implies ascii_space(
                #[trigger] t.drop_last()[i],
            ) by {
                assert(t.drop_last()[i] == t[i]);
            }
        }
        lemma_trim_end_skips(x, t.drop_last());
    }
}

proof fn lemma_trim_start_of_tail(x: Seq<char>, t: Seq<char>)
    requires
        all_ascii_space(t),
    ensures
        trim_start_spec(x + t) == if trim_start_spec(x).len() == 0 {
            Seq::<char>::empty()
        } else {
            trim_start_spec(x) + t
        },
    decreases x.len(),
{
    if x.len() == 0 {
        assert(x + t =~= t);
        lemma_trim_start_skips(t, Seq::<char>::empty());
        assert(t + Seq::<char>::empty() =~= t);
    } else {
        assert((x + t)[0] == x[0]);
        if is_white_space(x[0]) {
            assert((x + t).drop_first() =~= x.drop_first() + t);
            lemma_trim_start_of_tail(x.drop_first(), t);
        }
    }
}

/// Trimming ignores ASCII white space before and after a text: a line
/// with a carriage return and line feed at its end, or spaces and tabs
/// around it, trims to the same text as the bare line.
pub proof fn lemma_trim_ignores_ascii_space(s: Seq<char>, t: Seq<char>, u: Seq<char>)
    requires
        all_ascii_space(t),
        all_ascii_space(u),
    ensures
        trimmed(t + s + u) == trimmed(s),
{
    lemma_trim_start_skips(t, s + u);
    assert(t + s + u =~= t + (s + u));
    lemma_trim_start_of_tail(s, u);
    if trim_start_spec(s).len() > 0 {
        lemma_trim_end_skips(trim_start_spec(s), u);
    }
}

/// Every ASCII white-space character is white space, so `str::trim`
/// removes it.
pub proof fn lemma_ascii_space_is_white_space(c: char)
    requires
        ascii_space(c),
    ensures
        is_white_space(c),
{
}

/// What `str::to_lowercase` gives for a text that is not all ASCII:
/// Unicode lowercase mapping, which can change a string's length.
pub uninterp spec fn spec_to_lowercase(s: Seq<char>) -> Seq<char>;

/// The ASCII lowercase of `c`; other characters are kept.
pub open spec fn ascii_lower(c: char) -> char {
    if 'A' <= c <= 'Z' {
        ((c as u32) + 32) as char
    } else {
        c
    }
}

/// Whether every character of `s` is ASCII.
pub open spec fn all_ascii(s: Seq<char>) -> bool {
    forall|i: int| 0 <= i < s.len() ==> (s[i] as u32) < 128
}

/// The lowercase of `s`: for ASCII text each letter lowered and nothing
/// else changed, as documented; otherwise the named Unicode mapping.
pub open spec fn lowercase(s: Seq<char>) -> Seq<char> {
    if all_ascii(s) {
        s.map_values(|c: char| ascii_lower(c))
    } else {
        spec_to_lowercase(s)
    }
}

/// std `str::to_lowercase`. What it does to non-ASCII text is named by
/// `spec_to_lowercase` and left unsaid.
#[verifier::external_body]
pub(crate) fn to_lowercase(s: &str) -> (r: String)
    ensures
        all_ascii(s@) ==> r@ == s@.map_values(|c: char| ascii_lower(c)),
        !all_ascii(s@) ==> r@ == spec_to_lowercase(s@),
{
    s.to_lowercase()
}

/// What `format!("{:?}", s)` gives for a string slice that holds more than
/// plain characters: the text in double quotes with special characters
/// escaped.
pub uninterp spec fn spec_debug_text(s: Seq<char>) -> Seq<char>;

/// Whether every character of `s` is printable ASCII other than a double
/// quote or a backslash: the characters `Debug` writes unescaped.
pub open spec fn plain_text(s: Seq<char>) -> bool {
    forall|i: int|
        0 <= i < s.len() ==> 0x20 <= (s[i] as u32) <= 0x7e && s[i] != '"' && s[i] != '\\'
}

/// The `Debug` rendering of a string slice.
pub open spec fn debug_rendering(s: Seq<char>) -> Seq<char> {
    if plain_text(s) {
        seq!['"'] + s + seq!['"']
    } else {
        spec_debug_text(s)
    }
}

/// The `Debug` rendering of a string slice (std `<str as Debug>::fmt`):
/// plain text is only put in double quotes; how other text is escaped is
/// named by `spec_debug_text` and left unsaid.
#[verifier::external_body]
pub(crate) fn debug_text(s: &str) -> (r: String)
    ensures
        plain_text(s@) ==> r@ == seq!['"'] + s@ + seq!['"'],
        !plain_text(s@) ==> r@ == spec_debug_text(s@),
{
    format!("{:?}", s)
}

/// The decimal digit `d` as a character.
pub open spec fn digit_char(d: int) -> char {
    (('0' as int) + d) as char
}

/// Decimal notation of a natural number, without leading zeros.
pub open spec fn nat_decimal(n: nat) -> Seq<char>
    decreases n,
{
    if n < 10 {
        seq![digit_char(n as int)]
    } else {
        nat_decimal(n / 10).push(digit_char((n % 10) as int))
    }
}

/// Decimal notation of an integer, as `Display` writes it: a minus sign
/// before negative numbers.
pub open spec fn int_decimal(n: int) -> Seq<char> {
    if n < 0 {
        seq!['-'] + nat_decimal((-n) as nat)
    } else {
        nat_decimal(n as nat)
    }
}

/// The number a string of decimal digits stands for, read left to right.
pub open spec fn digits_value(s: Seq<char>) -> int
    decreases s.len(),
{
    if s.len() == 0 {
        0
    } else {
        digits_value(s.drop_last()) * 10 + ((s.last() as int) - ('0' as int))
    }
}

/// The integer a decimal numeral stands for, a leading minus sign
/// making it negative.
pub open spec fn numeral_value(s: Seq<char>) -> int {
    if s.len() > 0 && s[0] == '-' {
        -digits_value(s.drop_first())
    } else {
        digits_value(s)
    }
}

proof fn lemma_nat_decimal_reads_back(n: nat)
    ensures
        digits_value(nat_decimal(n)) == n,
        nat_decimal(n).len() > 0,
        '0' <= nat_decimal(n)[0] <= '9',
    decreases n,
{
    if n >= 10 {
        lemma_nat_decimal_reads_back(n / 10);
        let s = nat_decimal(n);
        assert(s.drop_last() =~= nat_decimal(n / 10));
        let d = (n % 10) as int;
        assert(s.last() == digit_char(d));
        assert((digit_char(d) as int) == ('0' as int) + d);
        assert(digits_value(s) == digits_value(s.drop_last()) * 10 + ((s.last() as int) - ('0' as int)));
        assert((n / 10) * 10 + n % 10 == n);
    } else {
        assert((digit_char(n as int) as int) == ('0' as int) + n);
        assert(digits_value(Seq::<char>::empty()) == 0);
        assert(digits_value(nat_decimal(n)) == digits_value(nat_decimal(n).drop_last()) * 10 + ((
        nat_decimal(n).last() as int) - ('0' as int)));
        assert(nat_decimal(n) == seq![digit_char(n as int)]);
        assert(seq![digit_char(n as int)].drop_last() =~= Seq::<char>::empty());
    }
}

/// Decimal notation reads back as the number written: the numeral of `n`
/// stands for `n`, with a minus sign exactly when `n` is negative.
pub proof fn lemma_decimal_reads_back(n: int)
    ensures
        numeral_value(int_decimal(n)) == n,
        (int_decimal(n)[0] == '-') <==> n < 0,
{
    if n < 0 {
        lemma_nat_decimal_reads_back((-n) as nat);
        let s = int_decimal(n);
        assert(s.drop_first() =~= nat_decimal((-n) as nat));
    } else {
        lemma_nat_decimal_reads_back(n as nat);
    }
}

fn digit(d: u64) -> (c: char)
    requires
        d < 10,
    ensures
        c == digit_char(d as int),
{
    let b = d as u8;
    (48u8 + b) as char
}

fn push_decimal(out: &mut String, n: u64)
    ensures
        final(out)@ == old(out)@ + nat_decimal(n as nat),
    decreases n,
{
    if n >= 10 {
        push_decimal(out, n / 10);
    }
    push_char(out, digit(n % 10));
}

/// `n` written in decimal.
pub fn i64_to_string(n: i64) -> (r: String)
    ensures
        r@ == int_decimal(n as int),
{
    let mut r = String::new();
    if n < 0 {
        push_char(&mut r, '-');
        let m: u64 = if n == i64::MIN {
            9_223_372_036_854_775_808u64
        } else {
            (-n) as u64
        };
        push_decimal(&mut r, m);
    } else {
        push_decimal(&mut r, n as u64);
    }
    r
}

/// `n` written in decimal.
pub fn i32_to_string(n: i32) -> (r: String)
    ensures
        r@ == int_decimal(n as int),
{
    i64_to_string(n as i64)
}

/// `n` copies of `s`, one after another.
pub open spec fn repeat_spec(s: Seq<char>, n: nat) -> Seq<char>
    decreases n,
{
    if n == 0 {
        Seq::empty()
    } else {
        repeat_spec(s, (n - 1) as nat) + s
    }
}

/// `s` repeated `n` times, as `str::repeat` gives it.
pub fn repeat(s: &str, n: usize) -> (r: String)
    ensures
        r@ == repeat_spec(s@, n as nat),
{
    let mut r = String::new();
    let mut i: usize = 0;
    while i < n
        invariant
            i <= n,
            r@ == repeat_spec(s@, i as nat),
        decreases n - i,
    {
        r.append(s);
        i = i + 1;
    }
    r
}

/// `n` spaces.
pub open spec fn spaces(n: nat) -> Seq<char> {
    Seq::new(n, |i: int| ' ')
}

/// `s` centred in a field of `width` characters, as `format!("{:^w$}")`
/// pads it: the spaces split in two, the odd one going to the right; a
/// text at least as wide as the field is left as it is.
pub open spec fn centered(s: Seq<char>, width: nat) -> Seq<char> {
    if s.len() >= width {
        s
    } else {
        let pad = (width - s.len()) as nat;
        spaces(pad / 2) + s + spaces((pad - pad / 2) as nat)
    }
}

fn push_spaces(out: &mut String, n: usize)
    ensures
        final(out)@ == old(out)@ + spaces(n as nat),
{
    let ghost start = out@;
    let mut i: usize = 0;
    while i < n
        invariant
            i <= n,
            out@ == start + spaces(i as nat),
        decreases n - i,
    {
        push_char(out, ' ');
        assert(start + spaces((i + 1) as nat) == (start + spaces(i as nat)).push(' '));
        i = i + 1;
    }
}

/// `s` centred in a field of `width` characters.
pub fn center(s: &str, width: usize) -> (r: String)
    ensures
        r@ == centered(s@, width as nat),
{
    let v = chars_of(s);
    let len = v.len();
    if len >= width {
        return s.to_owned();
    }
    let pad = width - len;
    let mut r = String::new();
    push_spaces(&mut r, pad / 2);
    r.append(s);
    push_spaces(&mut r, pad - pad / 2);
    r
}

} // verus!

verus! {

/// Whether two texts are the same.
pub fn same_text(a: &str, b: &str) -> (r: bool)
    ensures
        r == (a@ == b@),
{
    let x = a.to_owned();
    let y = b.to_owned();
    x == y
}

} // verus!
