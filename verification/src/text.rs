//! Character-level text helpers, specified over the `Seq<char>` view of strings.
use vstd::prelude::*;
use vstd::utf8::encode_utf8;
use vstd::utf8::encode_scalar;
use vstd::utf8::char_is_scalar;

verus! {

/// The Unicode `White_Space` property, which `char::is_whitespace` tests.
pub open spec fn is_white_space(c: char) -> bool {
    let u = c as u32;
    ||| 0x9 <= u <= 0xD
    ||| u == 0x20
    ||| u == 0x85
    ||| u == 0xA0
    ||| u == 0x1680
    ||| 0x2000 <= u <= 0x200A
    ||| u == 0x2028
    ||| u == 0x2029
    ||| u == 0x202F
    ||| u == 0x205F
    ||| u == 0x3000
}

/// `s` without its leading white space.
pub open spec fn trim_start(s: Seq<char>) -> Seq<char>
    decreases s.len(),
{
    if s.len() > 0 && is_white_space(s[0]) {
        trim_start(s.drop_first())
    } else {
        s
    }
}

/// `s` without its trailing white space.
pub open spec fn trim_end(s: Seq<char>) -> Seq<char>
    decreases s.len(),
{
    if s.len() > 0 && is_white_space(s.last()) {
        trim_end(s.drop_last())
    } else {
        s
    }
}

/// `s` without leading and trailing white space, as `str::trim` gives it.
pub open spec fn trim(s: Seq<char>) -> Seq<char> {
    trim_end(trim_start(s))
}

/// Whether `s` is empty once trimmed.
pub open spec fn is_blank(s: Seq<char>) -> bool {
    trim(s).len() == 0
}

/// Whether `s` begins with `prefix`.
pub open spec fn has_prefix(s: Seq<char>, prefix: Seq<char>) -> bool {
    prefix.len() <= s.len() && s.subrange(0, prefix.len() as int) == prefix
}

/// Number of bytes in the UTF-8 encoding of `s`, which `str::len` returns.
pub open spec fn utf8_len(s: Seq<char>) -> nat {
    encode_utf8(s).len()
}

/// The decimal digit for `d` in `0..10`.
pub open spec fn digit_char(d: int) -> char {
    (48 + d) as char
}

/// The decimal text of a natural number, without leading zeros.
pub open spec fn natural_text(n: nat) -> Seq<char>
    decreases n,
{
    if n < 10 {
        seq![digit_char(n as int)]
    } else {
        natural_text(n / 10).push(digit_char((n % 10) as int))
    }
}

/// The decimal text of an integer, as `Display` writes it for `i64`.
pub open spec fn integer_text(n: int) -> Seq<char> {
    if n < 0 {
        seq!['-'] + natural_text((-n) as nat)
    } else {
        natural_text(n as nat)
    }
}

/// The lower-case hexadecimal digit for `d` in `0..16`.
pub open spec fn hex_digit(d: int) -> char {
    if d < 10 {
        (48 + d) as char
    } else {
        (87 + d) as char
    }
}

/// Two lower-case hexadecimal digits per byte, most significant first.
pub open spec fn lower_hex(bytes: Seq<u8>) -> Seq<char>
    decreases bytes.len(),
{
    if bytes.len() == 0 {
        Seq::empty()
    } else {
        lower_hex(bytes.drop_last()) + seq![
            hex_digit((bytes.last() / 16) as int),
            hex_digit((bytes.last() % 16) as int),
        ]
    }
}

/// Collects the characters of `s`.
pub fn chars_of(s: &str) -> (v: Vec<char>)
    ensures
        v@ == s@,
{
    let mut v: Vec<char> = Vec::new();
    for c in it: s.chars()
        invariant
            v@ == it.seq().take(it.index() as int),
    {
        v.push(c);
    }
    v
}

/// Builds a `String` whose characters are `chars` (std's `FromIterator<&char>` for `String`).
#[verifier::external_body]
pub(crate) fn string_from_chars(chars: &[char]) -> (s: String)
    ensures
        s@ == chars@,
{
    chars.iter().collect()
}

/// Whether two character sequences are equal.
pub fn chars_equal(a: &[char], b: &[char]) -> (r: bool)
    ensures
        r == (a@ == b@),
{
    if a.len() != b.len() {
        return false;
    }
    let mut i: usize = 0;
    while i < a.len()
        invariant
            a@.len() == b@.len(),
            i <= a@.len(),
            forall|k: int| 0 <= k < i ==> a@[k] == b@[k],
        decreases a@.len() - i,
    {
        if a[i] != b[i] {
            return false;
        }
        i = i + 1;
    }
    assert(a@ =~= b@);
    true
}

/// Whether `s` begins with `prefix`.
pub fn chars_start_with(s: &[char], prefix: &[char]) -> (r: bool)
    ensures
        r == has_prefix(s@, prefix@),
{
    if prefix.len() > s.len() {
        return false;
    }
    let mut i: usize = 0;
    while i < prefix.len()
        invariant
            prefix@.len() <= s@.len(),
            i <= prefix@.len(),
            forall|k: int| 0 <= k < i ==> s@[k] == prefix@[k],
        decreases prefix@.len() - i,
    {
        if s[i] != prefix[i] {
            assert(s@.subrange(0, prefix@.len() as int)[i as int] != prefix@[i as int]);
            return false;
        }
        i = i + 1;
    }
    assert(s@.subrange(0, prefix@.len() as int) =~= prefix@);
    true
}

/// Whether the text `s` equals the text `t`.
pub fn text_equals(s: &str, t: &str) -> (r: bool)
    ensures
        r == (s@ == t@),
{
    let a = chars_of(s);
    let b = chars_of(t);
    chars_equal(a.as_slice(), b.as_slice())
}

/// Whether the text `s` begins with the text `prefix`.
pub fn text_starts_with(s: &str, prefix: &str) -> (r: bool)
    ensures
        r == has_prefix(s@, prefix@),
{
    let a = chars_of(s);
    let b = chars_of(prefix);
    chars_start_with(a.as_slice(), b.as_slice())
}

/// Whether `c` has the Unicode `White_Space` property.
pub fn white_space(c: char) -> (r: bool)
    ensures
        r == is_white_space(c),
{
    let u = c as u32;
    (0x9 <= u && u <= 0xD) || u == 0x20 || u == 0x85 || u == 0xA0 || u == 0x1680 || (0x2000 <= u
        && u <= 0x200A) || u == 0x2028 || u == 0x2029 || u == 0x202F || u == 0x205F || u == 0x3000
}

/// The characters of `s` without leading and trailing white space.
pub fn trim_chars(s: &[char]) -> (r: Vec<char>)
    ensures
        r@ == trim(s@),
{
    let n = s.len();
    let mut i: usize = 0;
    assert(s@.subrange(0, n as int) =~= s@);
    while i < n && white_space(s[i])
        invariant
            n == s@.len(),
            i <= n,
            trim_start(s@) == trim_start(s@.subrange(i as int, n as int)),
        decreases n - i,
    {
        assert(s@.subrange(i as int, n as int).drop_first() =~= s@.subrange(i + 1, n as int));
        i = i + 1;
    }
    assert(trim_start(s@) == s@.subrange(i as int, n as int));
    let mut j: usize = n;
    while j > i && white_space(s[j - 1])
        invariant
            n == s@.len(),
            i <= j <= n,
            trim(s@) == trim_end(s@.subrange(i as int, j as int)),
        decreases j - i,
    {
        assert(s@.subrange(i as int, j as int).drop_last() =~= s@.subrange(i as int, j - 1));
        j = j - 1;
    }
    assert(trim(s@) == s@.subrange(i as int, j as int));
    let mut r: Vec<char> = Vec::new();
    let mut k: usize = i;
    while k < j
        invariant
            n == s@.len(),
            i <= k <= j <= n,
            r@ == s@.subrange(i as int, k as int),
        decreases j - k,
    {
        r.push(s[k]);
        assert(r@ =~= s@.subrange(i as int, k + 1));
        k = k + 1;
    }
    r
}

/// The characters of `s` without leading and trailing white space.
pub fn trimmed(s: &str) -> (r: Vec<char>)
    ensures
        r@ == trim(s@),
{
    let chars = chars_of(s);
    trim_chars(chars.as_slice())
}

/// Whether `s` is empty once trimmed.
pub fn blank(s: &str) -> (r: bool)
    ensures
        r == is_blank(s@),
{
    trimmed(s).len() == 0
}

/// Number of bytes in the UTF-8 encoding of `c`.
pub fn utf8_width(c: char) -> (w: usize)
    ensures
        w == encode_scalar(c as u32).len(),
        1 <= w <= 4,
{
    proof {
        char_is_scalar(c);
    }
    let u = c as u32;
    if u <= 0x7F {
        1
    } else if u <= 0x7FF {
        2
    } else if u <= 0xFFFF {
        3
    } else {
        4
    }
}

/// Whether the UTF-8 encoding of `s` takes at most `limit` bytes.
pub fn utf8_len_within(s: &[char], limit: usize) -> (r: bool)
    ensures
        r == (utf8_len(s@) <= limit),
{
    let n = s.len();
    let mut total: u128 = 0;
    let mut i: usize = n;
    while i > 0
        invariant
            n == s@.len(),
            i <= n,
            total == encode_utf8(s@.subrange(i as int, n as int)).len(),
            total <= 4 * (n - i),
        decreases i,
    {
        let w = utf8_width(s[i - 1]);
        assert(s@.subrange(i - 1, n as int).drop_first() =~= s@.subrange(i as int, n as int));
        assert(s@.subrange(i - 1, n as int)[0] == s@[i - 1]);
        total = total + w as u128;
        i = i - 1;
    }
    assert(s@.subrange(0, n as int) =~= s@);
    total <= limit as u128
}

/// Appends the decimal digits of `n` to `out`.
fn push_natural(n: u64, out: &mut Vec<char>)
    ensures
        final(out)@ == old(out)@ + natural_text(n as nat),
    decreases n,
{
    if n >= 10 {
        push_natural(n / 10, out);
    }
    let d = (n % 10) as u8;
    let c = (48u8 + d) as char;
    assert(c == digit_char((n % 10) as int));
    out.push(c);
    assert(final(out)@ =~= old(out)@ + natural_text(n as nat));
}

/// The decimal text of `n`, as `Display` writes it.
pub fn integer_string(n: i64) -> (s: String)
    ensures
        s@ == integer_text(n as int),
{
    let mut out: Vec<char> = Vec::new();
    if n < 0 {
        out.push('-');
        let magnitude: u64 = if n == i64::MIN {
            9223372036854775808u64
        } else {
            (-n) as u64
        };
        push_natural(magnitude, &mut out);
    } else {
        push_natural(n as u64, &mut out);
    }
    assert(out@ =~= integer_text(n as int));
    string_from_chars(out.as_slice())
}

/// The lower-case hexadecimal digit for `d`.
fn hex_char(d: u8) -> (c: char)
    requires
        d < 16,
    ensures
        c == hex_digit(d as int),
{
    if d < 10 {
        (48u8 + d) as char
    } else {
        (87u8 + d) as char
    }
}

/// Two lower-case hexadecimal digits per byte, as `{:x}` writes a digest.
pub fn lower_hex_string(bytes: &[u8]) -> (s: String)
    ensures
        s@ == lower_hex(bytes@),
        s@.len() == 2 * bytes@.len(),
{
    let mut out: Vec<char> = Vec::new();
    let mut i: usize = 0;
    while i < bytes.len()
        invariant
            i <= bytes@.len(),
            out@ == lower_hex(bytes@.take(i as int)),
            out@.len() == 2 * i,
        decreases bytes@.len() - i,
    {
        let b = bytes[i];
        assert(bytes@.take(i + 1).drop_last() =~= bytes@.take(i as int));
        out.push(hex_char(b / 16));
        out.push(hex_char(b % 16));
        assert(out@ =~= lower_hex(bytes@.take(i + 1)));
        i = i + 1;
    }
    assert(bytes@.take(bytes@.len() as int) =~= bytes@);
    string_from_chars(out.as_slice())
}

/// Distinct byte strings have distinct lower-case hexadecimal texts.
pub proof fn lemma_lower_hex_injective(a: Seq<u8>, b: Seq<u8>)
    requires
        lower_hex(a) == lower_hex(b),
    ensures
        a == b,
    decreases a.len(),
{
    lemma_lower_hex_len(a);
    lemma_lower_hex_len(b);
    if a.len() > 0 {
        let ha = lower_hex(a.drop_last());
        let hb = lower_hex(b.drop_last());
        lemma_lower_hex_len(a.drop_last());
        lemma_lower_hex_len(b.drop_last());
        let x = a.last();
        let y = b.last();
        assert(lower_hex(a)[ha.len() as int] == hex_digit((x / 16) as int));
        assert(lower_hex(b)[hb.len() as int] == hex_digit((y / 16) as int));
        assert(lower_hex(a)[ha.len() + 1int] == hex_digit((x % 16) as int));
        assert(lower_hex(b)[hb.len() + 1int] == hex_digit((y % 16) as int));
        lemma_hex_digit_injective((x / 16) as int, (y / 16) as int);
        lemma_hex_digit_injective((x % 16) as int, (y % 16) as int);
        assert(x == y);
        assert(ha =~= lower_hex(a).subrange(0, ha.len() as int));
        assert(hb =~= lower_hex(b).subrange(0, hb.len() as int));
        lemma_lower_hex_injective(a.drop_last(), b.drop_last());
        assert(a =~= a.drop_last().push(x));
        assert(b =~= b.drop_last().push(y));
    }
}

/// The hexadecimal text has two characters per byte.
pub proof fn lemma_lower_hex_len(a: Seq<u8>)
    ensures
        lower_hex(a).len() == 2 * a.len(),
    decreases a.len(),
{
    if a.len() > 0 {
        lemma_lower_hex_len(a.drop_last());
    }
}

pub(crate) proof fn lemma_hex_digit_injective(x: int, y: int)
    requires
        0 <= x < 16,
        0 <= y < 16,
        hex_digit(x) == hex_digit(y),
    ensures
        x == y,
{
    assert((hex_digit(x) as u32) == (if x < 10 { 48 + x } else { 87 + x }));
    assert((hex_digit(y) as u32) == (if y < 10 { 48 + y } else { 87 + y }));
}

/// The decimal text of a natural number is a non-empty run of decimal digits.
pub proof fn lemma_natural_text_digits(n: nat)
    ensures
        natural_text(n).len() >= 1,
        n >= 10 ==> natural_text(n).len() >= 2,
        forall|i: int|
            0 <= i < natural_text(n).len() ==> '0' <= #[trigger] natural_text(n)[i] <= '9',
    decreases n,
{
    assert(forall|d: int| 0 <= d < 10 ==> (#[trigger] digit_char(d) as u32) == 48 + d);
    if n >= 10 {
        lemma_natural_text_digits(n / 10);
    }
}

/// Distinct natural numbers have distinct decimal texts.
pub proof fn lemma_natural_text_injective(m: nat, n: nat)
    requires
        natural_text(m) == natural_text(n),
    ensures
        m == n,
    decreases m,
{
    assert(forall|d: int| 0 <= d < 10 ==> (#[trigger] digit_char(d) as u32) == 48 + d);
    lemma_natural_text_digits(m);
    lemma_natural_text_digits(n);
    if m >= 10 && n >= 10 {
        let a = natural_text(m / 10);
        let b = natural_text(n / 10);
        assert(natural_text(m).last() == digit_char((m % 10) as int));
        assert(natural_text(n).last() == digit_char((n % 10) as int));
        assert(a =~= natural_text(m).drop_last());
        assert(b =~= natural_text(n).drop_last());
        lemma_natural_text_injective(m / 10, n / 10);
    } else if m < 10 && n < 10 {
        assert(natural_text(m)[0] == digit_char(m as int));
        assert(natural_text(n)[0] == digit_char(n as int));
    }
}

/// Distinct integers have distinct decimal texts.
pub proof fn lemma_integer_text_injective(m: int, n: int)
    requires
        integer_text(m) == integer_text(n),
    ensures
        m == n,
{
    if m < 0 && n < 0 {
        assert(natural_text((-m) as nat) =~= integer_text(m).skip(1));
        assert(natural_text((-n) as nat) =~= integer_text(n).skip(1));
        lemma_natural_text_injective((-m) as nat, (-n) as nat);
    } else if m >= 0 && n >= 0 {
        lemma_natural_text_injective(m as nat, n as nat);
    } else if m < 0 {
        lemma_natural_text_digits(n as nat);
        assert(integer_text(m)[0] == '-');
        assert(integer_text(n)[0] == natural_text(n as nat)[0]);
    } else {
        lemma_natural_text_digits(m as nat);
        assert(integer_text(n)[0] == '-');
        assert(integer_text(m)[0] == natural_text(m as nat)[0]);
    }
}

/// The decimal text of an integer followed by a comma ends where the first comma stands:
/// the integer and what follows the comma are both determined.
pub proof fn lemma_integer_text_before_comma(m: int, n: int, x: Seq<char>, y: Seq<char>)
    requires
        integer_text(m) + (seq![','] + x) == integer_text(n) + (seq![','] + y),
    ensures
        m == n,
        x == y,
{
    let a = integer_text(m);
    let b = integer_text(n);
    let l = a + (seq![','] + x);
    let r = b + (seq![','] + y);
    assert(forall|i: int| 0 <= i < a.len() ==> #[trigger] a[i] != ',') by {
        if m < 0 {
            lemma_natural_text_digits((-m) as nat);
            assert(forall|i: int| 1 <= i < a.len() ==> a[i] == natural_text((-m) as nat)[i - 1]);
        } else {
            lemma_natural_text_digits(m as nat);
        }
    }
    assert(forall|i: int| 0 <= i < b.len() ==> #[trigger] b[i] != ',') by {
        if n < 0 {
            lemma_natural_text_digits((-n) as nat);
            assert(forall|i: int| 1 <= i < b.len() ==> b[i] == natural_text((-n) as nat)[i - 1]);
        } else {
            lemma_natural_text_digits(n as nat);
        }
    }
    if a.len() < b.len() {
        assert(l[a.len() as int] == ',');
        assert(r[a.len() as int] == b[a.len() as int]);
    } else if b.len() < a.len() {
        assert(r[b.len() as int] == ',');
        assert(l[b.len() as int] == a[b.len() as int]);
    }
    assert(a =~= l.take(a.len() as int));
    assert(b =~= r.take(b.len() as int));
    lemma_integer_text_injective(m, n);
    assert(x =~= l.skip(a.len() + 1int));
    assert(y =~= r.skip(b.len() + 1int));
}

} // verus!
