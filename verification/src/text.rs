//! Character-level helpers on strings, each stated over the `Seq<char>` view.
use vstd::prelude::*;

verus! {

/// What `str::to_lowercase` gives back for a string (Unicode lowercase mapping).
pub uninterp spec fn spec_to_lowercase(s: Seq<char>) -> Seq<char>;

/// Every character of `s` is ASCII.
pub open spec fn is_ascii_text(s: Seq<char>) -> bool {
    forall|i: int| 0 <= i < s.len() ==> (#[trigger] s[i] as u32) < 128
}

/// `s` holds no ASCII capital letter.
pub open spec fn no_ascii_upper(s: Seq<char>) -> bool {
    forall|i: int| 0 <= i < s.len() ==> !('A' <= #[trigger] s[i] && s[i] <= 'Z')
}

/// A character with an ASCII capital mapped to its small letter.
pub open spec fn ascii_lower_char(c: char) -> char {
    if 'A' <= c && c <= 'Z' { ((c as u32) + 32) as char } else { c }
}

/// `s` with every ASCII capital mapped to its small letter.
pub open spec fn ascii_lowercase(s: Seq<char>) -> Seq<char> {
    s.map_values(|c: char| ascii_lower_char(c))
}

/// The lowercase form of a string, as `str::to_lowercase` gives it: for
/// ASCII text, `A`-`Z` become `a`-`z` and nothing else changes; for other
/// text, the named Unicode mapping.
pub open spec fn lowercase_text(s: Seq<char>) -> Seq<char> {
    if is_ascii_text(s) { ascii_lowercase(s) } else { spec_to_lowercase(s) }
}

/// Trusted: `str::to_lowercase`. Claims that the result is the named
/// lowercase mapping of the argument and, for ASCII text, that this mapping
/// turns `A`-`Z` into `a`-`z` and leaves every other character as it is
/// (the Unicode lowercase mapping of the ASCII characters, which
/// `to_lowercase` applies character by character). Of other text nothing is
/// said beyond the name.
#[verifier::external_body]
pub(crate) fn to_lowercase_str(s: &str) -> (r: String)
    ensures
        r@ == spec_to_lowercase(s@),
        is_ascii_text(s@) ==> r@ == ascii_lowercase(s@),
{
    s.to_lowercase()
}

/// ASCII text with no capital is its own lowercase form.
pub proof fn lemma_lowercase_unchanged(s: Seq<char>)
    requires
        is_ascii_text(s),
        no_ascii_upper(s),
    ensures
        lowercase_text(s) == s,
{
    assert(ascii_lowercase(s) =~= s);
}

/// `prefix` is a prefix of `s`.
pub open spec fn has_prefix(s: Seq<char>, prefix: Seq<char>) -> bool {
    prefix.len() <= s.len() && s.take(prefix.len() as int) == prefix
}

/// Whether `s` begins with `prefix`.
pub fn starts_with(s: &str, prefix: &str) -> (r: bool)
    ensures
        r == has_prefix(s@, prefix@),
{
    let n = s.unicode_len();
    let m = prefix.unicode_len();
    if m > n {
        return false;
    }
    let mut i: usize = 0;
    while i < m
        invariant
            n == s@.len(),
            m == prefix@.len(),
            m <= n,
            i <= m,
            forall|j: int| 0 <= j < i ==> s@[j] == prefix@[j],
        decreases m - i,
    {
        if s.get_char(i) != prefix.get_char(i) {
            assert(s@.take(m as int)[i as int] != prefix@[i as int]);
            return false;
        }
        i = i + 1;
    }
    assert(s@.take(m as int) =~= prefix@);
    true
}

/// Whether two strings hold the same characters.
pub fn str_equal(a: &str, b: &str) -> (r: bool)
    ensures
        r == (a@ == b@),
{
    let x = String::from_str(a);
    let y = String::from_str(b);
    x == y
}

} // verus!

verus! {

/// `s` with every leading copy of `pat` removed, one after another (as
/// `str::trim_start_matches` does for a string pattern).
pub open spec fn strip_prefixes(s: Seq<char>, pat: Seq<char>) -> Seq<char>
    decreases s.len(),
{
    if pat.len() > 0 && has_prefix(s, pat) {
        strip_prefixes(s.skip(pat.len() as int), pat)
    } else {
        s
    }
}

/// The characters of `s` from index `from` on.
pub fn tail_from(s: &str, from: usize) -> (r: String)
    requires
        from <= s@.len(),
    ensures
        r@ == s@.skip(from as int),
{
    let n = s.unicode_len();
    let t = s.substring_char(from, n);
    assert(t@ =~= s@.skip(from as int));
    String::from_str(t)
}

/// `s` with every leading copy of `pat` removed.
pub fn trim_start_matches(s: &str, pat: &str) -> (r: String)
    ensures
        r@ == strip_prefixes(s@, pat@),
{
    let m = pat.unicode_len();
    let mut cur = String::from_str(s);
    if m == 0 {
        return cur;
    }
    loop
        invariant
            m == pat@.len(),
            m > 0,
            strip_prefixes(cur@, pat@) == strip_prefixes(s@, pat@),
        decreases cur@.len(),
    {
        if starts_with(cur.as_str(), pat) {
            let next = tail_from(cur.as_str(), m);
            cur = next;
        } else {
            return cur;
        }
    }
}

} // verus!

verus! {

/// The character of a decimal digit.
pub open spec fn digit_char(d: nat) -> char {
    if d == 0 { '0' } else if d == 1 { '1' } else if d == 2 { '2' } else if d == 3 { '3' }
    else if d == 4 { '4' } else if d == 5 { '5' } else if d == 6 { '6' } else if d == 7 { '7' }
    else if d == 8 { '8' } else { '9' }
}

/// The decimal representation of a natural number, without leading zeros
/// (as `Display` writes an unsigned integer).
pub open spec fn decimal_text(n: nat) -> Seq<char>
    decreases n,
{
    if n < 10 {
        seq![digit_char(n)]
    } else {
        decimal_text(n / 10).push(digit_char(n % 10))
    }
}

fn digit_str(d: u64) -> (r: &'static str)
    requires
        d < 10,
    ensures
        r@ == seq![digit_char(d as nat)],
{
    proof {
        reveal_strlit("0");
        reveal_strlit("1");
        reveal_strlit("2");
        reveal_strlit("3");
        reveal_strlit("4");
        reveal_strlit("5");
        reveal_strlit("6");
        reveal_strlit("7");
        reveal_strlit("8");
        reveal_strlit("9");
    }
    let r = if d == 0 { "0" } else if d == 1 { "1" } else if d == 2 { "2" } else if d == 3 { "3" }
    else if d == 4 { "4" } else if d == 5 { "5" } else if d == 6 { "6" } else if d == 7 { "7" }
    else if d == 8 { "8" } else { "9" };
    assert(r@ =~= seq![digit_char(d as nat)]);
    r
}

proof fn lemma_decimal_len(n: nat)
    ensures
        decimal_text(n).len() >= 1,
        n >= 10 ==> decimal_text(n).len() >= 2,
    decreases n,
{
    if n >= 10 {
        lemma_decimal_len(n / 10);
    }
}

/// Different numbers have different decimal representations.
pub proof fn lemma_decimal_injective(n: nat, m: nat)
    requires
        decimal_text(n) == decimal_text(m),
    ensures
        n == m,
    decreases n,
{
    lemma_decimal_len(n);
    lemma_decimal_len(m);
    if n < 10 && m < 10 {
        assert(decimal_text(n)[0] == digit_char(n));
        assert(decimal_text(m)[0] == digit_char(m));
    } else if n >= 10 && m >= 10 {
        let a = decimal_text(n);
        assert(a.last() == digit_char(n % 10));
        assert(decimal_text(m).last() == digit_char(m % 10));
        assert(a.drop_last() == decimal_text(n / 10));
        assert(decimal_text(m).drop_last() == decimal_text(m / 10));
        lemma_decimal_injective(n / 10, m / 10);
    } else {
        assert(decimal_text(n).len() != decimal_text(m).len());
    }
}

/// Renders `n` in decimal.
pub fn decimal(n: u64) -> (r: String)
    ensures
        r@ == decimal_text(n as nat),
    decreases n,
{
    if n < 10 {
        String::from_str(digit_str(n))
    } else {
        let head = decimal(n / 10);
        let r = head.concat(digit_str(n % 10));
        assert(r@ =~= decimal_text(n as nat));
        r
    }
}

/// `s` without the copies of `c` at its start.
pub open spec fn trim_start_char(s: Seq<char>, c: char) -> Seq<char>
    decreases s.len(),
{
    if s.len() > 0 && s[0] == c {
        trim_start_char(s.drop_first(), c)
    } else {
        s
    }
}

/// `s` without the copies of `c` at its end.
pub open spec fn trim_end_char(s: Seq<char>, c: char) -> Seq<char>
    decreases s.len(),
{
    if s.len() > 0 && s.last() == c {
        trim_end_char(s.drop_last(), c)
    } else {
        s
    }
}

/// `s` without the copies of `c` at either end (as `str::trim_matches`
/// does for a single character).
pub open spec fn trim_char(s: Seq<char>, c: char) -> Seq<char> {
    trim_end_char(trim_start_char(s, c), c)
}

proof fn lemma_trim_start_skip(s: Seq<char>, c: char, i: int)
    requires
        0 <= i < s.len(),
        s[i] == c,
    ensures
        trim_start_char(s.skip(i), c) == trim_start_char(s.skip(i + 1), c),
{
    assert(s.skip(i).drop_first() =~= s.skip(i + 1));
}

proof fn lemma_trim_end_take(s: Seq<char>, c: char, j: int)
    requires
        0 < j <= s.len(),
        s[j - 1] == c,
    ensures
        trim_end_char(s.take(j), c) == trim_end_char(s.take(j - 1), c),
{
    assert(s.take(j).drop_last() =~= s.take(j - 1));
}

/// Unicode `White_Space`: the characters that `char::is_whitespace`
/// accepts and `str::trim` strips.
pub open spec fn is_white_space(c: char) -> bool {
    let u = c as u32;
    ||| 0x09 <= u && u <= 0x0D
    ||| u == 0x20
    ||| u == 0x85
    ||| u == 0xA0
    ||| u == 0x1680
    ||| 0x2000 <= u && u <= 0x200A
    ||| u == 0x2028
    ||| u == 0x2029
    ||| u == 0x202F
    ||| u == 0x205F
    ||| u == 0x3000
}

/// `s` without its leading white space.
pub open spec fn trim_start_ws(s: Seq<char>) -> Seq<char>
    decreases s.len(),
{
    if s.len() > 0 && is_white_space(s[0]) {
        trim_start_ws(s.drop_first())
    } else {
        s
    }
}

/// `s` without its trailing white space.
pub open spec fn trim_end_ws(s: Seq<char>) -> Seq<char>
    decreases s.len(),
{
    if s.len() > 0 && is_white_space(s.last()) {
        trim_end_ws(s.drop_last())
    } else {
        s
    }
}

/// `s` without white space at either end (as `str::trim`).
pub open spec fn spec_trim(s: Seq<char>) -> Seq<char> {
    trim_end_ws(trim_start_ws(s))
}

/// A text that neither begins nor ends with white space is its own trim.
pub proof fn lemma_trim_unchanged(s: Seq<char>)
    requires
        s.len() > 0,
        !is_white_space(s[0]),
        !is_white_space(s.last()),
    ensures
        spec_trim(s) == s,
{
}

fn white_space(c: char) -> (r: bool)
    ensures
        r == is_white_space(c),
{
    let u = c as u32;
    (0x09 <= u && u <= 0x0D) || u == 0x20 || u == 0x85 || u == 0xA0 || u == 0x1680
        || (0x2000 <= u && u <= 0x200A) || u == 0x2028 || u == 0x2029 || u == 0x202F
        || u == 0x205F || u == 0x3000
}

/// `s` without white space at either end.
pub fn trim_str<'a>(s: &'a str) -> (r: &'a str)
    ensures
        r@ == spec_trim(s@),
{
    let n = s.unicode_len();
    let mut i: usize = 0;
    assert(s@.skip(0) =~= s@);
    while i < n && white_space(s.get_char(i))
        invariant
            n == s@.len(),
            i <= n,
            trim_start_ws(s@.skip(i as int)) == trim_start_ws(s@),
        decreases n - i,
    {
        assert(s@.skip(i as int).drop_first() =~= s@.skip(i + 1));
        i = i + 1;
    }
    let t = s.substring_char(i, n);
    assert(t@ =~= s@.skip(i as int));
    if i < n {
        assert(t@[0] == s@[i as int]);
    }
    assert(trim_start_ws(s@) == t@);
    let m = t.unicode_len();
    let mut j: usize = m;
    assert(t@.take(m as int) =~= t@);
    while j > 0 && white_space(t.get_char(j - 1))
        invariant
            m == t@.len(),
            j <= m,
            trim_end_ws(t@.take(j as int)) == trim_end_ws(t@),
        decreases j,
    {
        assert(t@.take(j as int).drop_last() =~= t@.take(j - 1));
        j = j - 1;
    }
    let u = t.substring_char(0, j);
    assert(u@ =~= t@.take(j as int));
    if j > 0 {
        assert(u@.last() == t@[j - 1]);
    }
    assert(trim_end_ws(u@) == u@);
    u
}

/// `s` without the copies of `c` at either end.
pub fn trim_matches_char(s: &str, c: char) -> (r: String)
    ensures
        r@ == trim_char(s@, c),
{
    let n = s.unicode_len();
    let mut i: usize = 0;
    assert(s@.skip(0) =~= s@);
    while i < n && s.get_char(i) == c
        invariant
            n == s@.len(),
            i <= n,
            trim_start_char(s@.skip(i as int), c) == trim_start_char(s@, c),
        decreases n - i,
    {
        proof {
            lemma_trim_start_skip(s@, c, i as int);
        }
        i = i + 1;
    }
    let t = s.substring_char(i, n);
    assert(t@ =~= s@.skip(i as int));
    if i < n {
        assert(t@[0] == s@[i as int]);
    }
    assert(trim_start_char(s@, c) == t@);
    let m = t.unicode_len();
    let mut j: usize = m;
    assert(t@.take(m as int) =~= t@);
    while j > 0 && t.get_char(j - 1) == c
        invariant
            m == t@.len(),
            j <= m,
            trim_end_char(t@.take(j as int), c) == trim_end_char(t@, c),
        decreases j,
    {
        proof {
            lemma_trim_end_take(t@, c, j as int);
        }
        j = j - 1;
    }
    let u = t.substring_char(0, j);
    assert(u@ =~= t@.take(j as int));
    if j > 0 {
        assert(u@.last() == t@[j - 1]);
    }
    assert(trim_end_char(u@, c) == u@);
    String::from_str(u)
}

} // verus!

verus! {

/// The pieces of `s` between the separators `c` (as `str::split` with a
/// character gives them: always at least one piece, possibly empty ones).
pub open spec fn split_on(s: Seq<char>, c: char) -> Seq<Seq<char>>
    decreases s.len(),
{
    if s.len() == 0 {
        seq![Seq::<char>::empty()]
    } else {
        let parts = split_on(s.drop_last(), c);
        if s.last() == c {
            parts.push(Seq::<char>::empty())
        } else {
            parts.update(parts.len() - 1, parts.last().push(s.last()))
        }
    }
}

proof fn lemma_split_nonempty(s: Seq<char>, c: char)
    ensures
        split_on(s, c).len() >= 1,
    decreases s.len(),
{
    if s.len() > 0 {
        lemma_split_nonempty(s.drop_last(), c);
    }
}

pub open spec fn strings_view(v: Seq<String>) -> Seq<Seq<char>> {
    v.map_values(|x: String| x@)
}

/// Splits `s` at every `c`.
pub fn split_char(s: &str, c: char) -> (r: Vec<String>)
    ensures
        strings_view(r@) == split_on(s@, c),
{
    let n = s.unicode_len();
    let mut parts: Vec<String> = Vec::new();
    let mut start: usize = 0;
    let mut i: usize = 0;
    assert(s@.take(0) =~= Seq::<char>::empty());
    while i < n
        invariant
            n == s@.len(),
            start <= i <= n,
            strings_view(parts@).push(s@.subrange(start as int, i as int)) == split_on(s@.take(i as int), c),
        decreases n - i,
    {
        let ch = s.get_char(i);
        proof {
            lemma_split_nonempty(s@.take(i as int), c);
            assert(s@.take(i + 1).drop_last() =~= s@.take(i as int));
            assert(s@.take(i + 1).last() == ch);
        }
        if ch == c {
            let piece = String::from_str(s.substring_char(start, i));
            let ghost before = parts@;
            parts.push(piece);
            assert(strings_view(parts@) =~= strings_view(before).push(s@.subrange(start as int, i as int)));
            start = i + 1;
            assert(s@.subrange(start as int, i + 1) =~= Seq::<char>::empty());
        } else {
            assert(s@.subrange(start as int, i + 1) =~= s@.subrange(start as int, i as int).push(ch));
        }
        i = i + 1;
    }
    let last = String::from_str(s.substring_char(start, n));
    let ghost before = parts@;
    parts.push(last);
    assert(strings_view(parts@) =~= strings_view(before).push(s@.subrange(start as int, n as int)));
    assert(s@.take(n as int) =~= s@);
    parts
}

pub open spec fn is_digit(c: char) -> bool {
    '0' <= c && c <= '9'
}

pub open spec fn all_digits(s: Seq<char>) -> bool {
    forall|i: int| 0 <= i < s.len() ==> is_digit(#[trigger] s[i])
}

/// The value of a string of decimal digits.
pub open spec fn digits_value(s: Seq<char>) -> nat
    decreases s.len(),
{
    if s.len() == 0 {
        0
    } else {
        digits_value(s.drop_last()) * 10 + ((s.last() as u32) - ('0' as u32)) as nat
    }
}

/// The magnitude written after an optional `+`: at least one digit and
/// nothing but digits.
pub open spec fn unsigned_magnitude(s: Seq<char>) -> Option<nat> {
    let body = if s.len() > 0 && s[0] == '+' { s.drop_first() } else { s };
    if body.len() > 0 && all_digits(body) { Some(digits_value(body)) } else { None }
}

/// What `str::parse::<u32>` accepts: an optional `+`, then decimal digits
/// whose value fits.
pub open spec fn parse_u32_text(s: Seq<char>) -> Option<u32> {
    match unsigned_magnitude(s) {
        Some(v) => if v <= u32::MAX { Some(v as u32) } else { None },
        None => None,
    }
}

/// What `str::parse::<i32>` accepts: an optional `+` or `-`, then decimal
/// digits whose signed value fits.
pub open spec fn parse_i32_text(s: Seq<char>) -> Option<i32> {
    if s.len() > 0 && s[0] == '-' {
        let body = s.drop_first();
        if body.len() > 0 && all_digits(body) && digits_value(body) <= 0x8000_0000 {
            Some((0 - digits_value(body)) as i32)
        } else {
            None
        }
    } else {
        match unsigned_magnitude(s) {
            Some(v) => if v <= i32::MAX { Some(v as i32) } else { None },
            None => None,
        }
    }
}

proof fn lemma_digits_monotone(s: Seq<char>, k: int)
    requires
        0 <= k <= s.len(),
        all_digits(s),
    ensures
        digits_value(s.take(k)) <= digits_value(s),
    decreases s.len(),
{
    if k < s.len() {
        let d = s.drop_last();
        assert(all_digits(d)) by {
            assert forall|i: int| 0 <= i < d.len() implies is_digit(#[trigger] d[i]) by {
                assert(d[i] == s[i]);
            }
        }
        lemma_digits_monotone(d, k);
        assert(d.take(k) =~= s.take(k));
    } else {
        assert(s.take(k) =~= s);
    }
}

/// Reads the digits of `s` from index `from` on, as long as their value
/// stays within `limit`; `None` when a character is no digit, when there is
/// none, or when the value exceeds `limit`.
fn read_digits(s: &str, from: usize, limit: u64) -> (r: Option<u64>)
    requires
        from <= s@.len(),
        limit <= u32::MAX as u64 + 1,
    ensures
        ({
            let body = s@.skip(from as int);
            match r {
                Some(v) => body.len() > 0 && all_digits(body) && v == digits_value(body) && v <= limit,
                None => !(body.len() > 0 && all_digits(body) && digits_value(body) <= limit),
            }
        }),
{
    let n = s.unicode_len();
    let ghost body = s@.skip(from as int);
    if from >= n {
        return None;
    }
    let mut acc: u64 = 0;
    let mut i: usize = from;
    assert(body.take(0) =~= Seq::<char>::empty());
    while i < n
        invariant
            n == s@.len(),
            from <= i <= n,
            body == s@.skip(from as int),
            limit <= u32::MAX as u64 + 1,
            acc == digits_value(body.take(i - from)),
            acc <= limit,
            all_digits(body.take(i - from)),
        decreases n - i,
    {
        let c = s.get_char(i);
        assert(body[i - from] == c);
        if !('0' <= c && c <= '9') {
            assert(!all_digits(body));
            return None;
        }
        let d = (c as u32 - '0' as u32) as u64;
        assert(body.take(i - from + 1).drop_last() =~= body.take(i - from));
        assert(body.take(i - from + 1).last() == c);
        acc = acc * 10 + d;
        assert(all_digits(body.take(i - from + 1))) by {
            assert forall|j: int| 0 <= j < i - from + 1 implies is_digit(#[trigger] body.take(i - from + 1)[j]) by {
                if j < i - from {
                    assert(body.take(i - from + 1)[j] == body.take(i - from)[j]);
                }
            }
        }
        if acc > limit {
            proof {
                if all_digits(body) {
                    lemma_digits_monotone(body, i - from + 1);
                }
            }
            return None;
        }
        i = i + 1;
    }
    assert(body.take(n - from) =~= body);
    Some(acc)
}

/// `str::parse::<u32>`, written out.
pub fn parse_u32(s: &str) -> (r: Option<u32>)
    ensures
        r == parse_u32_text(s@),
{
    let n = s.unicode_len();
    let from: usize = if n > 0 && s.get_char(0) == '+' { 1 } else { 0 };
    assert(s@.skip(from as int) =~= (if s@.len() > 0 && s@[0] == '+' { s@.drop_first() } else { s@ }));
    match read_digits(s, from, u32::MAX as u64) {
        Some(v) => Some(v as u32),
        None => None,
    }
}

/// The decimal representation of an integer: a `-` before the magnitude
/// when it is negative (as `Display` writes a signed integer).
pub open spec fn signed_text(v: int) -> Seq<char> {
    if v < 0 { seq!['-'] + decimal_text((-v) as nat) } else { decimal_text(v as nat) }
}

/// Renders `v` in decimal, with a `-` when it is negative.
pub fn signed_decimal(v: i32) -> (r: String)
    ensures
        r@ == signed_text(v as int),
{
    if v < 0 {
        let magnitude: u64 = (0 - (v as i64)) as u64;
        let digits = decimal(magnitude);
        proof {
            reveal_strlit("-");
        }
        let r = String::from_str("-").concat(digits.as_str());
        assert(r@ =~= signed_text(v as int));
        r
    } else {
        decimal(v as u64)
    }
}

proof fn lemma_digit_value(d: nat)
    requires
        d < 10,
    ensures
        is_digit(digit_char(d)),
        ((digit_char(d) as u32) - ('0' as u32)) as nat == d,
{
    assert('0' as u32 == 48);
    assert('9' as u32 == 57);
    if d == 0 { assert('0' as u32 == 48); }
    else if d == 1 { assert('1' as u32 == 49); }
    else if d == 2 { assert('2' as u32 == 50); }
    else if d == 3 { assert('3' as u32 == 51); }
    else if d == 4 { assert('4' as u32 == 52); }
    else if d == 5 { assert('5' as u32 == 53); }
    else if d == 6 { assert('6' as u32 == 54); }
    else if d == 7 { assert('7' as u32 == 55); }
    else if d == 8 { assert('8' as u32 == 56); }
    else { assert('9' as u32 == 57); }
}

/// A decimal representation is made of digits and reads back as the number.
pub proof fn lemma_decimal_digits(n: nat)
    ensures
        all_digits(decimal_text(n)),
        digits_value(decimal_text(n)) == n,
        decimal_text(n).len() >= 1,
    decreases n,
{
    let t = decimal_text(n);
    lemma_digit_value(n % 10);
    assert(t.last() == digit_char(n % 10));
    if n < 10 {
        assert(t.drop_last() =~= Seq::<char>::empty());
        assert(digits_value(t.drop_last()) == 0);
        assert(digits_value(t) == digits_value(t.drop_last()) * 10 + ((t.last() as u32) - ('0' as u32)) as nat);
    } else {
        lemma_decimal_digits(n / 10);
        assert(t.drop_last() =~= decimal_text(n / 10));
        assert(digits_value(t) == digits_value(t.drop_last()) * 10 + ((t.last() as u32) - ('0' as u32)) as nat);
        assert(n == (n / 10) * 10 + n % 10);
        assert forall|i: int| 0 <= i < t.len() implies is_digit(#[trigger] t[i]) by {
            if i < t.len() - 1 {
                assert(t[i] == decimal_text(n / 10)[i]);
            }
        }
    }
}

/// `str::parse::<u32>` reads back what `decimal` writes.
pub proof fn lemma_parse_u32_decimal(n: u32)
    ensures
        parse_u32_text(decimal_text(n as nat)) == Some(n),
{
    lemma_decimal_digits(n as nat);
    let t = decimal_text(n as nat);
    assert(is_digit(t[0]));
}

/// `str::parse::<i32>` reads back what `signed_decimal` writes.
pub proof fn lemma_parse_i32_signed(v: i32)
    ensures
        parse_i32_text(signed_text(v as int)) == Some(v),
{
    let t = signed_text(v as int);
    if v < 0 {
        let m = (-v) as nat;
        lemma_decimal_digits(m);
        assert(t.drop_first() =~= decimal_text(m));
    } else {
        lemma_decimal_digits(v as nat);
        assert(is_digit(t[0]));
    }
}

/// A decimal representation holds no `c` that is not a digit.
pub proof fn lemma_decimal_lacks(n: nat, c: char)
    requires
        !is_digit(c),
    ensures
        !decimal_text(n).contains(c),
{
    lemma_decimal_digits(n);
    let t = decimal_text(n);
    if t.contains(c) {
        let i = choose|i: int| 0 <= i < t.len() && t[i] == c;
        assert(is_digit(t[i]));
    }
}

/// Appending text free of `c` extends the last piece.
pub proof fn lemma_split_extend(u: Seq<char>, t: Seq<char>, c: char)
    requires
        !t.contains(c),
    ensures
        ({
            let parts = split_on(u, c);
            split_on(u + t, c) == parts.update(parts.len() - 1, parts.last() + t)
        }),
    decreases t.len(),
{
    lemma_split_nonempty(u, c);
    let parts = split_on(u, c);
    if t.len() == 0 {
        assert(u + t =~= u);
        assert(parts.last() + t =~= parts.last());
        assert(parts.update(parts.len() - 1, parts.last() + t) =~= parts);
    } else {
        let t0 = t.drop_last();
        let x = t.last();
        assert(!t0.contains(c)) by {
            if t0.contains(c) {
                let i = choose|i: int| 0 <= i < t0.len() && t0[i] == c;
                assert(t[i] == c);
            }
        }
        assert(x != c) by {
            assert(t[t.len() - 1] == x);
        }
        lemma_split_extend(u, t0, c);
        assert((u + t).drop_last() =~= u + t0);
        assert((u + t).last() == x);
        let before = split_on(u + t0, c);
        assert(split_on(u + t, c) == before.update(before.len() - 1, before.last().push(x)));
        assert(before.last() == parts.last() + t0);
        assert((parts.last() + t0).push(x) =~= parts.last() + t);
        assert(before.update(before.len() - 1, before.last().push(x)) =~= parts.update(parts.len() - 1, parts.last() + t));
    }
}

/// Three pieces free of `c`, joined by `c`, split back into themselves.
pub proof fn lemma_split_three(a: Seq<char>, b: Seq<char>, d: Seq<char>, c: char)
    requires
        !a.contains(c),
        !b.contains(c),
        !d.contains(c),
    ensures
        split_on(a + seq![c] + b + seq![c] + d, c) == seq![a, b, d],
{
    let e = Seq::<char>::empty();
    assert(split_on(e, c) == seq![e]);
    lemma_split_extend(e, a, c);
    assert(e + a =~= a);
    assert(split_on(a, c) =~= seq![a]);
    let a1 = a + seq![c];
    assert(a1.drop_last() =~= a);
    assert(split_on(a1, c) =~= seq![a, e]);
    lemma_split_extend(a1, b, c);
    assert(e + b =~= b);
    assert(split_on(a1 + b, c) =~= seq![a, b]);
    let b1 = a1 + b + seq![c];
    assert(b1.drop_last() =~= a1 + b);
    assert(split_on(b1, c) =~= seq![a, b, e]);
    lemma_split_extend(b1, d, c);
    assert(e + d =~= d);
    assert(split_on(b1 + d, c) =~= seq![a, b, d]);
}

/// `str::parse::<i32>`, written out.
pub fn parse_i32(s: &str) -> (r: Option<i32>)
    ensures
        r == parse_i32_text(s@),
{
    let n = s.unicode_len();
    if n > 0 && s.get_char(0) == '-' {
        assert(s@.skip(1) =~= s@.drop_first());
        match read_digits(s, 1, 0x8000_0000) {
            Some(v) => {
                let neg: i64 = 0 - (v as i64);
                Some(neg as i32)
            },
            None => None,
        }
    } else {
        let from: usize = if n > 0 && s.get_char(0) == '+' { 1 } else { 0 };
        assert(s@.skip(from as int) =~= (if s@.len() > 0 && s@[0] == '+' { s@.drop_first() } else { s@ }));
        match read_digits(s, from, i32::MAX as u64) {
            Some(v) => Some(v as i32),
            None => None,
        }
    }
}

} // verus!

verus! {

/// The code of `c` with an ASCII capital mapped to its small letter.
pub open spec fn ascii_fold(c: char) -> int {
    if 'A' <= c && c <= 'Z' { (c as u32) + 32 } else { c as u32 as int }
}

/// `a` and `b` are equal up to ASCII case (as `str::eq_ignore_ascii_case`).
pub open spec fn eq_ascii_nocase(a: Seq<char>, b: Seq<char>) -> bool {
    a.len() == b.len() && forall|i: int| 0 <= i < a.len() ==> ascii_fold(#[trigger] a[i]) == ascii_fold(b[i])
}

fn fold_char(c: char) -> (r: u32)
    ensures
        r == ascii_fold(c),
{
    if 'A' <= c && c <= 'Z' { (c as u32) + 32 } else { c as u32 }
}

/// Whether `a` and `b` are equal up to ASCII case.
pub fn eq_ignore_ascii_case(a: &str, b: &str) -> (r: bool)
    ensures
        r == eq_ascii_nocase(a@, b@),
{
    let n = a.unicode_len();
    if n != b.unicode_len() {
        return false;
    }
    let mut i: usize = 0;
    while i < n
        invariant
            n == a@.len(),
            n == b@.len(),
            i <= n,
            forall|j: int| 0 <= j < i ==> ascii_fold(#[trigger] a@[j]) == ascii_fold(b@[j]),
        decreases n - i,
    {
        if fold_char(a.get_char(i)) != fold_char(b.get_char(i)) {
            return false;
        }
        i = i + 1;
    }
    true
}

/// Whether `s` holds the character `c`.
pub fn contains_char(s: &str, c: char) -> (r: bool)
    ensures
        r == s@.contains(c),
{
    let n = s.unicode_len();
    let mut i: usize = 0;
    while i < n
        invariant
            n == s@.len(),
            i <= n,
            forall|j: int| 0 <= j < i ==> s@[j] != c,
        decreases n - i,
    {
        if s.get_char(i) == c {
            assert(s@[i as int] == c);
            return true;
        }
        i = i + 1;
    }
    false
}

/// The pieces joined with a single space between each two.
pub open spec fn join_spaced(parts: Seq<Seq<char>>) -> Seq<char>
    decreases parts.len(),
{
    if parts.len() == 0 {
        Seq::empty()
    } else if parts.len() == 1 {
        parts[0]
    } else {
        join_spaced(parts.drop_last()) + " "@ + parts.last()
    }
}

/// Joins the pieces with single spaces.
pub fn join_with_spaces(parts: &Vec<String>) -> (r: String)
    ensures
        r@ == join_spaced(strings_view(parts@)),
{
    let ghost pv = strings_view(parts@);
    let mut out = String::new();
    let mut i: usize = 0;
    assert(pv.take(0) =~= Seq::<Seq<char>>::empty());
    while i < parts.len()
        invariant
            i <= parts@.len(),
            pv == strings_view(parts@),
            pv.len() == parts@.len(),
            out@ == join_spaced(pv.take(i as int)),
        decreases parts@.len() - i,
    {
        assert(pv.take(i + 1).drop_last() =~= pv.take(i as int));
        assert(pv.take(i + 1).last() == parts@[i as int]@);
        if i == 0 {
            assert(pv.take(1) =~= seq![parts@[0]@]);
            out = String::from_str(parts[i].as_str());
        } else {
            out.append(" ");
            out.append(parts[i].as_str());
        }
        i = i + 1;
    }
    assert(pv.take(parts@.len() as int) =~= pv);
    out
}

} // verus!

verus! {

/// `s` with every occurrence of the non-empty `from` replaced by `to`,
/// scanning left to right (as `str::replace` does).
pub open spec fn replace_all(s: Seq<char>, from: Seq<char>, to: Seq<char>) -> Seq<char>
    recommends
        from.len() > 0,
    decreases s.len(),
{
    if s.len() == 0 || from.len() == 0 {
        s
    } else if has_prefix(s, from) {
        to + replace_all(s.skip(from.len() as int), from, to)
    } else {
        seq![s[0]] + replace_all(s.drop_first(), from, to)
    }
}

/// Replaces every occurrence of `from` in `s` by `to`.
pub fn replace_str(s: &str, from: &str, to: &str) -> (r: String)
    requires
        from@.len() > 0,
    ensures
        r@ == replace_all(s@, from@, to@),
{
    let n = s.unicode_len();
    let m = from.unicode_len();
    let mut out = String::new();
    let mut i: usize = 0;
    assert(s@.skip(0) =~= s@);
    while i < n
        invariant
            n == s@.len(),
            m == from@.len(),
            m > 0,
            i <= n,
            out@ + replace_all(s@.skip(i as int), from@, to@) == replace_all(s@, from@, to@),
        decreases n - i,
    {
        let rest = s.substring_char(i, n);
        assert(rest@ =~= s@.skip(i as int));
        if starts_with(rest, from) {
            assert(s@.skip(i as int).skip(m as int) =~= s@.skip(i + m));
            out.append(to);
            assert(out@ + replace_all(s@.skip(i + m), from@, to@) =~= replace_all(s@, from@, to@));
            i = i + m;
        } else {
            let piece = s.substring_char(i, i + 1);
            assert(piece@ =~= seq![s@[i as int]]);
            assert(s@.skip(i as int).drop_first() =~= s@.skip(i + 1));
            out.append(piece);
            assert(out@ + replace_all(s@.skip(i + 1), from@, to@) =~= replace_all(s@, from@, to@));
            i = i + 1;
        }
    }
    assert(s@.skip(n as int) =~= Seq::<char>::empty());
    assert(out@ + Seq::<char>::empty() =~= out@);
    out
}

/// `s` without the leading copies of `c`.
pub fn trim_start_char_str(s: &str, c: char) -> (r: String)
    ensures
        r@ == trim_start_char(s@, c),
{
    let n = s.unicode_len();
    let mut i: usize = 0;
    assert(s@.skip(0) =~= s@);
    while i < n && s.get_char(i) == c
        invariant
            n == s@.len(),
            i <= n,
            trim_start_char(s@.skip(i as int), c) == trim_start_char(s@, c),
        decreases n - i,
    {
        proof {
            lemma_trim_start_skip(s@, c, i as int);
        }
        i = i + 1;
    }
    let t = s.substring_char(i, n);
    assert(t@ =~= s@.skip(i as int));
    if i < n {
        assert(t@[0] == s@[i as int]);
    }
    String::from_str(t)
}

} // verus!
