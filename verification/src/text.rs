//! Character-level operations on text: comparison, trimming, line splitting, joining and the
//! decimal writing of integers.
use vstd::prelude::*;
use vstd::string::*;

verus! {

/// The view of an optional text.
pub open spec fn opt_text(text: Option<String>) -> Option<Seq<char>> {
    match text {
        Some(t) => Some(t@),
        None => None,
    }
}

/// The view of an optional borrowed text.
pub open spec fn opt_str(text: Option<&str>) -> Option<Seq<char>> {
    match text {
        Some(t) => Some(t@),
        None => None,
    }
}

/// The characters with the Unicode property `White_Space`.
pub open spec fn white_space(c: char) -> bool {
    ||| '\u{9}' <= c <= '\u{d}'
    ||| c == '\u{20}'
    ||| c == '\u{85}'
    ||| c == '\u{a0}'
    ||| c == '\u{1680}'
    ||| '\u{2000}' <= c <= '\u{200a}'
    ||| c == '\u{2028}'
    ||| c == '\u{2029}'
    ||| c == '\u{202f}'
    ||| c == '\u{205f}'
    ||| c == '\u{3000}'
}

/// Whether a text holds nothing but white space.
pub open spec fn blank(s: Seq<char>) -> bool {
    forall|i: int| 0 <= i < s.len() ==> white_space(#[trigger] s[i])
}

/// A text without its leading white space.
pub open spec fn trim_start(s: Seq<char>) -> Seq<char>
    decreases s.len(),
{
    if s.len() > 0 && white_space(s[0]) {
        trim_start(s.drop_first())
    } else {
        s
    }
}

/// A text without its trailing white space.
pub open spec fn trim_end(s: Seq<char>) -> Seq<char>
    decreases s.len(),
{
    if s.len() > 0 && white_space(s.last()) {
        trim_end(s.drop_last())
    } else {
        s
    }
}

/// A text without the white space around it.
pub open spec fn trim(s: Seq<char>) -> Seq<char> {
    trim_end(trim_start(s))
}

/// Whether a character has the Unicode property `White_Space`.
pub fn is_white_space(c: char) -> (r: bool)
    ensures
        r == white_space(c),
{
    ('\u{9}' <= c && c <= '\u{d}') || c == '\u{20}' || c == '\u{85}' || c == '\u{a0}' || c
        == '\u{1680}' || ('\u{2000}' <= c && c <= '\u{200a}') || c == '\u{2028}' || c == '\u{2029}'
        || c == '\u{202f}' || c == '\u{205f}' || c == '\u{3000}'
}

/// The characters of a text, in order.
pub fn chars_of(s: &str) -> (r: Vec<char>)
    ensures
        r@ == s@,
{
    let mut out: Vec<char> = Vec::new();
    for c in it: s.chars()
        invariant
            out@ == s@.take(it.index() as int),
            it.seq() == s@,
    {
        out.push(c);
        assert(s@.take(it.index() as int + 1) == s@.take(it.index() as int).push(c));
    }
    assert(s@.take(s@.len() as int) == s@);
    out
}

/// Whether two texts hold the same characters.
pub fn same_text(a: &str, b: &str) -> (r: bool)
    ensures
        r == (a@ == b@),
{
    let x = a.as_bytes();
    let y = b.as_bytes();
    proof {
        vstd::utf8::encode_utf8_decode_utf8(a@);
        vstd::utf8::encode_utf8_decode_utf8(b@);
        assert(a@ == b@ <==> x@ == y@);
    }
    if x.len() != y.len() {
        return false;
    }
    let mut i: usize = 0;
    while i < x.len()
        invariant
            i <= x@.len(),
            x@.len() == y@.len(),
            a@ == b@ <==> x@ == y@,
            forall|k: int| 0 <= k < i ==> x@[k] == y@[k],
        decreases x@.len() - i,
    {
        if x[i] != y[i] {
            assert(x@[i as int] != y@[i as int]);
            return false;
        }
        i += 1;
    }
    assert(x@ =~= y@);
    true
}

/// Whether a text holds nothing but white space.
pub fn is_blank(s: &str) -> (r: bool)
    ensures
        r == blank(s@),
{
    let chars = chars_of(s);
    let mut i: usize = 0;
    while i < chars.len()
        invariant
            i <= chars.len(),
            chars@ == s@,
            forall|k: int| 0 <= k < i ==> white_space(#[trigger] s@[k]),
        decreases chars.len() - i,
    {
        if !is_white_space(chars[i]) {
            assert(!white_space(s@[i as int]));
            return false;
        }
        i += 1;
    }
    true
}

/// Whether a text begins with a prefix.
pub open spec fn has_prefix(s: Seq<char>, prefix: Seq<char>) -> bool {
    prefix.len() <= s.len() && s.take(prefix.len() as int) == prefix
}

/// Whether a text holds another one somewhere.
pub open spec fn holds_text(s: Seq<char>, part: Seq<char>) -> bool {
    exists|i: int| #[trigger] text_at(s, part, i)
}

/// Whether `part` stands in `s` from position `i` on.
pub open spec fn text_at(s: Seq<char>, part: Seq<char>, i: int) -> bool {
    0 <= i && i + part.len() <= s.len() && s.subrange(i, i + part.len()) == part
}

/// The texts of a sequence, one after the other, with a separator between neighbours.
pub open spec fn joined(parts: Seq<Seq<char>>, separator: Seq<char>) -> Seq<char>
    decreases parts.len(),
{
    if parts.len() == 0 {
        Seq::empty()
    } else if parts.len() == 1 {
        parts[0]
    } else {
        joined(parts.drop_last(), separator) + separator + parts.last()
    }
}

/// The decimal digit of a number below ten.
pub open spec fn digit(d: nat) -> char {
    ('0' as u32 + d) as char
}

/// The decimal writing of a natural number, without leading zeros.
pub open spec fn digits(n: nat) -> Seq<char>
    decreases n,
{
    if n < 10 {
        seq![digit(n)]
    } else {
        digits(n / 10).push(digit(n % 10))
    }
}

/// The decimal writing of an integer.
pub open spec fn decimal(n: int) -> Seq<char> {
    if n < 0 {
        seq!['-'] + digits((-n) as nat)
    } else {
        digits(n as nat)
    }
}

/// The decimal writing of a natural number is made of digits, and there is at least one.
pub proof fn lemma_digits(n: nat)
    ensures
        digits(n).len() > 0,
        forall|i: int| 0 <= i < digits(n).len() ==> '0' <= #[trigger] digits(n)[i] <= '9',
    decreases n,
{
    if n >= 10 {
        lemma_digits(n / 10);
    }
}

/// Different natural numbers are written differently.
pub proof fn lemma_digits_differ(m: nat, n: nat)
    requires
        digits(m) == digits(n),
    ensures
        m == n,
    decreases m,
{
    lemma_digits(m / 10);
    lemma_digits(n / 10);
    if m < 10 && n < 10 {
        assert(digits(m)[0] == digit(m));
        assert(digits(n)[0] == digit(n));
        assert(digit(m) as int == 48 + m && digit(n) as int == 48 + n);
    } else if m < 10 {
        assert(digits(m).len() == 1);
        assert(digits(n).len() > 1);
    } else if n < 10 {
        assert(digits(n).len() == 1);
        assert(digits(m).len() > 1);
    } else {
        assert(digits(m).drop_last() =~= digits(m / 10));
        assert(digits(n).drop_last() =~= digits(n / 10));
        lemma_digits_differ(m / 10, n / 10);
        assert(digits(m).last() == digit(m % 10));
        assert(digits(n).last() == digit(n % 10));
        assert(digit(m % 10) as int == 48 + m % 10 && digit(n % 10) as int == 48 + n % 10);
    }
}

/// Different integers are written differently.
pub proof fn lemma_decimals_differ(m: int, n: int)
    requires
        decimal(m) == decimal(n),
    ensures
        m == n,
{
    lemma_decimal(m);
    lemma_decimal(n);
    assert(decimal(m)[0] == decimal(n)[0]);
    if m < 0 {
        lemma_digits((-n) as nat);
        assert(decimal(m).drop_first() =~= digits((-m) as nat));
        assert(decimal(n).drop_first() =~= digits((-n) as nat));
        lemma_digits_differ((-m) as nat, (-n) as nat);
    } else {
        lemma_digits_differ(m as nat, n as nat);
    }
}

/// The decimal writing of an integer holds digits only, but for the sign that a negative one
/// begins with.
pub proof fn lemma_decimal(n: int)
    ensures
        decimal(n).len() > 0,
        forall|i: int| 0 < i < decimal(n).len() ==> '0' <= #[trigger] decimal(n)[i] <= '9',
        n < 0 <==> decimal(n)[0] == '-',
{
    if n < 0 {
        lemma_digits((-n) as nat);
    } else {
        lemma_digits(n as nat);
        assert('0' <= digits(n as nat)[0] <= '9');
    }
}

/// Where the text that is left by [`trim_start`] begins.
pub proof fn lemma_trim_start(s: Seq<char>, from: int)
    requires
        0 <= from <= s.len(),
        forall|i: int| 0 <= i < from ==> white_space(#[trigger] s[i]),
        from < s.len() ==> !white_space(s[from]),
    ensures
        trim_start(s) == s.skip(from),
    decreases s.len(),
{
    if from == 0 {
        assert(s.skip(0) == s);
    } else {
        let rest = s.drop_first();
        assert forall|i: int| 0 <= i < from - 1 implies white_space(#[trigger] rest[i]) by {
            assert(rest[i] == s[i + 1]);
        }
        lemma_trim_start(rest, from - 1);
        assert(rest.skip(from - 1) == s.skip(from));
    }
}

/// Where the text that is left by [`trim_end`] ends.
pub proof fn lemma_trim_end(s: Seq<char>, to: int)
    requires
        0 <= to <= s.len(),
        forall|i: int| to <= i < s.len() ==> white_space(#[trigger] s[i]),
        to > 0 ==> !white_space(s[to - 1]),
    ensures
        trim_end(s) == s.take(to),
    decreases s.len(),
{
    if to == s.len() {
        assert(s.take(to) == s);
    } else {
        let rest = s.drop_last();
        lemma_trim_end(rest, to);
        assert(rest.take(to) == s.take(to));
    }
}

/// A text is blank exactly when trimming leaves nothing of it.
pub proof fn lemma_blank_is_trimmed_empty(s: Seq<char>)
    ensures
        blank(s) <==> trim(s).len() == 0,
    decreases s.len(),
{
    if s.len() > 0 {
        if white_space(s[0]) {
            let rest = s.drop_first();
            lemma_blank_is_trimmed_empty(rest);
            if blank(rest) {
                assert forall|i: int| 0 <= i < s.len() implies white_space(#[trigger] s[i]) by {
                    if i > 0 {
                        assert(rest[i - 1] == s[i]);
                    }
                }
            }
            if blank(s) {
                assert forall|i: int| 0 <= i < rest.len() implies white_space(
                    #[trigger] rest[i],
                ) by {
                    assert(rest[i] == s[i + 1]);
                }
            }
        } else {
            assert(!blank(s));
            lemma_trim_end_keeps_first(s);
        }
    }
}

proof fn lemma_trim_end_keeps_first(s: Seq<char>)
    requires
        s.len() > 0,
        !white_space(s[0]),
    ensures
        trim_end(s).len() > 0,
    decreases s.len(),
{
    if white_space(s.last()) {
        lemma_trim_end_keeps_first(s.drop_last());
    }
}

/// The text without the white space around it.
pub fn trimmed<'a>(s: &'a str) -> (r: &'a str)
    ensures
        r@ == trim(s@),
{
    let chars = chars_of(s);
    let mut from: usize = 0;
    while from < chars.len() && is_white_space(chars[from])
        invariant
            from <= chars.len(),
            chars@ == s@,
            forall|k: int| 0 <= k < from ==> white_space(#[trigger] s@[k]),
        decreases chars.len() - from,
    {
        from += 1;
    }
    let mut to: usize = chars.len();
    while to > from && is_white_space(chars[to - 1])
        invariant
            from <= to <= chars.len(),
            chars@ == s@,
            forall|k: int| to <= k < s@.len() ==> white_space(#[trigger] s@[k]),
        decreases to - from,
    {
        to -= 1;
    }
    proof {
        lemma_trim_start(s@, from as int);
        let rest = s@.skip(from as int);
        assert forall|i: int| to - from <= i < rest.len() implies white_space(
            #[trigger] rest[i],
        ) by {
            assert(rest[i] == s@[i + from]);
        }
        lemma_trim_end(rest, to - from);
        assert(rest.take(to - from) == s@.subrange(from as int, to as int));
    }
    s.substring_char(from, to)
}

/// Whether a text begins with a prefix.
pub fn begins_with(s: &str, prefix: &str) -> (r: bool)
    ensures
        r == has_prefix(s@, prefix@),
{
    let x = chars_of(s);
    let y = chars_of(prefix);
    if y.len() > x.len() {
        return false;
    }
    let mut i: usize = 0;
    while i < y.len()
        invariant
            i <= y.len() <= x.len(),
            x@ == s@,
            y@ == prefix@,
            forall|k: int| 0 <= k < i ==> x@[k] == y@[k],
        decreases y.len() - i,
    {
        if x[i] != y[i] {
            assert(s@.take(prefix@.len() as int)[i as int] != prefix@[i as int]);
            return false;
        }
        i += 1;
    }
    assert(s@.take(prefix@.len() as int) =~= prefix@);
    true
}

/// Whether a text holds another one somewhere.
pub fn contains_text(s: &str, part: &str) -> (r: bool)
    ensures
        r == holds_text(s@, part@),
{
    let x = chars_of(s);
    let y = chars_of(part);
    if y.len() > x.len() {
        return false;
    }
    let mut i: usize = 0;
    while i <= x.len() - y.len()
        invariant
            i <= x.len() - y.len() + 1,
            y.len() <= x.len(),
            x@ == s@,
            y@ == part@,
            forall|j: int| 0 <= j < i ==> !#[trigger] text_at(s@, part@, j),
        decreases x.len() - i,
    {
        let mut k: usize = 0;
        while k < y.len() && x[i + k] == y[k]
            invariant
                k <= y.len(),
                i + y.len() <= x.len(),
                forall|m: int| 0 <= m < k ==> x@[i + m] == #[trigger] y@[m],
            decreases y.len() - k,
        {
            k += 1;
        }
        let ghost window = s@.subrange(i as int, i + part@.len());
        if k == y.len() {
            assert(window =~= part@);
            assert(text_at(s@, part@, i as int));
            return true;
        }
        assert(window[k as int] != part@[k as int]);
        assert(!text_at(s@, part@, i as int));
        if i == x.len() {
            return false;
        }
        i += 1;
    }
    false
}

/// The texts of a list, one after the other, with a separator between neighbours.
pub fn join_texts(parts: &Vec<&str>, separator: &str) -> (r: String)
    ensures
        r@ == joined(str_views(parts@), separator@),
{
    let mut out = String::new();
    let mut i: usize = 0;
    let ghost views = str_views(parts@);
    while i < parts.len()
        invariant
            i <= parts.len(),
            views == str_views(parts@),
            out@ == joined(views.take(i as int), separator@),
        decreases parts.len() - i,
    {
        if i > 0 {
            out.append(separator);
        }
        out.append(parts[i]);
        proof {
            assert(views.take(i + 1).drop_last() == views.take(i as int));
            assert(views.take(i + 1).last() == parts@[i as int]@);
            if i == 0 {
                assert(out@ =~= views.take(1)[0]);
            }
        }
        i += 1;
    }
    assert(views.take(parts.len() as int) == views);
    out
}

/// The views of a list of borrowed texts.
pub open spec fn str_views(parts: Seq<&str>) -> Seq<Seq<char>> {
    parts.map_values(|s: &str| s@)
}

/// The decimal digit of a number below ten, as a text.
fn digit_text(d: u64) -> (r: &'static str)
    requires
        d < 10,
    ensures
        r@ == seq![digit(d as nat)],
{
    proof {
        reveal_strlit("0");
        reveal_strlit("1");
        reveal_strlit("2");
        reveal_strlit("3");
        reveal_strlit("4");
        reveal_strlit("5");
        reveal_strlit("6");
        reveal_strlit("7");
        reveal_strlit("8");
        reveal_strlit("9");
    }
    if d == 0 {
        "0"
    } else if d == 1 {
        "1"
    } else if d == 2 {
        "2"
    } else if d == 3 {
        "3"
    } else if d == 4 {
        "4"
    } else if d == 5 {
        "5"
    } else if d == 6 {
        "6"
    } else if d == 7 {
        "7"
    } else if d == 8 {
        "8"
    } else {
        "9"
    }
}

/// The decimal writing of a natural number.
pub fn write_natural(n: u64) -> (r: String)
    ensures
        r@ == digits(n as nat),
    decreases n,
{
    if n < 10 {
        digit_text(n).to_owned()
    } else {
        let mut out = write_natural(n / 10);
        out.append(digit_text(n % 10));
        assert(out@ =~= digits((n / 10) as nat).push(digit((n % 10) as nat)));
        out
    }
}

/// The decimal writing of an integer.
pub fn write_integer(n: i64) -> (r: String)
    ensures
        r@ == decimal(n as int),
{
    if n < 0 {
        let magnitude: u64 = (-(n as i128)) as u64;
        let mut out = "-".to_owned();
        out.append(write_natural(magnitude).as_str());
        proof {
            reveal_strlit("-");
            assert(out@ =~= seq!['-'] + digits((-n) as nat));
        }
        out
    } else {
        write_natural(n as u64)
    }
}

/// What `str::to_lowercase` makes of a text.
pub uninterp spec fn lowercase(text: Seq<char>) -> Seq<char>;

/// Calls `str::to_lowercase`. Claimed: the result depends on the text alone; it is named by
/// [`lowercase`].
#[verifier::external_body]
pub(crate) fn to_lowercase(text: &str) -> (r: String)
    ensures
        r@ == lowercase(text@),
{
    text.to_lowercase()
}

/// The text that `String::from_utf8_lossy` reads from some bytes.
pub uninterp spec fn lossy(bytes: Seq<u8>) -> Seq<char>;

/// Calls `String::from_utf8_lossy`. Claimed: the text depends on the bytes alone, by the name
/// [`lossy`], and bytes that are valid UTF-8 give the text that they encode.
#[verifier::external_body]
pub(crate) fn lossy_text(bytes: &[u8]) -> (r: String)
    ensures
        r@ == lossy(bytes@),
        vstd::utf8::valid_utf8(bytes@) ==> r@ == vstd::utf8::decode_utf8(bytes@),
{
    String::from_utf8_lossy(bytes).into_owned()
}

} // verus!
