//! What holds of the operations on text.
use vstd::prelude::*;

use crate::text;

verus! {

/// The code points of the characters that Unicode counts as white space.
pub open spec fn space_code(n: int) -> bool {
    ||| 9 <= n <= 13
    ||| n == 32
    ||| n == 133
    ||| n == 160
    ||| n == 5760
    ||| 8192 <= n <= 8202
    ||| n == 8232
    ||| n == 8233
    ||| n == 8239
    ||| n == 8287
    ||| n == 12288
}

/// A character is white space exactly where its code point says so.
pub proof fn law_white_space_by_code_point(c: char)
    ensures
        text::white_space(c) <==> space_code(c as int),
{
}

/// A text says something exactly where some character of it is not white space.
pub proof fn law_blank_texts_say_nothing(s: Seq<char>)
    ensures
        !text::blank(s) <==> exists|i: int| 0 <= i < s.len() && !space_code(#[trigger] s[i] as int),
{
    if !text::blank(s) {
        let i = choose|i: int| 0 <= i < s.len() && !text::white_space(#[trigger] s[i]);
        assert(!space_code(s[i] as int));
    }
}

/// Trimming takes away the white space on both sides of a text, and nothing else.
pub proof fn law_trimming_leaves_the_core(lead: Seq<char>, core: Seq<char>, trail: Seq<char>)
    requires
        forall|i: int| 0 <= i < lead.len() ==> space_code(#[trigger] lead[i] as int),
        forall|i: int| 0 <= i < trail.len() ==> space_code(#[trigger] trail[i] as int),
        core.len() > 0 ==> !space_code(core[0] as int) && !space_code(core.last() as int),
    ensures
        text::trim(lead + core + trail) == core,
{
    let s = lead + core + trail;
    if core.len() == 0 {
        assert forall|i: int| 0 <= i < s.len() implies text::white_space(#[trigger] s[i]) by {
            if i < lead.len() {
                assert(s[i] == lead[i]);
            } else {
                assert(s[i] == trail[i - lead.len()]);
            }
        }
        text::lemma_trim_start(s, s.len() as int);
        assert(text::trim(s) =~= core);
    } else {
        let from = lead.len() as int;
        let rest = core + trail;
        assert forall|i: int| 0 <= i < from implies text::white_space(#[trigger] s[i]) by {
            assert(s[i] == lead[i]);
        }
        assert(s[from] == core[0]);
        text::lemma_trim_start(s, from);
        assert(s.skip(from) =~= rest);
        let to = core.len() as int;
        assert forall|i: int| to <= i < rest.len() implies text::white_space(
            #[trigger] rest[i],
        ) by {
            assert(rest[i] == trail[i - to]);
        }
        assert(rest[to - 1] == core.last());
        text::lemma_trim_end(rest, to);
        assert(rest.take(to) =~= core);
    }
}

/// A text has a prefix exactly where it is that prefix with some rest after it.
pub proof fn law_prefixes_come_first(s: Seq<char>, prefix: Seq<char>, rest: Seq<char>)
    ensures
        text::has_prefix(prefix + rest, prefix),
        text::has_prefix(s, prefix) ==> s == prefix + s.skip(prefix.len() as int),
{
    assert((prefix + rest).take(prefix.len() as int) =~= prefix);
    if text::has_prefix(s, prefix) {
        assert(s =~= s.take(prefix.len() as int) + s.skip(prefix.len() as int));
    }
}

/// A text holds another one exactly where it is something, that text, and something.
pub proof fn law_held_texts_stand_somewhere(
    s: Seq<char>,
    before: Seq<char>,
    part: Seq<char>,
    after: Seq<char>,
)
    ensures
        text::holds_text(before + part + after, part),
        text::holds_text(s, part) ==> exists|a: Seq<char>, b: Seq<char>|
            s == #[trigger] (a + part + b),
{
    let whole = before + part + after;
    let k = before.len() as int;
    assert(whole.subrange(k, k + part.len()) =~= part);
    assert(text::text_at(whole, part, k));
    if text::holds_text(s, part) {
        let i = choose|i: int| #[trigger] text::text_at(s, part, i);
        let a = s.take(i);
        let b = s.skip(i + part.len());
        assert(s =~= a + s.subrange(i, i + part.len()) + b);
        assert(s == a + part + b);
    }
}

/// Joining puts the separator between neighbours and nowhere else: one text stays as it is, and
/// two lists are joined as one list, with the separator where they meet.
pub proof fn law_joining_separates_neighbours(
    one: Seq<char>,
    a: Seq<Seq<char>>,
    b: Seq<Seq<char>>,
    separator: Seq<char>,
)
    ensures
        text::joined(Seq::empty(), separator).len() == 0,
        text::joined(seq![one], separator) == one,
        a.len() > 0 && b.len() > 0 ==> text::joined(a + b, separator) == text::joined(a, separator)
            + separator + text::joined(b, separator),
    decreases b.len(),
{
    if a.len() > 0 && b.len() > 0 {
        let all = a + b;
        assert(all.last() == b.last());
        assert(all.drop_last() =~= a + b.drop_last());
        if b.len() == 1 {
            assert(all.drop_last() =~= a);
            assert(text::joined(b, separator) == b[0]);
        } else {
            law_joining_separates_neighbours(one, a, b.drop_last(), separator);
            assert(text::joined(all, separator) =~= text::joined(a, separator) + separator
                + text::joined(b, separator));
        }
    }
}

/// The number that some decimal digits stand for.
pub open spec fn number(s: Seq<char>) -> int
    decreases s.len(),
{
    if s.len() == 0 {
        0
    } else {
        number(s.drop_last()) * 10 + (s.last() as int - 48)
    }
}

/// A natural number is written in decimal digits that stand for it, without a needless zero in
/// front.
pub proof fn law_numbers_can_be_read_back(n: nat)
    ensures
        number(text::digits(n)) == n,
        text::digits(n).len() > 0,
        forall|i: int| 0 <= i < text::digits(n).len() ==> 48 <= #[trigger] text::digits(n)[i] as int
            <= 57,
        text::digits(n).len() > 1 ==> text::digits(n)[0] as int != 48,
        n > 0 ==> text::digits(n)[0] as int != 48,
    decreases n,
{
    let d = text::digits(n);
    if n < 10 {
        assert(d.drop_last() =~= Seq::empty());
        assert(number(d.drop_last()) == 0);
        assert(d.last() as int == 48 + n);
    } else {
        law_numbers_can_be_read_back(n / 10);
        assert(d.drop_last() =~= text::digits(n / 10));
        assert(d.last() as int == 48 + n % 10);
        assert(d[0] == text::digits(n / 10)[0]);
        assert forall|i: int| 0 <= i < d.len() implies 48 <= #[trigger] d[i] as int <= 57 by {
            if i < d.len() - 1 {
                assert(d[i] == text::digits(n / 10)[i]);
            }
        }
    }
}

/// An integer is written as its distance from zero, after a minus sign where it is negative.
pub proof fn law_negative_numbers_have_a_sign(n: nat)
    ensures
        text::decimal(n as int) == text::digits(n),
        n > 0 ==> text::decimal(-(n as int)) == seq![45 as char] + text::digits(n),
{
}

/// A text that may be missing is missing or what it is.
pub proof fn law_optional_texts(owned: String, borrowed: &str)
    ensures
        text::opt_text(Some(owned)) == Some(owned@),
        text::opt_text(None::<String>) is None,
        text::opt_str(Some(borrowed)) == Some(borrowed@),
        text::opt_str(None::<&str>) is None,
{
}

/// A list of texts is shown text by text.
pub proof fn law_text_lists(parts: Seq<&str>)
    ensures
        text::str_views(parts).len() == parts.len(),
        forall|i: int|
            0 <= i < parts.len() ==> #[trigger] text::str_views(parts)[i] == parts[i]@,
{
}

} // verus!
