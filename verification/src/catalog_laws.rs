//! What holds of the model catalog.
use vstd::prelude::*;

use crate::models::{ModelInfo, ModelView};
use crate::{laws, models, text, text_laws};

verus! {

/// The code points of the characters that the id of a model may be made of: the ten digits, the
/// letters of both cases, and `-`, `_`, `.`, `[`, `]`, `=` and `,`.
pub open spec fn id_code(n: int) -> bool {
    ||| 48 <= n <= 57
    ||| 65 <= n <= 90
    ||| 97 <= n <= 122
    ||| n == 45
    ||| n == 95
    ||| n == 46
    ||| n == 91
    ||| n == 93
    ||| n == 61
    ||| n == 44
}

/// Whether all characters of a text are white space.
pub open spec fn spaces(s: Seq<char>) -> bool {
    forall|i: int| 0 <= i < s.len() ==> text_laws::space_code(#[trigger] s[i] as int)
}

/// Whether a text is one word.
pub open spec fn word(s: Seq<char>) -> bool {
    &&& s.len() > 0
    &&& forall|i: int| 0 <= i < s.len() ==> !text_laws::space_code(#[trigger] s[i] as int)
}

/// Whether a text could be the name of a model: it neither begins nor ends with white space.
pub open spec fn name(s: Seq<char>) -> bool {
    s.len() > 0 ==> !text_laws::space_code(s[0] as int) && !text_laws::space_code(s.last() as int)
}

/// Whether a line that begins with that word lists a model of that id: the word begins no
/// announcement, is not the one that stands for no choice, and is made of the characters of an
/// id.
pub open spec fn lists(first: Seq<char>) -> bool {
    &&& !"Fetching"@.is_prefix_of(first)
    &&& !"Available"@.is_prefix_of(first)
    &&& !"Listing"@.is_prefix_of(first)
    &&& first != "default"@
    &&& forall|i: int| 0 <= i < first.len() ==> id_code(#[trigger] first[i] as int)
}

/// Whether a text is a single line.
pub open spec fn one_line(s: Seq<char>) -> bool {
    forall|i: int| 0 <= i < s.len() ==> #[trigger] s[i] as int != 10
}

/// A text that begins with a word has a prefix without white space exactly where the word has it.
proof fn lemma_prefix_of_first_word(first: Seq<char>, rest: Seq<char>, prefix: Seq<char>)
    requires
        rest.len() > 0 ==> text::white_space(rest[0]),
        forall|i: int| 0 <= i < prefix.len() ==> !text::white_space(#[trigger] prefix[i]),
    ensures
        text::has_prefix(first + rest, prefix) <==> prefix.is_prefix_of(first),
{
    let s = first + rest;
    let n = prefix.len() as int;
    if text::has_prefix(s, prefix) {
        assert forall|i: int| 0 <= i < n implies s[i] == prefix[i] by {
            assert(s.take(n)[i] == prefix[i]);
        }
        if n > first.len() {
            assert(s[first.len() as int] == rest[0]);
            assert(!text::white_space(prefix[first.len() as int]));
        }
        assert(prefix =~= first.subrange(0, n));
    }
    if prefix.is_prefix_of(first) {
        assert(s.take(n) =~= first.subrange(0, n));
    }
}

proof fn lemma_banner_words()
    ensures
        forall|i: int| 0 <= i < "Fetching"@.len() ==> !text::white_space(#[trigger] "Fetching"@[i]),
        forall|i: int|
            0 <= i < "Available"@.len() ==> !text::white_space(#[trigger] "Available"@[i]),
        forall|i: int| 0 <= i < "Listing"@.len() ==> !text::white_space(#[trigger] "Listing"@[i]),
{
    reveal_strlit("Fetching");
    reveal_strlit("Available");
    reveal_strlit("Listing");
}

/// The catalog of a single line is the model that the line lists, if it lists one.
proof fn lemma_single_line(line: Seq<char>)
    requires
        one_line(line),
    ensures
        models::catalog(line) == match models::line_model(line) {
            Some(model) => seq![model],
            None => Seq::empty(),
        },
{
    assert forall|i: int| 0 <= i < line.len() implies #[trigger] line[i] != '\n' by {
        assert(line[i] as int != 10);
    }
    models::lemma_line_end(line, line.len() as int);
    let all = models::lines(line);
    assert(all == seq![line]);
    assert(all.drop_first() =~= Seq::empty());
    assert(models::line_models(all.drop_first()) =~= Seq::empty());
    assert(models::catalog(line) =~= match models::line_model(line) {
        Some(model) => seq![model],
        None => Seq::empty(),
    });
}

/// A line whose first word can be the id of a model lists the model of that id, under the name
/// that the rest of the line gives it; a line with another first word lists nothing. The white
/// space around the two does not count.
pub proof fn law_first_words_are_ids(
    lead: Seq<char>,
    first: Seq<char>,
    gap: Seq<char>,
    label: Seq<char>,
    trail: Seq<char>,
)
    requires
        spaces(lead),
        word(first),
        spaces(gap),
        name(label),
        label.len() > 0 ==> gap.len() > 0,
        spaces(trail),
        one_line(lead + first + gap + label + trail),
    ensures
        lists(first) ==> models::catalog(lead + first + gap + label + trail) == seq![
            ModelView {
                id: first,
                display_name: if label.len() > 0 {
                    Some(label)
                } else {
                    None
                },
            },
        ],
        !lists(first) ==> models::catalog(lead + first + gap + label + trail).len() == 0,
{
    let line = lead + first + gap + label + trail;
    let rest = if label.len() > 0 {
        gap + label
    } else {
        Seq::empty()
    };
    let core = first + rest;
    let after = if label.len() > 0 {
        trail
    } else {
        gap + trail
    };
    assert(line =~= lead + core + after);
    assert(!text_laws::space_code(first[0] as int));
    assert(!text_laws::space_code(first[first.len() - 1] as int));
    if label.len() > 0 {
        assert(core.last() == label.last());
        assert(text_laws::space_code(gap[0] as int));
        assert(rest[0] == gap[0]);
    } else {
        assert(core =~= first);
        assert forall|i: int| 0 <= i < after.len() implies text_laws::space_code(
            #[trigger] after[i] as int,
        ) by {
            if i < gap.len() {
                assert(after[i] == gap[i]);
            } else {
                assert(after[i] == trail[i - gap.len()]);
            }
        }
    }
    text_laws::law_trimming_leaves_the_core(lead, core, after);
    let n = first.len() as int;
    assert forall|i: int| 0 <= i < n implies !text::white_space(#[trigger] core[i]) by {
        assert(core[i] == first[i]);
        assert(!text_laws::space_code(first[i] as int));
    }
    if n < core.len() {
        assert(core[n] == rest[0]);
    }
    models::lemma_word_end(core, n);
    assert(core.take(n) =~= first);
    lemma_banner_words();
    lemma_prefix_of_first_word(first, rest, "Fetching"@);
    lemma_prefix_of_first_word(first, rest, "Available"@);
    lemma_prefix_of_first_word(first, rest, "Listing"@);
    if label.len() > 0 {
        let skipped = gap.drop_first();
        assert(core.skip(n + 1) =~= skipped + label + Seq::<char>::empty());
        assert forall|i: int| 0 <= i < skipped.len() implies text_laws::space_code(
            #[trigger] skipped[i] as int,
        ) by {
            assert(skipped[i] == gap[i + 1]);
        }
        text_laws::law_trimming_leaves_the_core(skipped, label, Seq::empty());
    }
    if forall|i: int| 0 <= i < first.len() ==> id_code(#[trigger] first[i] as int) {
        assert forall|i: int| 0 <= i < first.len() implies models::id_char(#[trigger] first[i]) by {
            assert(id_code(first[i] as int));
        }
    } else {
        let i = choose|i: int| 0 <= i < first.len() && !id_code(#[trigger] first[i] as int);
        assert(!models::id_char(first[i]));
    }
    lemma_single_line(line);
}

/// A line of white space lists nothing.
pub proof fn law_empty_lines_list_nothing(line: Seq<char>)
    requires
        spaces(line),
    ensures
        models::catalog(line).len() == 0,
    decreases line.len(),
{
    if one_line(line) {
        assert(line =~= line + Seq::<char>::empty() + Seq::<char>::empty());
        text_laws::law_trimming_leaves_the_core(line, Seq::empty(), Seq::empty());
        lemma_single_line(line);
    } else {
        let i = choose|i: int| 0 <= i < line.len() && #[trigger] line[i] as int == 10;
        let above = line.take(i);
        let below = line.skip(i + 1);
        assert(line =~= above + seq!['\n'] + below);
        assert forall|k: int| 0 <= k < above.len() implies text_laws::space_code(
            #[trigger] above[k] as int,
        ) by {
            assert(above[k] == line[k]);
        }
        assert forall|k: int| 0 <= k < below.len() implies text_laws::space_code(
            #[trigger] below[k] as int,
        ) by {
            assert(below[k] == line[k + i + 1]);
        }
        laws::law_catalogs_add_up(above, below);
        law_empty_lines_list_nothing(above);
        law_empty_lines_list_nothing(below);
    }
}

/// The catalog is complete: wherever in a text a line lists a model, the catalog of the text has
/// that model, between those that stand above the line and those that stand below it.
pub proof fn law_every_listed_model_is_offered(
    above: Seq<char>,
    lead: Seq<char>,
    first: Seq<char>,
    gap: Seq<char>,
    label: Seq<char>,
    trail: Seq<char>,
    below: Seq<char>,
)
    requires
        spaces(lead),
        word(first),
        lists(first),
        spaces(gap),
        name(label),
        label.len() > 0 ==> gap.len() > 0,
        spaces(trail),
        one_line(lead + first + gap + label + trail),
    ensures
        models::catalog(
            above + seq!['\n'] + (lead + first + gap + label + trail) + seq!['\n'] + below,
        ) == models::catalog(above).push(
            ModelView {
                id: first,
                display_name: if label.len() > 0 {
                    Some(label)
                } else {
                    None
                },
            },
        ) + models::catalog(below),
{
    let line = lead + first + gap + label + trail;
    law_first_words_are_ids(lead, first, gap, label, trail);
    laws::law_catalogs_add_up(above, line);
    laws::law_catalogs_add_up(above + seq!['\n'] + line, below);
    assert(models::catalog(above) + models::catalog(line) =~= models::catalog(above).push(
        models::catalog(line)[0],
    ));
}

/// Asking for the catalog gives the models that were listed; where the command failed or listed
/// none, it gives a reason, and what the command complained of stands in it.
pub proof fn law_catalogs_are_given_or_missed(success: bool, stdout: Seq<char>, stderr: Seq<char>)
    ensures
        success && models::catalog(stdout).len() > 0 ==> models::catalog_outcome(
            success,
            stdout,
            stderr,
        ) == Ok::<Seq<ModelView>, Seq<char>>(models::catalog(stdout)),
        success && models::catalog(stdout).len() == 0 ==> models::catalog_outcome(
            success,
            stdout,
            stderr,
        ) == Err::<Seq<ModelView>, Seq<char>>(
            "Antigravity returned no available models. Re-check your account."@,
        ),
        !success ==> models::catalog_outcome(success, stdout, stderr) == Err::<
            Seq<ModelView>,
            Seq<char>,
        >("Antigravity model discovery failed: "@ + text::trim(stderr)),
{
}

/// A model is its id and its name, a list of models is shown model by model, and so is an outcome.
pub proof fn law_models_are_shown(
    model: ModelInfo,
    list: Seq<ModelInfo>,
    outcome: Result<Vec<ModelInfo>, String>,
)
    ensures
        model.view().id == model.id@,
        model.display_name is None ==> model.view().display_name is None,
        model.display_name matches Some(shown) ==> model.view().display_name == Some(shown@),
        models::models_view(list).len() == list.len(),
        forall|i: int|
            0 <= i < list.len() ==> #[trigger] models::models_view(list)[i] == list[i].view(),
        outcome matches Ok(found) ==> models::outcome_view(outcome) == Ok::<
            Seq<ModelView>,
            Seq<char>,
        >(models::models_view(found@)),
        outcome matches Err(reason) ==> models::outcome_view(outcome) == Err::<
            Seq<ModelView>,
            Seq<char>,
        >(reason@),
{
}

} // verus!
