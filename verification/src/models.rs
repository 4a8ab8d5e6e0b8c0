//! The model catalog that `agy models` prints.
use vstd::prelude::*;
use vstd::string::*;

use crate::options::REASONING_DEFAULT_ID;
use crate::text;

verus! {

/// A model that the agent offers.
pub struct ModelInfo {
    pub id: String,
    pub display_name: Option<String>,
}

/// What a [`ModelInfo`] is.
pub struct ModelView {
    pub id: Seq<char>,
    pub display_name: Option<Seq<char>>,
}

impl ModelInfo {
    /// What the model is.
    pub open spec fn view(&self) -> ModelView {
        ModelView { id: self.id@, display_name: text::opt_text(self.display_name) }
    }
}

/// The views of a list of models.
pub open spec fn models_view(models: Seq<ModelInfo>) -> Seq<ModelView> {
    models.map_values(|m: ModelInfo| m.view())
}

/// How many characters of a text stand before its first line feed.
pub open spec fn line_end(s: Seq<char>) -> nat
    decreases s.len(),
{
    if s.len() == 0 || s[0] == '\n' {
        0
    } else {
        1 + line_end(s.drop_first())
    }
}

/// What stands between the line feeds of a text.
pub open spec fn lines(s: Seq<char>) -> Seq<Seq<char>>
    decreases s.len(),
{
    if line_end(s) >= s.len() {
        seq![s]
    } else {
        seq![s.take(line_end(s) as int)] + lines(s.skip((line_end(s) + 1) as int))
    }
}

/// How many characters of a text stand before its first white space.
pub open spec fn word_end(s: Seq<char>) -> nat
    decreases s.len(),
{
    if s.len() == 0 || text::white_space(s[0]) {
        0
    } else {
        1 + word_end(s.drop_first())
    }
}

/// Whether a line announces the catalog instead of listing a model.
pub open spec fn banner(line: Seq<char>) -> bool {
    ||| text::has_prefix(line, "Fetching"@)
    ||| text::has_prefix(line, "Available"@)
    ||| text::has_prefix(line, "Listing"@)
}

/// Whether a character may stand in the id of a model.
pub open spec fn id_char(c: char) -> bool {
    ||| '0' <= c <= '9'
    ||| 'A' <= c <= 'Z'
    ||| 'a' <= c <= 'z'
    ||| c == '-'
    ||| c == '_'
    ||| c == '.'
    ||| c == '['
    ||| c == ']'
    ||| c == '='
    ||| c == ','
}

/// Whether a text may be the id of a model.
pub open spec fn model_id(id: Seq<char>) -> bool {
    &&& id.len() > 0
    &&& id != REASONING_DEFAULT_ID@
    &&& forall|i: int| 0 <= i < id.len() ==> id_char(#[trigger] id[i])
}

/// The model that a line lists: its first word is the id, the rest is the name to show.
pub open spec fn line_model(line: Seq<char>) -> Option<ModelView> {
    let content = text::trim(line);
    let id = content.take(word_end(content) as int);
    let label = if word_end(content) < content.len() {
        text::trim(content.skip((word_end(content) + 1) as int))
    } else {
        Seq::empty()
    };
    if !banner(content) && model_id(id) {
        Some(
            ModelView {
                id,
                display_name: if label.len() == 0 {
                    None
                } else {
                    Some(label)
                },
            },
        )
    } else {
        None
    }
}

/// The models that some lines list, in order.
pub open spec fn line_models(lines: Seq<Seq<char>>) -> Seq<ModelView>
    decreases lines.len(),
{
    if lines.len() == 0 {
        Seq::empty()
    } else {
        let rest = line_models(lines.drop_first());
        match line_model(lines[0]) {
            Some(model) => seq![model] + rest,
            None => rest,
        }
    }
}

/// The models that a text lists.
pub open spec fn catalog(text: Seq<char>) -> Seq<ModelView> {
    line_models(lines(text))
}

/// Where the first line of a text ends.
pub proof fn lemma_line_end(s: Seq<char>, end: int)
    requires
        0 <= end <= s.len(),
        forall|i: int| 0 <= i < end ==> #[trigger] s[i] != '\n',
        end < s.len() ==> s[end] == '\n',
    ensures
        line_end(s) == end,
    decreases s.len(),
{
    if end > 0 {
        let rest = s.drop_first();
        assert(s[0] != '\n');
        assert forall|i: int| 0 <= i < end - 1 implies #[trigger] rest[i] != '\n' by {
            assert(rest[i] == s[i + 1]);
        }
        lemma_line_end(rest, end - 1);
    }
}

/// Where the first word of a text ends.
pub proof fn lemma_word_end(s: Seq<char>, end: int)
    requires
        0 <= end <= s.len(),
        forall|i: int| 0 <= i < end ==> !text::white_space(#[trigger] s[i]),
        end < s.len() ==> text::white_space(s[end]),
    ensures
        word_end(s) == end,
    decreases s.len(),
{
    if end > 0 {
        let rest = s.drop_first();
        assert(!text::white_space(s[0]));
        assert forall|i: int| 0 <= i < end - 1 implies !text::white_space(#[trigger] rest[i]) by {
            assert(rest[i] == s[i + 1]);
        }
        lemma_word_end(rest, end - 1);
    }
}

/// Whether a character may stand in the id of a model.
fn is_id_char(c: char) -> (r: bool)
    ensures
        r == id_char(c),
{
    ('0' <= c && c <= '9') || ('A' <= c && c <= 'Z') || ('a' <= c && c <= 'z') || c == '-' || c
        == '_' || c == '.' || c == '[' || c == ']' || c == '=' || c == ','
}

/// Whether a text may be the id of a model.
fn is_model_id(id: &str) -> (r: bool)
    ensures
        r == model_id(id@),
{
    if id.is_empty() || text::same_text(id, REASONING_DEFAULT_ID) {
        return false;
    }
    let chars = text::chars_of(id);
    let mut i: usize = 0;
    while i < chars.len()
        invariant
            i <= chars.len(),
            chars@ == id@,
            forall|k: int| 0 <= k < i ==> id_char(#[trigger] id@[k]),
        decreases chars.len() - i,
    {
        if !is_id_char(chars[i]) {
            assert(!id_char(id@[i as int]));
            return false;
        }
        i += 1;
    }
    true
}

/// The view of an optional model.
pub open spec fn opt_model(model: Option<ModelInfo>) -> Option<ModelView> {
    match model {
        Some(m) => Some(m.view()),
        None => None,
    }
}

/// The model that a line lists.
fn parse_model_line(line: &str) -> (r: Option<ModelInfo>)
    ensures
        opt_model(r) == line_model(line@),
{
    let content = text::trimmed(line);
    if text::begins_with(content, "Fetching") || text::begins_with(content, "Available")
        || text::begins_with(content, "Listing") {
        return None;
    }
    let chars = text::chars_of(content);
    let mut end: usize = 0;
    while end < chars.len() && !text::is_white_space(chars[end])
        invariant
            end <= chars.len(),
            chars@ == content@,
            forall|k: int| 0 <= k < end ==> !text::white_space(#[trigger] content@[k]),
        decreases chars.len() - end,
    {
        end += 1;
    }
    proof {
        lemma_word_end(content@, end as int);
        assert(content@.subrange(0, end as int) =~= content@.take(end as int));
    }
    let id = content.substring_char(0, end);
    if !is_model_id(id) {
        return None;
    }
    let mut display_name: Option<String> = None;
    if end < chars.len() {
        proof {
            assert(content@.subrange(end + 1, content@.len() as int) =~= content@.skip(end + 1));
        }
        let label = text::trimmed(content.substring_char(end + 1, chars.len()));
        if !label.is_empty() {
            display_name = Some(label.to_owned());
        }
    }
    Some(ModelInfo { id: id.to_owned(), display_name })
}

/// The models that a text lists, line by line; blank lines and announcements are passed over. A
/// carriage return before a line feed is white space at the end of its line.
pub fn parse_agy_model_list(text: &str) -> (r: Vec<ModelInfo>)
    ensures
        models_view(r@) == catalog(text@),
{
    let chars = text::chars_of(text);
    let mut models: Vec<ModelInfo> = Vec::new();
    let mut start: usize = 0;
    assert(text@.skip(0) == text@);
    assert(models_view(models@) + catalog(text@) =~= catalog(text@));
    loop
        invariant
            start <= chars.len(),
            chars@ == text@,
            catalog(text@) == models_view(models@) + catalog(text@.skip(start as int)),
        decreases chars.len() - start,
    {
        let mut end: usize = start;
        while end < chars.len() && chars[end] != '\n'
            invariant
                start <= end <= chars.len(),
                forall|k: int| start <= k < end ==> #[trigger] chars@[k] != '\n',
            decreases chars.len() - end,
        {
            end += 1;
        }
        let ghost rest = text@.skip(start as int);
        proof {
            assert forall|i: int| 0 <= i < end - start implies #[trigger] rest[i] != '\n' by {
                assert(rest[i] == chars@[i + start]);
            }
            lemma_line_end(rest, end - start);
            assert(text@.subrange(start as int, end as int) =~= rest.take(end - start));
        }
        let line = text.substring_char(start, end);
        let ghost before = models_view(models@);
        let ghost found = line_model(line@);
        if let Some(model) = parse_model_line(line) {
            models.push(model);
            assert(models_view(models@) =~= before.push(found->0));
        }
        if end == chars.len() {
            proof {
                assert(rest =~= line@);
                assert(lines(rest) == seq![line@]);
                assert(lines(rest).drop_first() =~= Seq::empty());
                assert(line_models(lines(rest).drop_first()) =~= Seq::empty());
                assert(models_view(models@) =~= before + catalog(rest));
            }
            return models;
        }
        proof {
            let tail = rest.skip(end - start + 1);
            assert(lines(rest).drop_first() =~= lines(tail));
            assert(lines(rest)[0] == line@);
            assert(tail =~= text@.skip(end + 1));
            assert(models_view(models@) + catalog(tail) =~= before + catalog(rest));
        }
        start = end + 1;
    }
}

/// What asking for the catalog came to: the models, or what to tell the user.
pub open spec fn catalog_outcome(success: bool, stdout: Seq<char>, stderr: Seq<char>) -> Result<
    Seq<ModelView>,
    Seq<char>,
> {
    if !success {
        Err("Antigravity model discovery failed: "@ + text::trim(stderr))
    } else if catalog(stdout).len() == 0 {
        Err("Antigravity returned no available models. Re-check your account."@)
    } else {
        Ok(catalog(stdout))
    }
}

/// The view of an outcome.
pub open spec fn outcome_view(outcome: Result<Vec<ModelInfo>, String>) -> Result<
    Seq<ModelView>,
    Seq<char>,
> {
    match outcome {
        Ok(models) => Ok(models_view(models@)),
        Err(message) => Err(message@),
    }
}

/// What asking for the catalog came to, from how the command ended and what it wrote.
pub fn agy_models_outcome(success: bool, stdout: &str, stderr: &str) -> (r: Result<
    Vec<ModelInfo>,
    String,
>)
    ensures
        outcome_view(r) == catalog_outcome(success, stdout@, stderr@),
{
    if !success {
        let mut message = "Antigravity model discovery failed: ".to_owned();
        message.append(text::trimmed(stderr));
        return Err(message);
    }
    let models = parse_agy_model_list(stdout);
    assert(models_view(models@).len() == models@.len());
    if models.len() == 0 {
        return Err("Antigravity returned no available models. Re-check your account.".to_owned());
    }
    Ok(models)
}

/// What asking for the catalog came to, from how the command ended and the bytes that it wrote.
pub fn agy_model_list(success: bool, stdout: &[u8], stderr: &[u8]) -> (r: Result<
    Vec<ModelInfo>,
    String,
>)
    ensures
        outcome_view(r) == catalog_outcome(
            success,
            text::lossy(stdout@),
            text::lossy(stderr@),
        ),
{
    agy_models_outcome(
        success,
        text::lossy_text(stdout).as_str(),
        text::lossy_text(stderr).as_str(),
    )
}

} // verus!
