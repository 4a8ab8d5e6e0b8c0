//! What a user may choose for a turn.
use vstd::prelude::*;

use crate::text;

verus! {

/// The id that stands for the agent's own default where the user makes no choice.
pub const REASONING_DEFAULT_ID: &'static str = "default";

/// How freely the agent may act without asking.
#[derive(Clone, Copy, Debug, PartialEq, Eq, Structural)]
pub enum PermissionMode {
    Ask,
    AcceptEdits,
    Bypass,
}

/// How a turn that only plans is asked for.
#[derive(Clone, Copy, Debug, PartialEq, Eq, Structural)]
pub enum PlanActivation {
    Command,
}

/// One choice among several.
pub struct OptionChoice {
    pub id: &'static str,
    pub label: &'static str,
    pub description: &'static str,
}

/// What an [`OptionChoice`] is.
pub struct ChoiceView {
    pub id: Seq<char>,
    pub label: Seq<char>,
    pub description: Seq<char>,
}

/// The choices that a harness offers.
pub struct HarnessOptions {
    pub permission_choices: Vec<OptionChoice>,
    pub default_permission: Option<&'static str>,
    pub plan_activation: Option<PlanActivation>,
    pub reasoning_levels: Vec<&'static str>,
}

/// What a [`HarnessOptions`] is.
pub struct OptionsView {
    pub permission_choices: Seq<ChoiceView>,
    pub default_permission: Option<Seq<char>>,
    pub plan_activation: Option<PlanActivation>,
    pub reasoning_levels: Seq<Seq<char>>,
}

impl OptionChoice {
    /// What the choice is.
    pub open spec fn view(&self) -> ChoiceView {
        ChoiceView { id: self.id@, label: self.label@, description: self.description@ }
    }

    /// A choice with a description.
    pub fn described(
        id: &'static str,
        label: &'static str,
        description: &'static str,
    ) -> (r: OptionChoice)
        ensures
            r.view() == (ChoiceView { id: id@, label: label@, description: description@ }),
    {
        OptionChoice { id, label, description }
    }
}

/// The views of a list of choices.
pub open spec fn choices_view(choices: Seq<OptionChoice>) -> Seq<ChoiceView> {
    choices.map_values(|c: OptionChoice| c.view())
}

impl HarnessOptions {
    /// What the options are.
    pub open spec fn view(&self) -> OptionsView {
        OptionsView {
            permission_choices: choices_view(self.permission_choices@),
            default_permission: text::opt_str(self.default_permission),
            plan_activation: self.plan_activation,
            reasoning_levels: text::str_views(self.reasoning_levels@),
        }
    }

    /// No choice at all.
    pub fn none() -> (r: HarnessOptions)
        ensures
            r.view() == (OptionsView {
                permission_choices: Seq::empty(),
                default_permission: None,
                plan_activation: None,
                reasoning_levels: Seq::empty(),
            }),
    {
        let r = HarnessOptions {
            permission_choices: Vec::new(),
            default_permission: None,
            plan_activation: None,
            reasoning_levels: Vec::new(),
        };
        assert(r.view().permission_choices =~= Seq::empty());
        assert(r.view().reasoning_levels =~= Seq::empty());
        r
    }

    /// The options with these permission choices.
    pub fn with_permission_choices(
        self,
        choices: Vec<OptionChoice>,
        default: &'static str,
        plan: PlanActivation,
    ) -> (r: HarnessOptions)
        ensures
            r.view() == (OptionsView {
                permission_choices: choices_view(choices@),
                default_permission: Some(default@),
                plan_activation: Some(plan),
                ..self.view()
            }),
    {
        HarnessOptions {
            permission_choices: choices,
            default_permission: Some(default),
            plan_activation: Some(plan),
            reasoning_levels: self.reasoning_levels,
        }
    }

    /// The options with these reasoning levels.
    pub fn with_reasoning_levels(self, levels: Vec<&'static str>) -> (r: HarnessOptions)
        ensures
            r.view() == (OptionsView {
                reasoning_levels: text::str_views(levels@),
                ..self.view()
            }),
    {
        HarnessOptions {
            permission_choices: self.permission_choices,
            default_permission: self.default_permission,
            plan_activation: self.plan_activation,
            reasoning_levels: levels,
        }
    }
}

/// The level that is asked for, where it is one of those that are known.
pub open spec fn resolved_reasoning(level: Option<Seq<char>>, known: Seq<Seq<char>>) -> Option<
    Seq<char>,
> {
    match level {
        Some(l) => if known.contains(l) {
            Some(l)
        } else {
            None
        },
        None => None,
    }
}

/// The level that is asked for, where it is one of those that are known.
pub fn resolve_reasoning<'a>(level: Option<&'a str>, known: &Vec<&'static str>) -> (r: Option<
    &'a str,
>)
    ensures
        text::opt_str(r) == resolved_reasoning(text::opt_str(level), text::str_views(known@)),
{
    let wanted = match level {
        Some(l) => l,
        None => {
            return None;
        },
    };
    let ghost views = text::str_views(known@);
    let mut i: usize = 0;
    while i < known.len()
        invariant
            i <= known.len(),
            level == Some(wanted),
            views == text::str_views(known@),
            forall|k: int| 0 <= k < i ==> #[trigger] views[k] != wanted@,
        decreases known.len() - i,
    {
        assert(views[i as int] == known@[i as int]@);
        if text::same_text(known[i], wanted) {
            return Some(wanted);
        }
        i += 1;
    }
    None
}

} // verus!
