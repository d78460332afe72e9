//! Image generation: where the prompt comes from, and the form in which it
//! reaches the diffusion model.

use vstd::prelude::*;
use vstd::string::StringExecFns;
use crate::preset::{Loader, Precision, PresetConfig, PresetConfigView};
use crate::promp_enhancer::MAX_PROMPT_WORDS;
use crate::text::{truncate_to_words, truncated, words};

verus! {

/// The diffusion model that renders the images.
pub const DEFAULT_MODEL: &'static str = "black-forest-labs/FLUX.1-schnell";

/// The prompt that is rendered when the caller gives neither a prompt nor a
/// seed.
pub const DEFAULT_PROMPT: &'static str =
    "A majestic castle on a cliff overlooking the sea at sunset, highly detailed, digital painting, trending on artstation, in the style of Raden Saleh";

/// Where the prompt of one image comes from.
#[derive(Debug, PartialEq, Eq)]
pub enum PromptPlan {
    /// The caller's prompt, used as it is.
    Direct(String),
    /// The caller's seed, to be enhanced first.
    Enhance(String),
    /// [`DEFAULT_PROMPT`].
    BuiltIn,
}

/// Mathematical value of a [`PromptPlan`].
pub enum PromptPlanView {
    Direct(Seq<char>),
    Enhance(Seq<char>),
    BuiltIn,
}

impl View for PromptPlan {
    type V = PromptPlanView;

    open spec fn view(&self) -> PromptPlanView {
        match self {
            PromptPlan::Direct(p) => PromptPlanView::Direct(p@),
            PromptPlan::Enhance(s) => PromptPlanView::Enhance(s@),
            PromptPlan::BuiltIn => PromptPlanView::BuiltIn,
        }
    }
}

/// A prompt is used directly, also when a seed is given beside it; a seed
/// alone is enhanced; with neither the built-in prompt is used.
pub open spec fn spec_plan_prompt(
    prompt: Option<Seq<char>>,
    seed: Option<Seq<char>>,
) -> PromptPlanView {
    match (prompt, seed) {
        (Some(p), _) => PromptPlanView::Direct(p),
        (None, Some(s)) => PromptPlanView::Enhance(s),
        (None, None) => PromptPlanView::BuiltIn,
    }
}

/// The configuration of the diffusion model.
pub open spec fn spec_diffusion_config() -> PresetConfigView {
    PresetConfigView {
        model_id: DEFAULT_MODEL@,
        loader: Loader::DiffusionOffloaded,
        precision: Precision::BF16,
        quantization: None,
    }
}

/// Decides where the prompt of one image comes from.
pub fn plan_prompt(prompt: Option<String>, seed: Option<String>) -> (r: PromptPlan)
    ensures
        r@ == spec_plan_prompt(
            match prompt {
                Some(p) => Some(p@),
                None => None,
            },
            match seed {
                Some(s) => Some(s@),
                None => None,
            },
        ),
{
    match prompt {
        Some(p) => PromptPlan::Direct(p),
        None => match seed {
            Some(s) => PromptPlan::Enhance(s),
            None => PromptPlan::BuiltIn,
        },
    }
}

/// The prompt as it is handed to the diffusion model: held to
/// [`MAX_PROMPT_WORDS`] words, so that it fits the model's token window.
pub fn diffusion_prompt(prompt: &str) -> (r: String)
    ensures
        r@ == truncated(prompt@, MAX_PROMPT_WORDS as nat),
        words(r@).len() <= MAX_PROMPT_WORDS,
{
    truncate_to_words(prompt, MAX_PROMPT_WORDS)
}

/// The configuration with which the diffusion model is loaded.
pub fn diffusion_config() -> (r: PresetConfig)
    ensures
        r@ == spec_diffusion_config(),
{
    PresetConfig {
        model_id: String::from_str(DEFAULT_MODEL),
        loader: Loader::DiffusionOffloaded,
        precision: Precision::BF16,
        quantization: None,
    }
}

} // verus!
