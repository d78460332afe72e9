//! Prompt enhancement: turning a short seed into a richer image prompt that
//! stays within a fixed word budget.

use vstd::prelude::*;
use vstd::string::StringExecFns;
use vstd::string::StrSliceExecFns;
use crate::conversation::TurnView;
use crate::preset::{
    make_label, preset_label, Loader, Precision, PresetConfig, PresetConfigView, Quantization,
};
use crate::request::{assemble, assembled_messages, GenerationRequest, SamplerConfig};
use crate::text::{
    lemma_trimmed_has_word, lemma_trimmed_len, lemma_truncated_nonempty, lemma_truncated_words,
    trim, trimmed, truncate_to_words, truncated, words,
};

verus! {

/// Available prompt-enhancer model presets.
#[derive(Clone, Copy, Debug, PartialEq, Eq, Structural)]
pub enum EnhancerModel {
    /// Gemma 3n E2B: smallest, meant for on-device use.
    GemmaE2b,
    /// Gemma 3n E4B: balanced quality and size for a desktop.
    GemmaE4b,
    /// Phi-3.5-mini: strongest quality, larger memory footprint.
    Phi35Mini,
}

impl Default for EnhancerModel {
    fn default() -> (r: Self)
        ensures
            r == EnhancerModel::GemmaE4b,
    {
        EnhancerModel::GemmaE4b
    }
}

impl EnhancerModel {
    /// The identifier of each preset's weights.
    pub open spec fn spec_model_id(self) -> Seq<char> {
        match self {
            EnhancerModel::GemmaE2b => "google/gemma-3n-E2B-it"@,
            EnhancerModel::GemmaE4b => "google/gemma-3n-E4B-it"@,
            EnhancerModel::Phi35Mini => "microsoft/Phi-3.5-mini-instruct"@,
        }
    }

    /// The human-readable name of each preset.
    pub open spec fn spec_display_name(self) -> Seq<char> {
        match self {
            EnhancerModel::GemmaE2b => "Gemma 3n E2B"@,
            EnhancerModel::GemmaE4b => "Gemma 3n E4B"@,
            EnhancerModel::Phi35Mini => "Phi-3.5-mini"@,
        }
    }

    /// The memory estimate shown for each preset.
    pub open spec fn spec_approx_memory(self) -> Seq<char> {
        match self {
            EnhancerModel::GemmaE2b => "~1.5 GB (Q4K)"@,
            EnhancerModel::GemmaE4b => "~8 GB (F16)"@,
            EnhancerModel::Phi35Mini => "~2.8 GB (Q4K)"@,
        }
    }

    /// The configuration each preset stands for. All three load as text
    /// models; the small and the large one are quantized to fit beside an
    /// image model, the middle one runs in half precision.
    pub open spec fn config(self) -> PresetConfigView {
        match self {
            EnhancerModel::GemmaE2b => PresetConfigView {
                model_id: self.spec_model_id(),
                loader: Loader::Text,
                precision: Precision::Auto,
                quantization: Some(Quantization::Q4K),
            },
            EnhancerModel::GemmaE4b => PresetConfigView {
                model_id: self.spec_model_id(),
                loader: Loader::Text,
                precision: Precision::F16,
                quantization: None,
            },
            EnhancerModel::Phi35Mini => PresetConfigView {
                model_id: self.spec_model_id(),
                loader: Loader::Text,
                precision: Precision::Auto,
                quantization: Some(Quantization::Q4K),
            },
        }
    }

    /// Model identifier of the weights.
    pub fn model_id(self) -> (r: &'static str)
        ensures
            r@ == self.spec_model_id(),
    {
        match self {
            EnhancerModel::GemmaE2b => "google/gemma-3n-E2B-it",
            EnhancerModel::GemmaE4b => "google/gemma-3n-E4B-it",
            EnhancerModel::Phi35Mini => "microsoft/Phi-3.5-mini-instruct",
        }
    }

    /// Human-readable label used in messages.
    pub fn display_name(self) -> (r: &'static str)
        ensures
            r@ == self.spec_display_name(),
    {
        match self {
            EnhancerModel::GemmaE2b => "Gemma 3n E2B",
            EnhancerModel::GemmaE4b => "Gemma 3n E4B",
            EnhancerModel::Phi35Mini => "Phi-3.5-mini",
        }
    }

    /// Approximate memory footprint with the preset's loading strategy.
    pub fn approx_memory(self) -> (r: &'static str)
        ensures
            r@ == self.spec_approx_memory(),
    {
        match self {
            EnhancerModel::GemmaE2b => "~1.5 GB (Q4K)",
            EnhancerModel::GemmaE4b => "~8 GB (F16)",
            EnhancerModel::Phi35Mini => "~2.8 GB (Q4K)",
        }
    }

    /// Resolves the preset to the configuration its model is loaded with.
    /// The result depends on the preset alone.
    pub fn resolve(self) -> (r: PresetConfig)
        ensures
            r@ == self.config(),
    {
        let model_id = String::from_str(self.model_id());
        match self {
            EnhancerModel::GemmaE2b => PresetConfig {
                model_id,
                loader: Loader::Text,
                precision: Precision::Auto,
                quantization: Some(Quantization::Q4K),
            },
            EnhancerModel::GemmaE4b => PresetConfig {
                model_id,
                loader: Loader::Text,
                precision: Precision::F16,
                quantization: None,
            },
            EnhancerModel::Phi35Mini => PresetConfig {
                model_id,
                loader: Loader::Text,
                precision: Precision::Auto,
                quantization: Some(Quantization::Q4K),
            },
        }
    }

    /// The preset as it is announced: display name, then the model
    /// identifier in parentheses.
    pub fn label(self) -> (r: String)
        ensures
            r@ == preset_label(self.spec_display_name(), self.spec_model_id()),
    {
        make_label(self.display_name(), self.model_id())
    }
}

/// The instruction under which a seed is expanded.
pub const SYSTEM_PROMPT: &'static str =
    "You are a prompt enhancer for image generation models. Given a short description, expand it into a vivid image generation prompt. Keep artistic style references if provided. Add lighting, composition, and atmosphere details. The result MUST be under 50 words. Output ONLY the enhanced prompt, no explanation, no quotes.";

/// The seed that is enhanced when the caller names none.
pub const DEFAULT_SEED: &'static str =
    "Detective Conan Main Theme, in the style of Raden Saleh, trending on artstation, highly detailed";

/// Most words an enhanced prompt may hold, so that it fits the token window
/// of the image model that consumes it.
pub const MAX_PROMPT_WORDS: usize = 50;

/// A reply counts as an expansion of the seed only when it is more than
/// this many characters longer than the seed.
pub const ECHO_SLACK: usize = 4;

/// Most tokens the model may generate for one enhancement.
pub const MAX_OUTPUT_TOKENS: usize = 80;

/// The text of a model reply, if it carried any.
pub open spec fn content_view(content: Option<String>) -> Option<Seq<char>> {
    match content {
        Some(c) => Some(c@),
        None => None,
    }
}

/// What the model is taken to have said: its text without the surrounding
/// whitespace, and nothing when the reply carried no text.
pub open spec fn reply_text(content: Option<Seq<char>>) -> Seq<char> {
    match content {
        Some(c) => trimmed(c),
        None => Seq::empty(),
    }
}

/// A reply is degenerate when it is not more than [`ECHO_SLACK`] characters
/// longer than the seed: the model echoed the seed or said next to nothing.
pub open spec fn is_degenerate(seed: Seq<char>, reply: Seq<char>) -> bool {
    reply.len() <= seed.len() + ECHO_SLACK
}

/// The prompt that comes out of one enhancement: the reply, or the seed when
/// the reply is degenerate, held to [`MAX_PROMPT_WORDS`] words.
pub open spec fn enhanced_prompt(seed: Seq<char>, content: Option<Seq<char>>) -> Seq<char> {
    let reply = reply_text(content);
    if is_degenerate(seed, reply) {
        truncated(seed, MAX_PROMPT_WORDS as nat)
    } else {
        truncated(reply, MAX_PROMPT_WORDS as nat)
    }
}

/// The seed made from a subject and an optional style: the subject alone, or
/// subject and style separated by a comma and a space.
pub open spec fn spec_song_seed(song_title: Seq<char>, style: Option<Seq<char>>) -> Seq<char> {
    match style {
        Some(s) => song_title + seq![',', ' '] + s,
        None => song_title,
    }
}

/// The sampler settings of an enhancement request.
pub open spec fn spec_enhancement_sampler() -> SamplerConfig {
    SamplerConfig {
        temperature_hundredths: 90,
        top_p_hundredths: Some(95u32),
        max_output_tokens: Some(MAX_OUTPUT_TOKENS),
    }
}

/// An enhanced prompt never has more than [`MAX_PROMPT_WORDS`] words, and
/// it is not empty as long as the seed has a word in it.
pub proof fn lemma_enhanced_prompt_bounds(seed: Seq<char>, content: Option<Seq<char>>)
    ensures
        words(enhanced_prompt(seed, content)).len() <= MAX_PROMPT_WORDS,
        words(seed).len() > 0 ==> enhanced_prompt(seed, content).len() > 0,
{
    let reply = reply_text(content);
    lemma_truncated_words(seed, MAX_PROMPT_WORDS as nat);
    lemma_truncated_words(reply, MAX_PROMPT_WORDS as nat);
    if is_degenerate(seed, reply) {
        if words(seed).len() > 0 {
            lemma_truncated_nonempty(seed, MAX_PROMPT_WORDS as nat);
        }
    } else {
        lemma_trimmed_has_word(content->Some_0);
        lemma_truncated_nonempty(reply, MAX_PROMPT_WORDS as nat);
    }
}

/// A reply that only echoes the seed, or carries no text at all, is
/// degenerate: the result is the seed held to the word budget, and so a
/// seed within the budget comes back as it is.
pub proof fn lemma_echo_falls_back(seed: Seq<char>)
    ensures
        enhanced_prompt(seed, Some(seed)) == truncated(seed, MAX_PROMPT_WORDS as nat),
        enhanced_prompt(seed, None) == truncated(seed, MAX_PROMPT_WORDS as nat),
        words(seed).len() <= MAX_PROMPT_WORDS ==> enhanced_prompt(seed, Some(seed)) == seed,
{
    lemma_trimmed_len(seed);
}

/// The threshold between fallback and expansion lies exactly at
/// [`ECHO_SLACK`] characters over the seed's length.
pub proof fn lemma_degeneracy_threshold(seed: Seq<char>, content: Seq<char>)
    ensures
        trimmed(content).len() <= seed.len() + ECHO_SLACK ==> enhanced_prompt(seed, Some(content))
            == truncated(seed, MAX_PROMPT_WORDS as nat),
        trimmed(content).len() > seed.len() + ECHO_SLACK ==> enhanced_prompt(seed, Some(content))
            == truncated(trimmed(content), MAX_PROMPT_WORDS as nat),
{
}

/// Chooses between the model's reply and the seed, and holds the choice to
/// the word budget. `content` is the text of the reply, if it carried any.
pub fn select_prompt(seed_prompt: &str, content: Option<&str>) -> (r: String)
    ensures
        r@ == enhanced_prompt(
            seed_prompt@,
            match content {
                Some(c) => Some(c@),
                None => None,
            },
        ),
        words(r@).len() <= MAX_PROMPT_WORDS,
        words(seed_prompt@).len() > 0 ==> r@.len() > 0,
{
    proof {
        reveal_strlit("");
        lemma_enhanced_prompt_bounds(
            seed_prompt@,
            match content {
                Some(c) => Some(c@),
                None => None,
            },
        );
    }
    let reply: &str = match content {
        Some(c) => trim(c),
        None => "",
    };
    let reply_len: usize = reply.unicode_len();
    let seed_len: usize = seed_prompt.unicode_len();
    if reply_len <= seed_len || reply_len - seed_len <= ECHO_SLACK {
        truncate_to_words(seed_prompt, MAX_PROMPT_WORDS)
    } else {
        truncate_to_words(reply, MAX_PROMPT_WORDS)
    }
}

/// Composes a seed from a subject and an optional style.
pub fn song_seed(song_title: &str, style: Option<&str>) -> (r: String)
    ensures
        r@ == spec_song_seed(
            song_title@,
            match style {
                Some(s) => Some(s@),
                None => None,
            },
        ),
{
    let mut seed = String::from_str(song_title);
    match style {
        Some(s) => {
            proof {
                reveal_strlit(", ");
                assert(", "@ =~= seq![',', ' ']);
            }
            seed.append(", ");
            seed.append(s);
        },
        None => {},
    }
    seed
}

/// The seed to enhance: the one the caller gave, or [`DEFAULT_SEED`].
pub fn seed_or_default(prompt: Option<String>) -> (r: String)
    ensures
        r@ == match prompt {
            Some(p) => p@,
            None => DEFAULT_SEED@,
        },
{
    match prompt {
        Some(p) => p,
        None => String::from_str(DEFAULT_SEED),
    }
}

/// The state of a prompt enhancer: the system prompt it works under. Its
/// view is that prompt.
pub struct PromptEnhancer {
    system_prompt: String,
}

impl View for PromptEnhancer {
    type V = Seq<char>;

    closed spec fn view(&self) -> Seq<char> {
        self.system_prompt@
    }
}

impl PromptEnhancer {
    /// An enhancer that works under [`SYSTEM_PROMPT`].
    pub fn new() -> (r: PromptEnhancer)
        ensures
            r@ == SYSTEM_PROMPT@,
    {
        PromptEnhancer { system_prompt: String::from_str(SYSTEM_PROMPT) }
    }

    /// The same enhancer under another system prompt.
    pub fn with_system_prompt(self, prompt: &str) -> (r: PromptEnhancer)
        ensures
            r@ == prompt@,
    {
        PromptEnhancer { system_prompt: String::from_str(prompt) }
    }

    /// The system prompt in use.
    pub fn system_prompt(&self) -> (r: &str)
        ensures
            r@ == self@,
    {
        self.system_prompt.as_str()
    }

    /// The sampler settings of every enhancement request: creative, but
    /// with an output budget that only just exceeds the word budget.
    pub fn sampler() -> (r: SamplerConfig)
        ensures
            r == spec_enhancement_sampler(),
    {
        SamplerConfig {
            temperature_hundredths: 90,
            top_p_hundredths: Some(95),
            max_output_tokens: Some(MAX_OUTPUT_TOKENS),
        }
    }

    /// The request that asks the model to expand `seed_prompt`: the system
    /// prompt, then the seed as the only user turn.
    pub fn request(&self, seed_prompt: &str) -> (r: GenerationRequest)
        ensures
            r@.messages == assembled_messages(self@, Seq::<TurnView>::empty(), seed_prompt@),
            r@.messages.len() == 2,
            r@.media.is_none(),
            r@.sampler == spec_enhancement_sampler(),
    {
        let prior = Vec::new();
        assemble(self.system_prompt.as_str(), &prior, seed_prompt, None, Self::sampler())
    }

    /// Finishes one enhancement of `seed_prompt`, given how the inference
    /// call for [`Self::request`] ended. A failed call is handed on as it
    /// is; a call that succeeded always yields a prompt, the seed itself
    /// when the reply is degenerate.
    pub fn enhance<E>(&self, seed_prompt: &str, outcome: Result<Option<String>, E>) -> (r: Result<
        String,
        E,
    >)
        ensures
            match outcome {
                Ok(content) => {
                    &&& r is Ok
                    &&& r->Ok_0@ == enhanced_prompt(seed_prompt@, content_view(content))
                    &&& words(r->Ok_0@).len() <= MAX_PROMPT_WORDS
                    &&& words(seed_prompt@).len() > 0 ==> r->Ok_0@.len() > 0
                },
                Err(e) => r == Err::<String, E>(e),
            },
    {
        match outcome {
            Ok(content) => {
                let text: Option<&str> = match &content {
                    Some(c) => Some(c.as_str()),
                    None => None,
                };
                Ok(select_prompt(seed_prompt, text))
            },
            Err(e) => Err(e),
        }
    }

    /// The request that asks the model to expand the seed made from a
    /// subject and an optional style.
    pub fn request_for_song(&self, song_title: &str, style: Option<&str>) -> (r:
        GenerationRequest)
        ensures
            r@.messages == assembled_messages(
                self@,
                Seq::<TurnView>::empty(),
                spec_song_seed(
                    song_title@,
                    match style {
                        Some(s) => Some(s@),
                        None => None,
                    },
                ),
            ),
            r@.media.is_none(),
            r@.sampler == spec_enhancement_sampler(),
    {
        let seed = song_seed(song_title, style);
        self.request(seed.as_str())
    }

    /// Finishes one enhancement of the seed made from a subject and an
    /// optional style.
    pub fn enhance_for_song<E>(
        &self,
        song_title: &str,
        style: Option<&str>,
        outcome: Result<Option<String>, E>,
    ) -> (r: Result<String, E>)
        ensures
            match outcome {
                Ok(content) => r is Ok && r->Ok_0@ == enhanced_prompt(
                    spec_song_seed(
                        song_title@,
                        match style {
                            Some(s) => Some(s@),
                            None => None,
                        },
                    ),
                    content_view(content),
                ),
                Err(e) => r == Err::<String, E>(e),
            },
    {
        let seed = song_seed(song_title, style);
        self.enhance(seed.as_str(), outcome)
    }
}

} // verus!
