//! Audio transcription: the request that carries a clip to the model, and
//! the result with its timing figures.

use vstd::prelude::*;
use vstd::string::StringExecFns;
use crate::conversation::TurnView;
use crate::preset::{
    make_label, preset_label, Loader, Precision, PresetConfig, PresetConfigView, Quantization,
};
use crate::promp_enhancer::{content_view, reply_text};
use crate::request::{assemble, assembled_messages, GenerationRequest, MediaAttachment, SamplerConfig};
use crate::text::trim;

verus! {

/// Available model presets for audio transcription. Both are multimodal
/// models with an audio encoder.
#[derive(Clone, Copy, Debug, PartialEq, Eq, Structural)]
pub enum TranscriptionModel {
    /// Gemma 3n E2B: smallest, fastest inference.
    GemmaE2b,
    /// Gemma 3n E4B: balanced quality and size for a desktop.
    GemmaE4b,
}

impl Default for TranscriptionModel {
    fn default() -> (r: Self)
        ensures
            r == TranscriptionModel::GemmaE4b,
    {
        TranscriptionModel::GemmaE4b
    }
}

impl TranscriptionModel {
    /// The identifier of each preset's weights.
    pub open spec fn spec_model_id(self) -> Seq<char> {
        match self {
            TranscriptionModel::GemmaE2b => "google/gemma-3n-E2B-it"@,
            TranscriptionModel::GemmaE4b => "google/gemma-3n-E4B-it"@,
        }
    }

    /// The human-readable name of each preset.
    pub open spec fn spec_display_name(self) -> Seq<char> {
        match self {
            TranscriptionModel::GemmaE2b => "Gemma 3n E2B"@,
            TranscriptionModel::GemmaE4b => "Gemma 3n E4B"@,
        }
    }

    /// The memory estimate shown for each preset.
    pub open spec fn spec_approx_memory(self) -> Seq<char> {
        match self {
            TranscriptionModel::GemmaE2b => "~1.5 GB (Q4K)"@,
            TranscriptionModel::GemmaE4b => "~8 GB (F16)"@,
        }
    }

    /// The configuration each preset stands for. Both load as vision
    /// models; the small one is quantized, the large one runs in half
    /// precision.
    pub open spec fn config(self) -> PresetConfigView {
        match self {
            TranscriptionModel::GemmaE2b => PresetConfigView {
                model_id: self.spec_model_id(),
                loader: Loader::Vision,
                precision: Precision::Auto,
                quantization: Some(Quantization::Q4K),
            },
            TranscriptionModel::GemmaE4b => PresetConfigView {
                model_id: self.spec_model_id(),
                loader: Loader::Vision,
                precision: Precision::F16,
                quantization: None,
            },
        }
    }

    /// Model identifier of the weights.
    pub fn model_id(self) -> (r: &'static str)
        ensures
            r@ == self.spec_model_id(),
    {
        match self {
            TranscriptionModel::GemmaE2b => "google/gemma-3n-E2B-it",
            TranscriptionModel::GemmaE4b => "google/gemma-3n-E4B-it",
        }
    }

    /// Human-readable label used in messages.
    pub fn display_name(self) -> (r: &'static str)
        ensures
            r@ == self.spec_display_name(),
    {
        match self {
            TranscriptionModel::GemmaE2b => "Gemma 3n E2B",
            TranscriptionModel::GemmaE4b => "Gemma 3n E4B",
        }
    }

    /// Approximate memory footprint with the preset's loading strategy.
    pub fn approx_memory(self) -> (r: &'static str)
        ensures
            r@ == self.spec_approx_memory(),
    {
        match self {
            TranscriptionModel::GemmaE2b => "~1.5 GB (Q4K)",
            TranscriptionModel::GemmaE4b => "~8 GB (F16)",
        }
    }

    /// Resolves the preset to the configuration its model is loaded with.
    /// The result depends on the preset alone.
    pub fn resolve(self) -> (r: PresetConfig)
        ensures
            r@ == self.config(),
    {
        let model_id = String::from_str(self.model_id());
        match self {
            TranscriptionModel::GemmaE2b => PresetConfig {
                model_id,
                loader: Loader::Vision,
                precision: Precision::Auto,
                quantization: Some(Quantization::Q4K),
            },
            TranscriptionModel::GemmaE4b => PresetConfig {
                model_id,
                loader: Loader::Vision,
                precision: Precision::F16,
                quantization: None,
            },
        }
    }

    /// The preset as it is announced: display name, then the model
    /// identifier in parentheses.
    pub fn label(self) -> (r: String)
        ensures
            r@ == preset_label(self.spec_display_name(), self.spec_model_id()),
    {
        make_label(self.display_name(), self.model_id())
    }
}

/// The instruction that steers the model toward faithful word-for-word
/// transcription rather than summary or description.
pub const TRANSCRIPTION_SYSTEM_PROMPT: &'static str =
    "You are a precise audio transcription assistant. Your task is to listen to the audio and produce an exact, word-for-word transcription of everything that is spoken or sung. Follow these rules strictly:\n1. Transcribe every word exactly as you hear it.\n2. Use standard punctuation (periods, commas, question marks).\n3. Start a new line for each distinct sentence or phrase.\n4. If a section is unintelligible, write [inaudible].\n5. Do NOT add any commentary, explanation, or description \u{2014} output ONLY the transcription.";

/// The user instruction sent with the clip when the caller gives none.
pub const DEFAULT_USER_PROMPT: &'static str =
    "Transcribe the vocals in this audio exactly, word for word.";

/// Nanoseconds in a second.
pub const NANOS_PER_SECOND: u64 = 1_000_000_000;

/// The sampler settings of a transcription request: greedy decoding, and
/// otherwise what the runtime does by itself.
pub open spec fn spec_transcription_sampler() -> SamplerConfig {
    SamplerConfig { temperature_hundredths: 0, top_p_hundredths: None, max_output_tokens: None }
}

/// The user instruction of a transcription request.
pub open spec fn spec_user_prompt(user_prompt: Option<Seq<char>>) -> Seq<char> {
    match user_prompt {
        Some(p) => p,
        None => DEFAULT_USER_PROMPT@,
    }
}

/// An exact, non-negative fraction.
#[derive(Clone, Copy, Debug, PartialEq, Eq)]
pub struct Ratio {
    pub numerator: u128,
    pub denominator: u128,
}

/// The state of a transcriber: the system prompt it works under. Its view
/// is that prompt.
pub struct AudioTranscriber {
    system_prompt: String,
}

impl View for AudioTranscriber {
    type V = Seq<char>;

    closed spec fn view(&self) -> Seq<char> {
        self.system_prompt@
    }
}

impl AudioTranscriber {
    /// A transcriber that works under [`TRANSCRIPTION_SYSTEM_PROMPT`].
    pub fn new() -> (r: AudioTranscriber)
        ensures
            r@ == TRANSCRIPTION_SYSTEM_PROMPT@,
    {
        AudioTranscriber { system_prompt: String::from_str(TRANSCRIPTION_SYSTEM_PROMPT) }
    }

    /// The same transcriber under another system prompt.
    pub fn with_system_prompt(self, prompt: &str) -> (r: AudioTranscriber)
        ensures
            r@ == prompt@,
    {
        AudioTranscriber { system_prompt: String::from_str(prompt) }
    }

    /// The system prompt in use.
    pub fn system_prompt(&self) -> (r: &str)
        ensures
            r@ == self@,
    {
        self.system_prompt.as_str()
    }

    /// The sampler settings of every transcription request.
    pub fn sampler() -> (r: SamplerConfig)
        ensures
            r == spec_transcription_sampler(),
    {
        SamplerConfig { temperature_hundredths: 0, top_p_hundredths: None, max_output_tokens: None }
    }

    /// The single request that carries `audio` to the model: the system
    /// prompt, then one user turn with the caller's instruction, or
    /// [`DEFAULT_USER_PROMPT`] without one, and the clip attached to it.
    pub fn request(&self, audio: MediaAttachment, user_prompt: Option<&str>) -> (r:
        GenerationRequest)
        ensures
            r@.messages == assembled_messages(
                self@,
                Seq::<TurnView>::empty(),
                spec_user_prompt(
                    match user_prompt {
                        Some(p) => Some(p@),
                        None => None,
                    },
                ),
            ),
            r@.messages.len() == 2,
            r@.media == Some(audio),
            r@.sampler == spec_transcription_sampler(),
    {
        let user_text: &str = match user_prompt {
            Some(p) => p,
            None => DEFAULT_USER_PROMPT,
        };
        let prior = Vec::new();
        assemble(self.system_prompt.as_str(), &prior, user_text, Some(audio), Self::sampler())
    }

    /// Finishes the transcription of `audio`, given how the inference call
    /// for [`Self::request`] ended and how many nanoseconds it took. A
    /// failed call is handed on as it is. A call that succeeded yields the
    /// reply without its surrounding whitespace, beside the clip's shape and
    /// the time taken.
    pub fn transcribe_audio<E>(
        &self,
        audio: MediaAttachment,
        inference_nanos: u64,
        outcome: Result<Option<String>, E>,
    ) -> (r: Result<TranscriptionResult, E>)
        ensures
            match outcome {
                Ok(content) => {
                    &&& r is Ok
                    &&& r->Ok_0.text@ == reply_text(content_view(content))
                    &&& r->Ok_0.num_samples == audio.num_samples
                    &&& r->Ok_0.sample_rate == audio.sample_rate
                    &&& r->Ok_0.channels == audio.channels
                    &&& r->Ok_0.inference_nanos == inference_nanos
                },
                Err(e) => r == Err::<TranscriptionResult, E>(e),
            },
    {
        match outcome {
            Ok(content) => {
                let text = match &content {
                    Some(c) => String::from_str(trim(c.as_str())),
                    None => String::new(),
                };
                Ok(
                    TranscriptionResult {
                        text,
                        num_samples: audio.num_samples,
                        sample_rate: audio.sample_rate,
                        channels: audio.channels,
                        inference_nanos,
                    },
                )
            },
            Err(e) => Err(e),
        }
    }
}

/// The output of a transcription: the text and the figures from which its
/// timing is derived.
#[derive(Clone, Debug, PartialEq, Eq)]
pub struct TranscriptionResult {
    /// The transcribed text.
    pub text: String,
    /// Number of samples in the input audio, over all channels.
    pub num_samples: usize,
    /// Sample rate of the input audio.
    pub sample_rate: u32,
    /// Number of channels in the input audio.
    pub channels: u16,
    /// Wall-clock time the model spent on the transcription, in nanoseconds.
    pub inference_nanos: u64,
}

impl TranscriptionResult {
    /// Samples played per second over all channels.
    pub open spec fn spec_samples_per_second(&self) -> nat {
        (self.sample_rate * self.channels) as nat
    }

    /// Whether the audio lasts no time at all.
    pub open spec fn has_zero_duration(&self) -> bool {
        self.num_samples == 0
    }

    /// Duration of the input audio in seconds: the number of samples over
    /// the samples played per second. A clip without a rate or without
    /// channels has no duration.
    pub fn audio_duration(&self) -> (r: Option<Ratio>)
        ensures
            self.spec_samples_per_second() == 0 <==> r is None,
            r is Some ==> r->Some_0.numerator == self.num_samples && r->Some_0.denominator
                == self.spec_samples_per_second(),
    {
        let rate: u128 = self.samples_per_second();
        if rate == 0 {
            None
        } else {
            Some(Ratio { numerator: self.num_samples as u128, denominator: rate })
        }
    }

    /// Real-time factor: inference time over audio duration, both in
    /// seconds. Values below one mean that the model transcribes faster
    /// than real time. `None` stands for an infinite factor, which is what
    /// audio of zero duration has; otherwise the denominator is positive.
    pub fn real_time_factor(&self) -> (r: Option<Ratio>)
        ensures
            self.has_zero_duration() <==> r is None,
            r is Some ==> {
                &&& r->Some_0.numerator == self.inference_nanos * self.spec_samples_per_second()
                &&& r->Some_0.denominator == self.num_samples * NANOS_PER_SECOND
                &&& r->Some_0.denominator > 0
            },
    {
        if self.num_samples == 0 {
            return None;
        }
        let rate: u128 = self.samples_per_second();
        let nanos: u128 = self.inference_nanos as u128;
        let samples: u128 = self.num_samples as u128;
        let per_second: u128 = NANOS_PER_SECOND as u128;
        assert(nanos * rate <= 0xffff_ffff_ffff_ffff * 0xffff_ffff_ffff) by (nonlinear_arith)
            requires
                nanos <= 0xffff_ffff_ffff_ffff,
                rate <= 0xffff_ffff_ffff,
        ;
        assert(0 < samples * per_second <= 0xffff_ffff_ffff_ffff * 1_000_000_000)
            by (nonlinear_arith)
            requires
                0 < samples <= 0xffff_ffff_ffff_ffff,
                per_second == 1_000_000_000,
        ;
        Some(Ratio { numerator: nanos * rate, denominator: samples * per_second })
    }

    /// Samples played per second over all channels.
    pub fn samples_per_second(&self) -> (r: u128)
        ensures
            r == self.spec_samples_per_second(),
            r <= 0xffff_ffff_ffff,
    {
        let rate: u128 = self.sample_rate as u128;
        let channels: u128 = self.channels as u128;
        assert(rate * channels <= 0xffff_ffff * 0xffff) by (nonlinear_arith)
            requires
                rate <= 0xffff_ffff,
                channels <= 0xffff,
        ;
        rate * channels
    }
}

} // verus!
