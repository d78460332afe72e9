//! The chat session: a conversation log, the request built for each new
//! turn, and what each reply does to the log.

use vstd::prelude::*;
use vstd::std_specs::convert::FromSpec;
use vstd::string::StringExecFns;
use crate::conversation::{alternating, exchange, ConversationState, TurnView};
use crate::preset::{
    make_label, preset_label, Loader, Precision, PresetConfig, PresetConfigView, Quantization,
};
use crate::promp_enhancer::{content_view, EnhancerModel};
use crate::request::{assemble, assembled_messages, GenerationRequest, SamplerConfig};
use crate::text::{same_text, trim, trimmed};

verus! {

/// Available chat model presets. They name the same models as the
/// enhancer presets.
#[derive(Clone, Copy, Debug, PartialEq, Eq, Structural)]
pub enum ChatModel {
    /// Gemma 3n E2B: smallest, meant for on-device use.
    GemmaE2b,
    /// Gemma 3n E4B: balanced quality and size for a desktop.
    GemmaE4b,
    /// Phi-3.5-mini: strongest quality, larger memory footprint.
    Phi35Mini,
}

impl Default for ChatModel {
    fn default() -> (r: Self)
        ensures
            r == ChatModel::GemmaE4b,
    {
        ChatModel::GemmaE4b
    }
}

impl From<EnhancerModel> for ChatModel {
    fn from(value: EnhancerModel) -> (r: Self) {
        match value {
            EnhancerModel::GemmaE2b => ChatModel::GemmaE2b,
            EnhancerModel::GemmaE4b => ChatModel::GemmaE4b,
            EnhancerModel::Phi35Mini => ChatModel::Phi35Mini,
        }
    }
}

impl vstd::std_specs::convert::FromSpecImpl<EnhancerModel> for ChatModel {
    open spec fn obeys_from_spec() -> bool {
        true
    }

    /// Each enhancer preset becomes the chat preset of the same name.
    open spec fn from_spec(value: EnhancerModel) -> Self {
        match value {
            EnhancerModel::GemmaE2b => ChatModel::GemmaE2b,
            EnhancerModel::GemmaE4b => ChatModel::GemmaE4b,
            EnhancerModel::Phi35Mini => ChatModel::Phi35Mini,
        }
    }
}

impl ChatModel {
    /// The identifier of each preset's weights.
    pub open spec fn spec_model_id(self) -> Seq<char> {
        match self {
            ChatModel::GemmaE2b => "google/gemma-3n-E2B-it"@,
            ChatModel::GemmaE4b => "google/gemma-3n-E4B-it"@,
            ChatModel::Phi35Mini => "microsoft/Phi-3.5-mini-instruct"@,
        }
    }

    /// The human-readable name of each preset.
    pub open spec fn spec_display_name(self) -> Seq<char> {
        match self {
            ChatModel::GemmaE2b => "Gemma 3n E2B"@,
            ChatModel::GemmaE4b => "Gemma 3n E4B"@,
            ChatModel::Phi35Mini => "Phi-3.5-mini"@,
        }
    }

    /// The memory estimate shown for each preset.
    pub open spec fn spec_approx_memory(self) -> Seq<char> {
        match self {
            ChatModel::GemmaE2b => "~1.5 GB (Q4K)"@,
            ChatModel::GemmaE4b => "~8 GB (F16)"@,
            ChatModel::Phi35Mini => "~2.8 GB (Q4K)"@,
        }
    }

    /// The configuration each preset stands for. The two Gemma models are
    /// multimodal and load as vision models even for text chat.
    pub open spec fn config(self) -> PresetConfigView {
        match self {
            ChatModel::GemmaE2b => PresetConfigView {
                model_id: self.spec_model_id(),
                loader: Loader::Vision,
                precision: Precision::Auto,
                quantization: Some(Quantization::Q4K),
            },
            ChatModel::GemmaE4b => PresetConfigView {
                model_id: self.spec_model_id(),
                loader: Loader::Vision,
                precision: Precision::F16,
                quantization: None,
            },
            ChatModel::Phi35Mini => PresetConfigView {
                model_id: self.spec_model_id(),
                loader: Loader::Text,
                precision: Precision::Auto,
                quantization: Some(Quantization::Q4K),
            },
        }
    }

    /// Model identifier of the weights.
    pub fn model_id(self) -> (r: &'static str)
        ensures
            r@ == self.spec_model_id(),
    {
        match self {
            ChatModel::GemmaE2b => "google/gemma-3n-E2B-it",
            ChatModel::GemmaE4b => "google/gemma-3n-E4B-it",
            ChatModel::Phi35Mini => "microsoft/Phi-3.5-mini-instruct",
        }
    }

    /// Human-readable label used in messages.
    pub fn display_name(self) -> (r: &'static str)
        ensures
            r@ == self.spec_display_name(),
    {
        match self {
            ChatModel::GemmaE2b => "Gemma 3n E2B",
            ChatModel::GemmaE4b => "Gemma 3n E4B",
            ChatModel::Phi35Mini => "Phi-3.5-mini",
        }
    }

    /// Approximate memory footprint with the preset's loading strategy.
    pub fn approx_memory(self) -> (r: &'static str)
        ensures
            r@ == self.spec_approx_memory(),
    {
        match self {
            ChatModel::GemmaE2b => "~1.5 GB (Q4K)",
            ChatModel::GemmaE4b => "~8 GB (F16)",
            ChatModel::Phi35Mini => "~2.8 GB (Q4K)",
        }
    }

    /// Resolves the preset to the configuration its model is loaded with.
    /// The result depends on the preset alone.
    pub fn resolve(self) -> (r: PresetConfig)
        ensures
            r@ == self.config(),
    {
        let model_id = String::from_str(self.model_id());
        match self {
            ChatModel::GemmaE2b => PresetConfig {
                model_id,
                loader: Loader::Vision,
                precision: Precision::Auto,
                quantization: Some(Quantization::Q4K),
            },
            ChatModel::GemmaE4b => PresetConfig {
                model_id,
                loader: Loader::Vision,
                precision: Precision::F16,
                quantization: None,
            },
            ChatModel::Phi35Mini => PresetConfig {
                model_id,
                loader: Loader::Text,
                precision: Precision::Auto,
                quantization: Some(Quantization::Q4K),
            },
        }
    }

    /// The preset as it is announced: display name, then the model
    /// identifier in parentheses.
    pub fn label(self) -> (r: String)
        ensures
            r@ == preset_label(self.spec_display_name(), self.spec_model_id()),
    {
        make_label(self.display_name(), self.model_id())
    }
}

/// A chat preset and the enhancer preset it was made from name the same
/// weights under the same name and memory estimate; only the loading differs.
pub proof fn lemma_chat_preset_matches_enhancer(preset: EnhancerModel)
    ensures
        ChatModel::from_spec(preset).spec_model_id() == preset.spec_model_id(),
        ChatModel::from_spec(preset).spec_display_name() == preset.spec_display_name(),
        ChatModel::from_spec(preset).spec_approx_memory() == preset.spec_approx_memory(),
        ChatModel::from_spec(preset).config().model_id == preset.config().model_id,
{
}

/// The system prompt of a session that was given none.
pub const DEFAULT_SYSTEM_PROMPT: &'static str =
    "You are a helpful, concise assistant. Answer clearly and accurately.";

/// What is recorded as the assistant's turn when a reply carries no text.
pub const EMPTY_RESPONSE: &'static str = "(empty response)";

/// The sampler settings of every chat turn.
pub open spec fn spec_chat_sampler() -> SamplerConfig {
    SamplerConfig {
        temperature_hundredths: 70,
        top_p_hundredths: Some(95u32),
        max_output_tokens: Some(512usize),
    }
}

/// The assistant's text for one reply: the reply without its surrounding
/// whitespace, or [`EMPTY_RESPONSE`] when the reply carried no text.
pub open spec fn chat_reply_text(content: Option<Seq<char>>) -> Seq<char> {
    match content {
        Some(c) => trimmed(c),
        None => EMPTY_RESPONSE@,
    }
}

/// Why a send did not complete.
#[derive(Debug, PartialEq, Eq)]
pub enum SendError<E> {
    /// A reply arrived while the session was idle.
    NoRequestInFlight,
    /// The inference call failed; the failure is carried as it came.
    Inference(E),
}

/// Interactive chat session state. A session is idle, or it awaits the
/// response to the one request that is in flight.
pub struct CliChat {
    system_prompt: String,
    history: ConversationState,
    sampler: SamplerConfig,
    pending: Option<String>,
}

/// Mathematical value of a [`CliChat`].
pub struct ChatView {
    /// The system prompt, fixed for the session.
    pub system_prompt: Seq<char>,
    /// The turns recorded so far.
    pub history: Seq<TurnView>,
    /// The sampler settings, fixed for the session.
    pub sampler: SamplerConfig,
    /// The user text of the request in flight, if there is one.
    pub pending: Option<Seq<char>>,
}

impl View for CliChat {
    type V = ChatView;

    closed spec fn view(&self) -> ChatView {
        ChatView {
            system_prompt: self.system_prompt@,
            history: self.history@,
            sampler: self.sampler,
            pending: match self.pending {
                Some(p) => Some(p@),
                None => None,
            },
        }
    }
}

impl CliChat {
    /// A fresh, idle session with an empty log. Without a system prompt of
    /// its own it works under [`DEFAULT_SYSTEM_PROMPT`].
    pub fn new(system_prompt: Option<String>) -> (r: CliChat)
        ensures
            r@ == (ChatView {
                system_prompt: match system_prompt {
                    Some(p) => p@,
                    None => DEFAULT_SYSTEM_PROMPT@,
                },
                history: Seq::empty(),
                sampler: spec_chat_sampler(),
                pending: None,
            }),
    {
        let system_prompt = match system_prompt {
            Some(p) => p,
            None => String::from_str(DEFAULT_SYSTEM_PROMPT),
        };
        CliChat {
            system_prompt,
            history: ConversationState::new(),
            sampler: SamplerConfig {
                temperature_hundredths: 70,
                top_p_hundredths: Some(95),
                max_output_tokens: Some(512),
            },
            pending: None,
        }
    }

    /// Whether no request is in flight.
    pub fn is_idle(&self) -> (r: bool)
        ensures
            r == self@.pending.is_none(),
    {
        self.pending.is_none()
    }

    /// The turns recorded so far. They come in pairs: each user turn is
    /// followed by the assistant's answer to it.
    pub fn history(&self) -> (r: &ConversationState)
        ensures
            r@ == self@.history,
            alternating(self@.history),
    {
        let _ = self.history.turns();
        &self.history
    }

    /// The system prompt of the session.
    pub fn system_prompt(&self) -> (r: &str)
        ensures
            r@ == self@.system_prompt,
    {
        self.system_prompt.as_str()
    }

    /// The sampler settings of the session.
    pub fn sampler(&self) -> (r: SamplerConfig)
        ensures
            r == self@.sampler,
    {
        self.sampler
    }

    /// Starts one turn. An idle session hands out the request to submit,
    /// which replays the whole log between the system prompt and
    /// `user_message`, and then awaits the response. A session that already
    /// awaits one hands out nothing and stays as it is. The log does not
    /// change either way.
    pub fn begin_send(&mut self, user_message: &str) -> (r: Option<GenerationRequest>)
        ensures
            old(self)@.pending.is_none() ==> {
                &&& r is Some
                &&& r->Some_0@.messages == assembled_messages(
                    old(self)@.system_prompt,
                    old(self)@.history,
                    user_message@,
                )
                &&& r->Some_0@.media.is_none()
                &&& r->Some_0@.sampler == old(self)@.sampler
                &&& final(self)@ == (ChatView { pending: Some(user_message@), ..old(self)@ })
            },
            old(self)@.pending.is_some() ==> r is None && final(self)@ == old(self)@,
    {
        if self.pending.is_some() {
            return None;
        }
        let request = assemble(
            self.system_prompt.as_str(),
            self.history.turns(),
            user_message,
            None,
            self.sampler,
        );
        self.pending = Some(String::from_str(user_message));
        Some(request)
    }

    /// Ends the turn in flight with the outcome of its inference call.
    ///
    /// A call that succeeded appends exactly two turns, the user's message
    /// and then the assistant's text, and returns that text. A call that
    /// failed leaves the log as it was and hands the failure on. Either way
    /// the session is idle again. An outcome that arrives while no request
    /// is in flight changes nothing.
    pub fn complete_send<E>(&mut self, outcome: Result<Option<String>, E>) -> (r: Result<
        String,
        SendError<E>,
    >)
        ensures
            match (outcome, old(self)@.pending) {
                (Ok(content), Some(user_message)) => {
                    &&& r is Ok
                    &&& r->Ok_0@ == chat_reply_text(content_view(content))
                    &&& final(self)@ == (ChatView {
                        history: old(self)@.history + exchange(user_message, r->Ok_0@),
                        pending: None,
                        ..old(self)@
                    })
                },
                (Ok(_), None) => {
                    &&& r == Err::<String, SendError<E>>(SendError::NoRequestInFlight)
                    &&& final(self)@ == old(self)@
                },
                (Err(e), _) => {
                    &&& r == Err::<String, SendError<E>>(SendError::Inference(e))
                    &&& final(self)@ == (ChatView { pending: None, ..old(self)@ })
                },
            },
    {
        match outcome {
            Ok(content) => {
                let user_message = match self.pending.take() {
                    Some(m) => m,
                    None => {
                        return Err(SendError::NoRequestInFlight);
                    },
                };
                let assistant = match &content {
                    Some(c) => String::from_str(trim(c.as_str())),
                    None => String::from_str(EMPTY_RESPONSE),
                };
                self.history.record_exchange(user_message, assistant.clone());
                Ok(assistant)
            },
            Err(e) => {
                self.pending = None;
                Err(SendError::Inference(e))
            },
        }
    }

    /// Forgets the conversation: the log becomes empty, whatever it held.
    /// The system prompt and the sampler settings stay.
    pub fn clear(&mut self)
        ensures
            final(self)@ == (ChatView { history: Seq::empty(), ..old(self)@ }),
            final(self)@.history.len() == 0,
    {
        self.history.clear();
    }
}

/// What one line typed at the chat prompt asks for.
#[derive(Debug, PartialEq, Eq)]
pub enum ChatCommand {
    /// Nothing: the line was blank.
    Skip,
    /// Leave the chat.
    Exit,
    /// Show the list of commands.
    Help,
    /// Forget the conversation.
    Clear,
    /// Send this text to the model.
    Say(String),
}

/// Mathematical value of a [`ChatCommand`].
pub enum CommandView {
    Skip,
    Exit,
    Help,
    Clear,
    Say(Seq<char>),
}

impl View for ChatCommand {
    type V = CommandView;

    open spec fn view(&self) -> CommandView {
        match self {
            ChatCommand::Skip => CommandView::Skip,
            ChatCommand::Exit => CommandView::Exit,
            ChatCommand::Help => CommandView::Help,
            ChatCommand::Clear => CommandView::Clear,
            ChatCommand::Say(text) => CommandView::Say(text@),
        }
    }
}

/// The command a line stands for, read without its surrounding whitespace:
/// a blank line is skipped, `/exit` and `/quit` leave, `/help` and `/clear`
/// are themselves, and anything else is said to the model.
pub open spec fn spec_parse_command(line: Seq<char>) -> CommandView {
    let input = trimmed(line);
    if input.len() == 0 {
        CommandView::Skip
    } else if input == "/exit"@ || input == "/quit"@ {
        CommandView::Exit
    } else if input == "/help"@ {
        CommandView::Help
    } else if input == "/clear"@ {
        CommandView::Clear
    } else {
        CommandView::Say(input)
    }
}

/// Reads one line typed at the chat prompt.
pub fn parse_command(line: &str) -> (r: ChatCommand)
    ensures
        r@ == spec_parse_command(line@),
{
    let input = trim(line);
    if input.is_empty() {
        ChatCommand::Skip
    } else if same_text(input, "/exit") || same_text(input, "/quit") {
        ChatCommand::Exit
    } else if same_text(input, "/help") {
        ChatCommand::Help
    } else if same_text(input, "/clear") {
        ChatCommand::Clear
    } else {
        ChatCommand::Say(String::from_str(input))
    }
}

} // verus!
