//! Generation requests and how they are assembled.

use vstd::prelude::*;
use crate::conversation::{lemma_turns_view_push, turns_view, ConversationTurn, Role, TurnView};

verus! {

/// Sampler settings of one request. Temperature and nucleus mass are held in
/// hundredths, so `90` stands for 0.9.
#[derive(Clone, Copy, Debug, PartialEq, Eq)]
pub struct SamplerConfig {
    /// Sampling temperature, in hundredths; zero asks for greedy decoding.
    pub temperature_hundredths: u32,
    /// Nucleus sampling mass, in hundredths; `None` keeps the runtime's own.
    pub top_p_hundredths: Option<u32>,
    /// Most tokens to generate; `None` keeps the runtime's own limit.
    pub max_output_tokens: Option<usize>,
}

/// The shape of a decoded audio clip: how many samples it holds over all
/// channels, at which rate and over how many channels.
#[derive(Clone, Copy, Debug, PartialEq, Eq)]
pub struct MediaAttachment {
    pub num_samples: usize,
    pub sample_rate: u32,
    pub channels: u16,
}

/// One request to the runtime: the messages in the order in which they are
/// submitted, the media that goes with the last of them, and the sampler
/// settings.
#[derive(Clone, Debug, PartialEq, Eq)]
pub struct GenerationRequest {
    pub messages: Vec<ConversationTurn>,
    pub media: Option<MediaAttachment>,
    pub sampler: SamplerConfig,
}

/// Mathematical value of a [`GenerationRequest`].
pub struct RequestView {
    pub messages: Seq<TurnView>,
    pub media: Option<MediaAttachment>,
    pub sampler: SamplerConfig,
}

impl View for GenerationRequest {
    type V = RequestView;

    open spec fn view(&self) -> RequestView {
        RequestView {
            messages: turns_view(self.messages@),
            media: self.media,
            sampler: self.sampler,
        }
    }
}

/// The messages of a request: the system prompt first, then the earlier
/// turns in the order in which they were said, then the new user turn.
pub open spec fn assembled_messages(
    system_prompt: Seq<char>,
    prior_turns: Seq<TurnView>,
    new_user_text: Seq<char>,
) -> Seq<TurnView> {
    seq![TurnView { role: Role::System, text: system_prompt }] + prior_turns + seq![
        TurnView { role: Role::User, text: new_user_text },
    ]
}

/// An assembled request holds two messages more than the history it
/// replays: the system prompt in front and the new user turn at the end,
/// with the history unchanged in between.
pub proof fn lemma_assembled_shape(
    system_prompt: Seq<char>,
    prior_turns: Seq<TurnView>,
    new_user_text: Seq<char>,
)
    ensures
        ({
            let m = assembled_messages(system_prompt, prior_turns, new_user_text);
            &&& m.len() == prior_turns.len() + 2
            &&& m.first() == (TurnView { role: Role::System, text: system_prompt })
            &&& m.last() == (TurnView { role: Role::User, text: new_user_text })
            &&& m.subrange(1, m.len() - 1) == prior_turns
        }),
{
    let m = assembled_messages(system_prompt, prior_turns, new_user_text);
    assert(m.subrange(1, m.len() - 1) =~= prior_turns);
}

/// Builds the request for one new user turn. The request replays
/// `prior_turns` between the system prompt and the new turn; `media`, if
/// any, belongs to the new turn. Nothing is sent.
pub fn assemble(
    system_prompt: &str,
    prior_turns: &Vec<ConversationTurn>,
    new_user_text: &str,
    media: Option<MediaAttachment>,
    sampler: SamplerConfig,
) -> (r: GenerationRequest)
    ensures
        r@.messages == assembled_messages(system_prompt@, turns_view(prior_turns@), new_user_text@),
        r@.messages.len() == prior_turns@.len() + 2,
        r@.media == media,
        r@.sampler == sampler,
{
    let mut messages: Vec<ConversationTurn> = Vec::new();
    messages.push(ConversationTurn::new(Role::System, system_prompt));
    let ghost head = seq![TurnView { role: Role::System, text: system_prompt@ }];
    assert(turns_view(messages@) =~= head + turns_view(prior_turns@).take(0));
    let mut i: usize = 0;
    while i < prior_turns.len()
        invariant
            i <= prior_turns.len(),
            head == seq![TurnView { role: Role::System, text: system_prompt@ }],
            turns_view(messages@) == head + turns_view(prior_turns@).take(i as int),
        decreases prior_turns.len() - i,
    {
        let turn = prior_turns[i].duplicate();
        proof {
            lemma_turns_view_push(messages@, turn);
            assert(turns_view(prior_turns@).take(i + 1) =~= turns_view(prior_turns@).take(
                i as int,
            ).push(turn@));
        }
        messages.push(turn);
        assert(turns_view(messages@) =~= head + turns_view(prior_turns@).take(i + 1));
        i += 1;
    }
    assert(turns_view(prior_turns@).take(i as int) =~= turns_view(prior_turns@));
    let ghost replayed = turns_view(messages@);
    let last = ConversationTurn::new(Role::User, new_user_text);
    proof {
        lemma_turns_view_push(messages@, last);
    }
    messages.push(last);
    assert(turns_view(messages@) =~= replayed + seq![
        TurnView { role: Role::User, text: new_user_text@ },
    ]);
    GenerationRequest { messages, media, sampler }
}

} // verus!
