//! The conversation log: an ordered, append-only record of turns.

use vstd::prelude::*;

verus! {

/// Who speaks in a turn.
#[derive(Clone, Copy, Debug, PartialEq, Eq, Structural)]
pub enum Role {
    System,
    User,
    Assistant,
}

/// One message of a conversation.
#[derive(Clone, Debug, PartialEq, Eq)]
pub struct ConversationTurn {
    pub role: Role,
    pub text: String,
}

/// Mathematical value of a [`ConversationTurn`].
pub struct TurnView {
    pub role: Role,
    pub text: Seq<char>,
}

impl View for ConversationTurn {
    type V = TurnView;

    open spec fn view(&self) -> TurnView {
        TurnView { role: self.role, text: self.text@ }
    }
}

/// The values of a sequence of turns, in order.
pub open spec fn turns_view(turns: Seq<ConversationTurn>) -> Seq<TurnView> {
    turns.map_values(|t: ConversationTurn| t@)
}

/// The value of a sequence of turns with one more turn at its end.
pub proof fn lemma_turns_view_push(turns: Seq<ConversationTurn>, turn: ConversationTurn)
    ensures
        turns_view(turns.push(turn)) == turns_view(turns).push(turn@),
{
    assert(turns_view(turns.push(turn)) =~= turns_view(turns).push(turn@));
}

/// One completed exchange: what the user said, then what the assistant
/// answered.
pub open spec fn exchange(user: Seq<char>, assistant: Seq<char>) -> Seq<TurnView> {
    seq![
        TurnView { role: Role::User, text: user },
        TurnView { role: Role::Assistant, text: assistant },
    ]
}

/// A log in which user and assistant take turns, the user first, and every
/// user turn has its answer.
pub open spec fn alternating(log: Seq<TurnView>) -> bool {
    &&& log.len() % 2 == 0
    &&& forall|i: int|
        0 <= i < log.len() ==> (#[trigger] log[i]).role == if i % 2 == 0 {
            Role::User
        } else {
            Role::Assistant
        }
}

/// The log that a run of completed exchanges leaves behind, starting from an
/// empty log. Each exchange is a pair of the user's text and the assistant's.
pub open spec fn log_of(exchanges: Seq<(Seq<char>, Seq<char>)>) -> Seq<TurnView>
    decreases exchanges.len(),
{
    if exchanges.len() == 0 {
        Seq::empty()
    } else {
        log_of(exchanges.drop_last()) + exchange(exchanges.last().0, exchanges.last().1)
    }
}

/// One more completed exchange appends its two turns to the log of the
/// exchanges before it.
pub proof fn lemma_log_of_next_exchange(
    exchanges: Seq<(Seq<char>, Seq<char>)>,
    user: Seq<char>,
    assistant: Seq<char>,
)
    ensures
        log_of(exchanges.push((user, assistant))) == log_of(exchanges) + exchange(user, assistant),
{
    assert(exchanges.push((user, assistant)).drop_last() =~= exchanges);
}

/// After any number of completed exchanges the log holds exactly two turns
/// per exchange, alternating between user and assistant with the user first,
/// and turn by turn it holds what was said in each exchange.
pub proof fn lemma_log_of_exchanges(exchanges: Seq<(Seq<char>, Seq<char>)>)
    ensures
        log_of(exchanges).len() == 2 * exchanges.len(),
        alternating(log_of(exchanges)),
        forall|k: int|
            0 <= k < exchanges.len() ==> {
                &&& log_of(exchanges)[2 * k] == (TurnView {
                    role: Role::User,
                    text: (#[trigger] exchanges[k]).0,
                })
                &&& log_of(exchanges)[2 * k + 1] == (TurnView {
                    role: Role::Assistant,
                    text: exchanges[k].1,
                })
            },
    decreases exchanges.len(),
{
    if exchanges.len() > 0 {
        let init = exchanges.drop_last();
        lemma_log_of_exchanges(init);
        let log = log_of(exchanges);
        assert forall|k: int| 0 <= k < exchanges.len() implies {
            &&& log[2 * k] == (TurnView { role: Role::User, text: (#[trigger] exchanges[k]).0 })
            &&& log[2 * k + 1] == (TurnView { role: Role::Assistant, text: exchanges[k].1 })
        } by {
            if k < init.len() {
                assert(init[k] == exchanges[k]);
                assert(log[2 * k] == log_of(init)[2 * k]);
                assert(log[2 * k + 1] == log_of(init)[2 * k + 1]);
            }
        }
        assert forall|i: int| 0 <= i < log.len() implies (#[trigger] log[i]).role == if i % 2
            == 0 {
            Role::User
        } else {
            Role::Assistant
        } by {
            if i < log_of(init).len() {
                assert(log[i] == log_of(init)[i]);
            }
        }
    }
}

/// Appending one exchange to an alternating log keeps it alternating and
/// makes it two turns longer.
pub proof fn lemma_exchange_keeps_alternating(
    log: Seq<TurnView>,
    user: Seq<char>,
    assistant: Seq<char>,
)
    requires
        alternating(log),
    ensures
        alternating(log + exchange(user, assistant)),
        (log + exchange(user, assistant)).len() == log.len() + 2,
{
    let next = log + exchange(user, assistant);
    assert forall|i: int| 0 <= i < next.len() implies (#[trigger] next[i]).role == if i % 2
        == 0 {
        Role::User
    } else {
        Role::Assistant
    } by {
        if i < log.len() {
            assert(next[i] == log[i]);
        }
    }
}

impl ConversationTurn {
    /// A turn with the given speaker and text.
    pub fn new(role: Role, text: &str) -> (r: ConversationTurn)
        ensures
            r@ == (TurnView { role, text: text@ }),
    {
        ConversationTurn { role, text: text.to_owned() }
    }

    /// An equal turn with a text of its own.
    pub fn duplicate(&self) -> (r: ConversationTurn)
        ensures
            r@ == self@,
    {
        ConversationTurn { role: self.role, text: self.text.clone() }
    }
}

/// The turns of one chat, in the order in which they were said. The log only
/// grows by whole exchanges and only shrinks by being cleared, so it always
/// alternates between user and assistant.
pub struct ConversationState {
    turns: Vec<ConversationTurn>,
}

impl View for ConversationState {
    type V = Seq<TurnView>;

    closed spec fn view(&self) -> Seq<TurnView> {
        turns_view(self.turns@)
    }
}

impl ConversationState {
    #[verifier::type_invariant]
    spec fn well_formed(&self) -> bool {
        alternating(turns_view(self.turns@))
    }

    /// An empty log.
    pub fn new() -> (r: ConversationState)
        ensures
            r@ == Seq::<TurnView>::empty(),
    {
        let r = ConversationState { turns: Vec::new() };
        assert(turns_view(r.turns@) =~= Seq::<TurnView>::empty());
        r
    }

    /// Number of turns in the log; always even.
    pub fn len(&self) -> (n: usize)
        ensures
            n == self@.len(),
            n % 2 == 0,
    {
        proof {
            use_type_invariant(self);
        }
        self.turns.len()
    }

    /// The turns, oldest first. They alternate between user and assistant,
    /// the user first.
    pub fn turns(&self) -> (r: &Vec<ConversationTurn>)
        ensures
            turns_view(r@) == self@,
            alternating(self@),
    {
        proof {
            use_type_invariant(self);
        }
        &self.turns
    }

    /// Appends one completed exchange: the user's turn, then the
    /// assistant's. Nothing already in the log changes.
    pub fn record_exchange(&mut self, user_text: String, assistant_text: String)
        ensures
            final(self)@ == old(self)@ + exchange(user_text@, assistant_text@),
            final(self)@.len() == old(self)@.len() + 2,
    {
        proof {
            use_type_invariant(&*self);
            lemma_exchange_keeps_alternating(self@, user_text@, assistant_text@);
        }
        let ghost before = self.turns@;
        let user = ConversationTurn { role: Role::User, text: user_text };
        let assistant = ConversationTurn { role: Role::Assistant, text: assistant_text };
        let mut taken = ConversationState::new();
        std::mem::swap(self, &mut taken);
        let mut turns = taken.turns;
        turns.push(user);
        turns.push(assistant);
        proof {
            lemma_turns_view_push(before, user);
            lemma_turns_view_push(before.push(user), assistant);
            assert(turns_view(turns@) =~= turns_view(before) + exchange(
                user_text@,
                assistant_text@,
            ));
        }
        *self = ConversationState { turns };
    }

    /// Empties the log.
    pub fn clear(&mut self)
        ensures
            final(self)@ == Seq::<TurnView>::empty(),
    {
        *self = ConversationState::new();
    }
}

} // verus!
