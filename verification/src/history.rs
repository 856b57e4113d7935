//! The conversation log: an append-only sequence of turns and the bounded
//! trailing window of it that accompanies a request.

use vstd::prelude::*;
use vstd::slice::slice_subrange;

verus! {

/// How many trailing turns accompany a request.
pub const HISTORY_WINDOW: usize = 10;

/// Who spoke a turn.
#[derive(Clone, Copy, Debug, PartialEq, Eq, Structural)]
pub enum Speaker {
    User,
    Model,
}

/// What a turn is: its speaker and its text.
pub struct TurnView {
    pub role: Speaker,
    pub content: Seq<char>,
}

/// One message of the conversation. It does not change after creation.
#[derive(Debug, PartialEq, Eq)]
pub struct ConversationTurn {
    role: Speaker,
    content: String,
}

impl View for ConversationTurn {
    type V = TurnView;

    closed spec fn view(&self) -> TurnView {
        TurnView { role: self.role, content: self.content@ }
    }
}

impl Clone for ConversationTurn {
    fn clone(&self) -> (r: Self)
        ensures
            r@ == self@,
    {
        ConversationTurn { role: self.role, content: self.content.clone() }
    }
}

impl ConversationTurn {
    /// A turn spoken by `role`.
    pub fn new(role: Speaker, content: String) -> (r: Self)
        ensures
            r@ == (TurnView { role, content: content@ }),
    {
        ConversationTurn { role, content }
    }

    /// Who spoke it.
    pub fn role(&self) -> (r: Speaker)
        ensures
            r == self@.role,
    {
        self.role
    }

    /// What was said.
    pub fn content(&self) -> (r: &str)
        ensures
            r@ == self@.content,
    {
        self.content.as_str()
    }
}

/// The views of a run of turns, in order.
pub open spec fn turn_views(turns: Seq<ConversationTurn>) -> Seq<TurnView> {
    Seq::new(turns.len(), |i: int| turns[i]@)
}

/// The last `n` items of `s`, or all of `s` where it has no more than `n`.
pub open spec fn trailing<T>(s: Seq<T>, n: nat) -> Seq<T> {
    if s.len() <= n {
        s
    } else {
        s.skip(s.len() - n)
    }
}

/// The ordered log of turns.
pub struct ConversationStore {
    turns: Vec<ConversationTurn>,
}

impl View for ConversationStore {
    type V = Seq<TurnView>;

    closed spec fn view(&self) -> Seq<TurnView> {
        turn_views(self.turns@)
    }
}

impl ConversationStore {
    /// A log without turns.
    pub fn new() -> (r: Self)
        ensures
            r@ == Seq::<TurnView>::empty(),
    {
        let r = ConversationStore { turns: Vec::new() };
        assert(r@ =~= Seq::<TurnView>::empty());
        r
    }

    /// How many turns the log holds.
    pub fn len(&self) -> (n: usize)
        ensures
            n == self@.len(),
    {
        self.turns.len()
    }

    /// Whether the log holds no turn.
    pub fn is_empty(&self) -> (r: bool)
        ensures
            r == (self@.len() == 0),
    {
        self.turns.len() == 0
    }

    /// Adds one turn at the end; the turns before it stay as they are.
    pub fn append_turn(&mut self, role: Speaker, content: String)
        ensures
            final(self)@ == old(self)@.push(TurnView { role, content: content@ }),
    {
        self.turns.push(ConversationTurn { role, content });
        assert(self@ =~= old(self)@.push(TurnView { role, content: content@ }));
    }

    /// The whole log, oldest turn first.
    pub fn turns(&self) -> (r: &[ConversationTurn])
        ensures
            turn_views(r@) == self@,
    {
        self.turns.as_slice()
    }

    /// The last `n` turns in their order, or the whole log where it is
    /// shorter. The log itself is left as it is.
    pub fn window(&self, n: usize) -> (r: &[ConversationTurn])
        ensures
            turn_views(r@) == trailing(self@, n as nat),
            r@.len() <= n,
    {
        let len: usize = self.turns.len();
        let start: usize = if len <= n { 0 } else { len - n };
        let r = slice_subrange(self.turns.as_slice(), start, len);
        assert(turn_views(r@) =~= trailing(self@, n as nat));
        r
    }

    /// Forgets every turn.
    pub fn clear(&mut self)
        ensures
            final(self)@ == Seq::<TurnView>::empty(),
    {
        self.turns.clear();
        assert(self@ =~= Seq::<TurnView>::empty());
    }
}

/// A window never holds more than was asked for, nor more than the log.
pub proof fn lemma_trailing_len<T>(s: Seq<T>, n: nat)
    ensures
        trailing(s, n).len() == if s.len() <= n { s.len() } else { n },
{
}

/// A window holds the log's last items, in the log's order.
pub proof fn lemma_trailing_items<T>(s: Seq<T>, n: nat, i: int)
    requires
        0 <= i < trailing(s, n).len(),
    ensures
        trailing(s, n)[i] == s[s.len() - trailing(s, n).len() + i],
{
}

/// Appending to the log changes no turn that was there.
pub proof fn lemma_append_keeps_prefix<T>(s: Seq<T>, t: T, i: int)
    requires
        0 <= i < s.len(),
    ensures
        s.push(t)[i] == s[i],
        s.push(t).len() == s.len() + 1,
{
}

} // verus!
