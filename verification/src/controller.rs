//! The state that the user interface reads and drives: at most one request
//! in flight, the visible response, and the conversation so far.

use vstd::prelude::*;
use crate::attachment::{ImagePayload, ImageView};
use crate::dispatch::{is_error_marker, is_marked, outcome, DispatchOrder, RequestError};
use crate::history::{
    trailing, turn_views, ConversationStore, ConversationTurn, Speaker, TurnView, HISTORY_WINDOW,
};
use crate::text::{is_blank, is_blank_text};

verus! {

/// What the state is.
pub struct StateView {
    /// A request is in flight.
    pub busy: bool,
    /// The prompt of the request that was started last.
    pub last_prompt: Seq<char>,
    /// The visible response.
    pub response: Seq<char>,
    /// The visible error, if any.
    pub error: Option<Seq<char>>,
    /// The conversation so far.
    pub history: Seq<TurnView>,
    /// The image that goes with the next request, if any.
    pub image: Option<ImageView>,
}

/// What an order is.
pub struct OrderView {
    pub prompt: Seq<char>,
    pub image: Option<ImageView>,
    pub history: Seq<TurnView>,
}

impl View for DispatchOrder {
    type V = OrderView;

    open spec fn view(&self) -> OrderView {
        OrderView {
            prompt: self.prompt@,
            image: match self.image {
                Some(img) => Some(img@),
                None => None,
            },
            history: turn_views(self.history@),
        }
    }
}

/// The state at the beginning: idle, nothing shown, nothing said.
pub open spec fn initial_state() -> StateView {
    StateView {
        busy: false,
        last_prompt: Seq::empty(),
        response: Seq::empty(),
        error: None,
        history: Seq::empty(),
        image: None,
    }
}

/// A request can be started when none is in flight and the prompt holds
/// more than white space.
pub open spec fn can_start(s: StateView, prompt: Seq<char>) -> bool {
    !s.busy && !is_blank(prompt)
}

/// The state after a request was started with `prompt`.
pub open spec fn started(s: StateView, prompt: Seq<char>) -> StateView {
    StateView { busy: true, last_prompt: prompt, response: Seq::empty(), error: None, ..s }
}

/// The state after a call to start: a request in flight where one can be
/// started, the same state where not.
pub open spec fn after_start(s: StateView, prompt: Seq<char>) -> StateView {
    if can_start(s, prompt) {
        started(s, prompt)
    } else {
        s
    }
}

/// What is dispatched for `prompt`: the prompt, the pending image, and the
/// trailing window of the conversation.
pub open spec fn order_for(s: StateView, prompt: Seq<char>) -> OrderView {
    OrderView { prompt, image: s.image, history: trailing(s.history, HISTORY_WINDOW as nat) }
}

/// The conversation after an exchange was recorded.
pub open spec fn with_exchange(
    history: Seq<TurnView>,
    prompt: Seq<char>,
    reply: Seq<char>,
) -> Seq<TurnView> {
    history.push(TurnView { role: Speaker::User, content: prompt }).push(
        TurnView { role: Speaker::Model, content: reply },
    )
}

/// The state after the request in flight finished with `text`: idle, the
/// text visible; the exchange recorded unless the text is marked as a
/// failure, which is shown as the error instead.
pub open spec fn completed(s: StateView, text: Seq<char>) -> StateView {
    if is_marked(text) {
        StateView { busy: false, response: text, error: Some(text), ..s }
    } else {
        StateView {
            busy: false,
            response: text,
            error: None,
            history: with_exchange(s.history, s.last_prompt, text),
            ..s
        }
    }
}

/// The state after a poll: completed where a request was in flight and has
/// finished, the same state otherwise.
pub open spec fn after_poll(s: StateView, finished: Option<Seq<char>>) -> StateView {
    match finished {
        Some(text) => if s.busy {
            completed(s, text)
        } else {
            s
        },
        None => s,
    }
}

/// The state of the client between frames. It owns at most one request in
/// flight: `start_async_request` begins one, `poll_completion` ends it.
pub struct UIState {
    last_prompt: String,
    llm_response: String,
    is_loading: bool,
    error_message: Option<String>,
    captured_img: Option<ImagePayload>,
    history: ConversationStore,
}

impl View for UIState {
    type V = StateView;

    closed spec fn view(&self) -> StateView {
        StateView {
            busy: self.is_loading,
            last_prompt: self.last_prompt@,
            response: self.llm_response@,
            error: match self.error_message {
                Some(e) => Some(e@),
                None => None,
            },
            history: self.history@,
            image: match self.captured_img {
                Some(img) => Some(img@),
                None => None,
            },
        }
    }
}

impl Default for UIState {
    fn default() -> (r: Self)
        ensures
            r@ == initial_state(),
    {
        UIState::new()
    }
}

fn snapshot(turns: &[ConversationTurn]) -> (r: Vec<ConversationTurn>)
    ensures
        turn_views(r@) == turn_views(turns@),
{
    let mut r: Vec<ConversationTurn> = Vec::new();
    let mut i: usize = 0;
    while i < turns.len()
        invariant
            0 <= i <= turns.len(),
            r@.len() == i,
            forall|j: int| 0 <= j < i ==> (#[trigger] r@[j])@ == turns@[j]@,
        decreases turns.len() - i,
    {
        r.push(turns[i].clone());
        i += 1;
    }
    assert(turn_views(r@) =~= turn_views(turns@));
    r
}

impl UIState {
    /// The state at the beginning: idle, nothing shown, nothing said.
    pub fn new() -> (r: Self)
        ensures
            r@ == initial_state(),
    {
        UIState {
            last_prompt: String::new(),
            llm_response: String::new(),
            is_loading: false,
            error_message: None,
            captured_img: None,
            history: ConversationStore::new(),
        }
    }

    /// Whether a request is in flight.
    pub fn is_busy(&self) -> (r: bool)
        ensures
            r == self@.busy,
    {
        self.is_loading
    }

    /// The visible response.
    pub fn current_response(&self) -> (r: &str)
        ensures
            r@ == self@.response,
    {
        self.llm_response.as_str()
    }

    /// The prompt of the request that was started last.
    pub fn last_prompt(&self) -> (r: &str)
        ensures
            r@ == self@.last_prompt,
    {
        self.last_prompt.as_str()
    }

    /// The visible error, if any.
    pub fn last_error(&self) -> (r: Option<&str>)
        ensures
            match r {
                Some(e) => self@.error == Some(e@),
                None => self@.error is None,
            },
    {
        match &self.error_message {
            Some(e) => Some(e.as_str()),
            None => None,
        }
    }

    /// The conversation so far.
    pub fn history(&self) -> (r: &ConversationStore)
        ensures
            r@ == self@.history,
    {
        &self.history
    }

    /// The image that goes with the next request, if any.
    pub fn captured_image(&self) -> (r: Option<&ImagePayload>)
        ensures
            match r {
                Some(img) => self@.image == Some(img@),
                None => self@.image is None,
            },
    {
        match &self.captured_img {
            Some(img) => Some(img),
            None => None,
        }
    }

    /// Puts `response` into the visible response.
    pub fn update_llm_response(&mut self, response: String)
        ensures
            final(self)@ == (StateView { response: response@, ..old(self)@ }),
    {
        self.llm_response = response;
    }

    /// Shows `error`.
    pub fn set_error(&mut self, error: String)
        ensures
            final(self)@ == (StateView { error: Some(error@), ..old(self)@ }),
    {
        self.error_message = Some(error);
    }

    /// Shows no error.
    pub fn clear_error(&mut self)
        ensures
            final(self)@ == (StateView { error: None, ..old(self)@ }),
    {
        self.error_message = None;
    }

    /// Attaches `image` to the requests to come, in place of any other.
    pub fn set_image(&mut self, image: ImagePayload)
        ensures
            final(self)@ == (StateView { image: Some(image@), ..old(self)@ }),
    {
        self.captured_img = Some(image);
    }

    /// Attaches no image to the requests to come.
    pub fn clear_image(&mut self)
        ensures
            final(self)@ == (StateView { image: None, ..old(self)@ }),
    {
        self.captured_img = None;
    }

    /// Forgets the conversation.
    pub fn clear_history(&mut self)
        ensures
            final(self)@ == (StateView { history: Seq::empty(), ..old(self)@ }),
    {
        self.history.clear();
    }

    /// Starts a request for `prompt`, unless one is in flight or the prompt
    /// is blank: then nothing changes and nothing is to be dispatched.
    /// Otherwise the order to dispatch comes back; the image stays
    /// attached.
    pub fn start_async_request(&mut self, prompt: String) -> (r: Option<DispatchOrder>)
        ensures
            final(self)@ == after_start(old(self)@, prompt@),
            match r {
                Some(order) => can_start(old(self)@, prompt@) && order@ == order_for(
                    old(self)@,
                    prompt@,
                ),
                None => !can_start(old(self)@, prompt@),
            },
    {
        if self.is_loading || is_blank_text(prompt.as_str()) {
            return None;
        }
        let image: Option<ImagePayload> = match &self.captured_img {
            Some(img) => Some(img.clone()),
            None => None,
        };
        let order = DispatchOrder {
            prompt: prompt.clone(),
            image,
            history: snapshot(self.history.window(HISTORY_WINDOW)),
        };
        self.is_loading = true;
        self.last_prompt = prompt;
        self.llm_response = String::new();
        self.error_message = None;
        Some(order)
    }

    /// Takes what the poll of the worker gave: nothing while it runs, its
    /// text when it has finished. With a text and a request in flight the
    /// request is over: the text is shown and, unless it is marked as a
    /// failure, the exchange joins the conversation. Says whether a request
    /// was completed.
    pub fn poll_completion(&mut self, finished: Option<String>) -> (r: bool)
        ensures
            final(self)@ == after_poll(
                old(self)@,
                match finished {
                    Some(t) => Some(t@),
                    None => None,
                },
            ),
            r == (old(self)@.busy && finished is Some),
    {
        if !self.is_loading {
            return false;
        }
        match finished {
            None => false,
            Some(text) => {
                self.is_loading = false;
                if is_error_marker(text.as_str()) {
                    self.error_message = Some(text.clone());
                } else {
                    self.error_message = None;
                    self.history.append_turn(Speaker::User, self.last_prompt.clone());
                    self.history.append_turn(Speaker::Model, text.clone());
                }
                self.llm_response = text;
                true
            },
        }
    }
}

/// While a request is in flight, starting another changes nothing.
pub proof fn lemma_one_in_flight(s: StateView, prompt: Seq<char>)
    requires
        s.busy,
    ensures
        after_start(s, prompt) == s,
        !can_start(s, prompt),
{
}

/// A blank prompt starts nothing.
pub proof fn lemma_blank_prompt_ignored(s: StateView, prompt: Seq<char>)
    requires
        is_blank(prompt),
    ensures
        after_start(s, prompt) == s,
        !can_start(s, prompt),
{
}

/// Neither starting nor polling ever shortens or rewrites the
/// conversation: what was there stays where it was.
pub proof fn lemma_history_only_grows(s: StateView, prompt: Seq<char>, finished: Option<Seq<char>>)
    ensures
        after_start(s, prompt).history == s.history,
        s.history.is_prefix_of(after_poll(s, finished).history),
{
    let h = after_poll(s, finished).history;
    if h != s.history {
        let text = finished->0;
        assert(h == with_exchange(s.history, s.last_prompt, text));
        assert(h.subrange(0, s.history.len() as int) =~= s.history);
    }
}

/// A request that failed leaves the conversation as it was before it was
/// started, and shows the failure.
pub proof fn lemma_failure_keeps_history(s: StateView, prompt: Seq<char>, e: RequestError)
    ensures
        after_poll(after_start(s, prompt), Some(outcome(Err(e)))).history == s.history,
        can_start(s, prompt) ==> after_poll(after_start(s, prompt), Some(outcome(Err(e)))).response
            == outcome(Err(e)),
{
    crate::dispatch::lemma_failure_is_marked(e);
}

/// A request that was started and answered with a text that is no failure
/// shows that text, records the prompt and the text as two turns, and
/// leaves the state idle.
pub proof fn lemma_success_records_exchange(s: StateView, prompt: Seq<char>, text: Seq<char>)
    requires
        can_start(s, prompt),
        !is_marked(text),
    ensures
        after_poll(after_start(s, prompt), Some(text)).response == text,
        after_poll(after_start(s, prompt), Some(text)).history == with_exchange(
            s.history,
            prompt,
            text,
        ),
        !after_poll(after_start(s, prompt), Some(text)).busy,
        after_poll(after_start(s, prompt), Some(text)).history.len() == s.history.len() + 2,
{
}

/// An order never carries more turns than the window allows, however long
/// the conversation is, and what it carries are the conversation's last
/// turns in their order.
pub proof fn lemma_order_window(s: StateView, prompt: Seq<char>)
    ensures
        order_for(s, prompt).history.len() <= HISTORY_WINDOW,
        order_for(s, prompt).history.len() <= s.history.len(),
        forall|i: int|
            0 <= i < order_for(s, prompt).history.len() ==> #[trigger] order_for(
                s,
                prompt,
            ).history[i] == s.history[s.history.len() - order_for(s, prompt).history.len() + i],
{
}

/// The pending image goes with the request and stays attached: neither
/// starting nor finishing a request removes it.
pub proof fn lemma_image_stays(s: StateView, prompt: Seq<char>, finished: Option<Seq<char>>)
    ensures
        order_for(s, prompt).image == s.image,
        after_start(s, prompt).image == s.image,
        after_poll(after_start(s, prompt), finished).image == s.image,
{
}

/// After a poll that found the request finished, the state is idle again,
/// so that the next request can start.
pub proof fn lemma_completion_frees(s: StateView, text: Seq<char>, next: Seq<char>)
    requires
        s.busy,
        !is_blank(next),
    ensures
        !after_poll(s, Some(text)).busy,
        can_start(after_poll(s, Some(text)), next),
{
}

/// While no request has finished, polling changes nothing.
pub proof fn lemma_poll_waits(s: StateView)
    ensures
        after_poll(s, None) == s,
{
}

} // verus!
