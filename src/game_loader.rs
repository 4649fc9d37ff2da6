use vstd::prelude::*;

use crate::action::{result_view, Action, ActionError, ActionView, decode_yaml};
use crate::model::game_state::GameState;
use crate::text::{copy_strings, has_prefix, has_prefix_at, string_views, strip_leading, trim, trimmed};

verus! {

/// How many past turns the loader keeps as context.
pub const HISTORY_LIMIT: usize = 12;

/// The label that a reply may open with before its YAML body.
pub const REPLY_LABEL: &'static str = "response:\n";

/// One past turn: what the player typed and the action it led to.
#[derive(Debug, Clone, PartialEq)]
pub struct ActionHistoryItem {
    input: String,
    response: Action,
}

impl View for ActionHistoryItem {
    type V = (Seq<char>, ActionView);

    closed spec fn view(&self) -> (Seq<char>, ActionView) {
        (self.input@, self.response@)
    }
}

/// The views of a list of past turns.
pub open spec fn turn_views(v: Seq<ActionHistoryItem>) -> Seq<(Seq<char>, ActionView)> {
    v.map_values(|t: ActionHistoryItem| t@)
}

impl ActionHistoryItem {
    /// The turn in which `input` led to `response`.
    pub fn new(input: String, response: Action) -> (r: Self)
        ensures
            r@ == (input@, response@),
    {
        ActionHistoryItem { input, response }
    }

    /// What the player typed.
    pub fn input(&self) -> (r: &str)
        ensures
            r@ == self@.0,
    {
        self.input.as_str()
    }

    /// The action the turn led to.
    pub fn response(&self) -> (r: &Action)
        ensures
            r@ == self@.1,
    {
        &self.response
    }

    /// A copy of the turn.
    pub fn duplicate(&self) -> (r: Self)
        ensures
            r@ == self@,
    {
        ActionHistoryItem { input: self.input.clone(), response: self.response.duplicate() }
    }
}

/// Abstract value of a request context.
pub struct ContextView {
    pub overview: Seq<char>,
    pub inventory: Seq<Seq<char>>,
    pub history: Seq<(Seq<char>, ActionView)>,
    pub input: Seq<char>,
}

/// What one request to the content service carries: the premise, the
/// inventory, the recent turns and what the player just typed.
#[derive(Debug, PartialEq)]
pub struct Context {
    overview: String,
    inventory: Vec<String>,
    history: Vec<ActionHistoryItem>,
    input: String,
}

impl View for Context {
    type V = ContextView;

    closed spec fn view(&self) -> ContextView {
        ContextView {
            overview: self.overview@,
            inventory: string_views(self.inventory@),
            history: turn_views(self.history@),
            input: self.input@,
        }
    }
}

impl Context {
    /// A context of the given parts.
    pub fn new(
        overview: String,
        inventory: Vec<String>,
        history: Vec<ActionHistoryItem>,
        input: String,
    ) -> (r: Self)
        ensures
            r@ == (ContextView {
                overview: overview@,
                inventory: string_views(inventory@),
                history: turn_views(history@),
                input: input@,
            }),
    {
        Context { overview, inventory, history, input }
    }

    /// The premise of the game.
    pub fn overview(&self) -> (r: &str)
        ensures
            r@ == self@.overview,
    {
        self.overview.as_str()
    }

    /// The items held.
    pub fn inventory(&self) -> (r: &Vec<String>)
        ensures
            string_views(r@) == self@.inventory,
    {
        &self.inventory
    }

    /// The recent turns, oldest first.
    pub fn history(&self) -> (r: &Vec<ActionHistoryItem>)
        ensures
            turn_views(r@) == self@.history,
    {
        &self.history
    }

    /// What the player typed.
    pub fn input(&self) -> (r: &str)
        ensures
            r@ == self@.input,
    {
        self.input.as_str()
    }
}

/// The history after one more turn: the turn joins the end, and the oldest
/// leaves once more than `HISTORY_LIMIT` are held.
pub open spec fn bounded_push<T>(h: Seq<T>, t: T) -> Seq<T> {
    if h.len() + 1 > HISTORY_LIMIT {
        h.push(t).drop_first()
    } else {
        h.push(t)
    }
}

/// The history after a run of turns, one after another.
pub open spec fn pushed_all<T>(h: Seq<T>, ts: Seq<T>) -> Seq<T>
    decreases ts.len(),
{
    if ts.len() == 0 {
        h
    } else {
        bounded_push(pushed_all(h, ts.drop_last()), ts.last())
    }
}

/// The last `n` elements of `s`, or all of them where there are fewer.
pub open spec fn latest<T>(s: Seq<T>, n: nat) -> Seq<T> {
    if s.len() > n {
        s.skip(s.len() - n)
    } else {
        s
    }
}

/// After any run of turns the history holds exactly the most recent turns,
/// as many as `HISTORY_LIMIT` allows, oldest first: the oldest leave first.
pub proof fn lemma_history_keeps_latest<T>(h: Seq<T>, ts: Seq<T>)
    requires
        h.len() <= HISTORY_LIMIT,
    ensures
        pushed_all(h, ts) == latest(h + ts, HISTORY_LIMIT as nat),
    decreases ts.len(),
{
    if ts.len() > 0 {
        let rest = ts.drop_last();
        let t = ts.last();
        lemma_history_keeps_latest(h, rest);
        let u = h + rest;
        assert(h + ts =~= u.push(t));
        if u.len() > HISTORY_LIMIT {
            assert(u.skip(u.len() - HISTORY_LIMIT).push(t).drop_first() =~= u.push(t).skip(
                u.len() + 1 - HISTORY_LIMIT,
            ));
        } else if u.len() == HISTORY_LIMIT {
            assert(u.push(t).drop_first() =~= u.push(t).skip(1));
        }
    }
}

/// The YAML body of a reply: where the reply opens with the label, every
/// leading copy of the label is removed and the rest is trimmed.
pub open spec fn reply_body(s: Seq<char>) -> Seq<char> {
    if has_prefix(s, REPLY_LABEL@) {
        trim(strip_leading(s, REPLY_LABEL@))
    } else {
        s
    }
}

/// Abstract state of the loader: the premise and the recent turns.
pub struct GameLoaderView {
    pub overview: Seq<char>,
    pub history: Seq<(Seq<char>, ActionView)>,
}

/// Keeps the premise of a game and its recent turns, builds the context of
/// each request, and reads each reply as an action.
pub struct GameLoader {
    overview: String,
    action_history: Vec<ActionHistoryItem>,
}

impl View for GameLoader {
    type V = GameLoaderView;

    closed spec fn view(&self) -> GameLoaderView {
        GameLoaderView { overview: self.overview@, history: turn_views(self.action_history@) }
    }
}

/// The YAML body of a reply.
pub fn reply_text(reply: &str) -> (r: String)
    ensures
        r@ == reply_body(reply@),
{
    proof {
        reveal_strlit("response:\n");
    }
    let n = reply.unicode_len();
    let m = REPLY_LABEL.unicode_len();
    if !has_prefix_at(reply, n, 0, REPLY_LABEL) {
        assert(reply@.skip(0) =~= reply@);
        return String::from_str(reply);
    }
    assert(reply@.skip(0) =~= reply@);
    let mut at: usize = 0;
    while has_prefix_at(reply, n, at, REPLY_LABEL)
        invariant
            n == reply@.len(),
            m == REPLY_LABEL@.len(),
            m > 0,
            at <= n,
            strip_leading(reply@, REPLY_LABEL@) == strip_leading(reply@.skip(at as int), REPLY_LABEL@),
        decreases n - at,
    {
        assert(reply@.skip(at as int).skip(m as int) =~= reply@.skip(at + m));
        at = at + m;
    }
    trimmed(reply.substring_char(at, n))
}

impl GameLoader {
    #[verifier::type_invariant]
    spec fn well_formed(&self) -> bool {
        self.action_history.len() <= HISTORY_LIMIT
    }

    /// A loader with no premise and no history.
    pub fn new() -> (r: Self)
        ensures
            r@.overview.len() == 0,
            r@.history.len() == 0,
    {
        let r = GameLoader { overview: String::new(), action_history: Vec::new() };
        assert(r@.history =~= Seq::empty());
        r
    }

    /// The loader never keeps more than `HISTORY_LIMIT` turns.
    pub fn history_len(&self) -> (r: usize)
        ensures
            r == self@.history.len(),
            r <= HISTORY_LIMIT,
    {
        proof { use_type_invariant(self); }
        self.action_history.len()
    }

    /// The premise of the current game.
    pub fn overview(&self) -> (r: &str)
        ensures
            r@ == self@.overview,
    {
        self.overview.as_str()
    }

    /// The recent turns, oldest first.
    pub fn history(&self) -> (r: &Vec<ActionHistoryItem>)
        ensures
            turn_views(r@) == self@.history,
    {
        &self.action_history
    }

    /// Records the premise of a new game.
    pub fn set_overview(&mut self, overview: String)
        ensures
            final(self)@ == (GameLoaderView { overview: overview@, history: old(self)@.history }),
    {
        proof { use_type_invariant(&*self); }
        self.overview = overview;
    }

    /// The context of a request for the player's input in the given state.
    pub fn build_context(&self, input: &str, state: &GameState) -> (r: Context)
        ensures
            r@ == (ContextView {
                overview: self@.overview,
                inventory: state@.inventory,
                history: self@.history,
                input: input@,
            }),
    {
        let items = copy_strings(state.get_inventory());
        let mut turns: Vec<ActionHistoryItem> = Vec::new();
        let mut j: usize = 0;
        while j < self.action_history.len()
            invariant
                j <= self.action_history.len(),
                turn_views(turns@) == turn_views(self.action_history@).take(j as int),
            decreases self.action_history.len() - j,
        {
            let ghost before = turns@;
            turns.push(self.action_history[j].duplicate());
            assert(turn_views(turns@) =~= turn_views(before).push(self.action_history@[j as int]@));
            assert(turn_views(turns@) =~= turn_views(self.action_history@).take(j + 1));
            j = j + 1;
        }
        assert(turn_views(self.action_history@).take(j as int) =~= turn_views(self.action_history@));
        Context::new(self.overview.clone(), items, turns, String::from_str(input))
    }

    /// Records a turn, dropping the oldest once more than `HISTORY_LIMIT` are held.
    pub fn add_action_to_history(&mut self, input: String, action: Action)
        ensures
            final(self)@ == (GameLoaderView {
                overview: old(self)@.overview,
                history: bounded_push(old(self)@.history, (input@, action@)),
            }),
    {
        proof { use_type_invariant(&*self); }
        let mut history = Vec::new();
        std::mem::swap(&mut history, &mut self.action_history);
        let ghost before = history@;
        history.push(ActionHistoryItem::new(input, action));
        assert(turn_views(history@) =~= turn_views(before).push((input@, action@)));
        if history.len() > HISTORY_LIMIT {
            history.remove(0);
            assert(turn_views(history@) =~= turn_views(before).push((input@, action@)).drop_first());
        }
        self.action_history = history;
    }

    /// Reads the service's reply to the player's input as an action. On success
    /// the turn is recorded; on failure nothing changes.
    pub fn process_reply(&mut self, input: &str, reply: &str) -> (r: Result<Action, ActionError>)
        ensures
            result_view(r) == decode_yaml(reply_body(reply@)),
            r is Ok ==> final(self)@ == (GameLoaderView {
                overview: old(self)@.overview,
                history: bounded_push(old(self)@.history, (input@, r->Ok_0@)),
            }),
            r is Err ==> final(self)@ == old(self)@,
    {
        let body = reply_text(reply);
        match Action::from_yaml(body.as_str()) {
            Ok(action) => {
                self.add_action_to_history(String::from_str(input), action.duplicate());
                Ok(action)
            },
            Err(e) => Err(e),
        }
    }
}

} // verus!
