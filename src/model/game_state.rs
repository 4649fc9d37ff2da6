use vstd::prelude::*;

use crate::text::{copy_strings, pop_char, push_char, string_views};

verus! {

/// The most characters the player's entry line can hold.
pub const ENTRY_CAPACITY: usize = 100;

/// Title of the scene a fresh game opens on, before the first scene arrives.
pub const OPENING_TITLE: &'static str = "New Game";

/// Description of the scene a fresh game opens on, before the first scene arrives.
pub const OPENING_DESCRIPTION: &'static str = "You are in a dark room. There is a door to the north. There is a door to the south. There is a door to the east. There is a door to the west. There is a door to the up. There is a door to the down. There is a door to the northeast. There is a door to the northwest. There is a door to the southeast. There is a door to the southwest. There is a door to the in. There is a door to the out. There is a door to the left.";

/// Abstract state of a game in progress.
pub struct GameStateView {
    pub inventory: Seq<Seq<char>>,
    pub scene_name: Seq<char>,
    pub scene_desc: Seq<char>,
    pub user_entry: Seq<char>,
    pub entry_enabled: bool,
    pub scene_history: Seq<Seq<char>>,
    pub scroll_position: nat,
}

/// The line that records a submitted entry in the scene history: `"> "` and the entry.
pub open spec fn echo_line(entry: Seq<char>) -> Seq<char> {
    seq!['>', ' '] + entry
}

/// The state a new game starts in, before its first scene arrives.
pub open spec fn opening_state() -> GameStateView {
    GameStateView {
        inventory: Seq::empty(),
        scene_name: OPENING_TITLE@,
        scene_desc: OPENING_DESCRIPTION@,
        user_entry: Seq::empty(),
        entry_enabled: true,
        scene_history: Seq::empty(),
        scroll_position: 0,
    }
}

impl GameStateView {
    /// A typed character joins the entry unless the entry is full.
    pub open spec fn with_char(self, c: char) -> Self {
        if self.user_entry.len() >= ENTRY_CAPACITY {
            self
        } else {
            GameStateView { user_entry: self.user_entry.push(c), ..self }
        }
    }

    /// Backspace drops the last character of the entry, if any.
    pub open spec fn with_backspace(self) -> Self {
        if self.user_entry.len() == 0 {
            self
        } else {
            GameStateView { user_entry: self.user_entry.drop_last(), ..self }
        }
    }

    /// A line joins the end of the history and the view returns to the bottom.
    pub open spec fn with_history_line(self, line: Seq<char>) -> Self {
        GameStateView { scene_history: self.scene_history.push(line), scroll_position: 0, ..self }
    }

    /// The entry is echoed into the history and cleared.
    pub open spec fn with_entry_submitted(self) -> Self {
        GameStateView { user_entry: Seq::empty(), ..self.with_history_line(echo_line(self.user_entry)) }
    }

    /// The history view returns to the bottom.
    pub open spec fn scrolled_to_bottom(self) -> Self {
        GameStateView { scroll_position: 0, ..self }
    }

    /// The history view moves `n` lines up, saturating at the largest offset.
    pub open spec fn scrolled_up(self, n: nat) -> Self {
        let p = self.scroll_position + n;
        GameStateView {
            scroll_position: if p > usize::MAX { usize::MAX as nat } else { p },
            ..self
        }
    }

    /// The history view moves `n` lines down, never below the bottom.
    pub open spec fn scrolled_down(self, n: nat) -> Self {
        GameStateView {
            scroll_position: if n > self.scroll_position { 0 } else { (self.scroll_position - n) as nat },
            ..self
        }
    }

    /// A new scene replaces title and description, empties the history and enables entry.
    pub open spec fn with_scene(self, name: Seq<char>, desc: Seq<char>) -> Self {
        GameStateView {
            scene_name: name,
            scene_desc: desc,
            entry_enabled: true,
            scene_history: Seq::empty(),
            scroll_position: 0,
            ..self
        }
    }

    /// The item joins the end of the inventory.
    pub open spec fn with_item(self, item: Seq<char>) -> Self {
        GameStateView { inventory: self.inventory.push(item), ..self }
    }

    /// Every copy of the item leaves the inventory; the others keep their order.
    pub open spec fn without_item(self, item: Seq<char>) -> Self {
        GameStateView { inventory: self.inventory.filter(|s: Seq<char>| s != item), ..self }
    }

    pub open spec fn with_entry_enabled(self, enabled: bool) -> Self {
        GameStateView { entry_enabled: enabled, ..self }
    }
}

/// Scrolling up and then down by the same amount returns the view to where it
/// was, unless scrolling up saturated; scrolling down and then up by an amount
/// no larger than the offset does too; and scrolling down stops at the bottom.
pub proof fn lemma_scroll_round_trip(s: GameStateView, n: nat)
    ensures
        s.scroll_position + n <= usize::MAX ==> s.scrolled_up(n).scrolled_down(n) == s,
        n <= s.scroll_position <= usize::MAX ==> s.scrolled_down(n).scrolled_up(n) == s,
        n > s.scroll_position ==> s.scrolled_down(n).scroll_position == 0,
        s.scrolled_down(n).scroll_position <= s.scroll_position,
{
}

#[derive(Debug, PartialEq)]
pub struct GameState {
    inventory: Vec<String>,
    scene_name: String,
    scene_desc: String,
    user_entry: String,
    entry_enabled: bool,
    scene_history: Vec<String>,
    scroll_position: usize,
}

impl View for GameState {
    type V = GameStateView;

    closed spec fn view(&self) -> GameStateView {
        GameStateView {
            inventory: string_views(self.inventory@),
            scene_name: self.scene_name@,
            scene_desc: self.scene_desc@,
            user_entry: self.user_entry@,
            entry_enabled: self.entry_enabled,
            scene_history: string_views(self.scene_history@),
            scroll_position: self.scroll_position as nat,
        }
    }
}

impl Clone for GameState {
    fn clone(&self) -> (r: Self)
        ensures
            r@ == self@,
    {
        proof { use_type_invariant(self); }
        let inventory = copy_strings(&self.inventory);
        let scene_history = copy_strings(&self.scene_history);
        GameState {
            inventory,
            scene_name: self.scene_name.clone(),
            scene_desc: self.scene_desc.clone(),
            user_entry: self.user_entry.clone(),
            entry_enabled: self.entry_enabled,
            scene_history,
            scroll_position: self.scroll_position,
        }
    }
}

impl GameState {
    #[verifier::type_invariant]
    spec fn well_formed(&self) -> bool {
        self.user_entry@.len() <= ENTRY_CAPACITY
    }

    /// A fresh game on its placeholder scene, with entry enabled.
    pub fn new() -> (r: Self)
        ensures
            r@ == opening_state(),
    {
        let r = GameState {
            inventory: Vec::new(),
            scene_name: String::from_str(OPENING_TITLE),
            scene_desc: String::from_str(OPENING_DESCRIPTION),
            user_entry: String::new(),
            entry_enabled: true,
            scene_history: Vec::new(),
            scroll_position: 0,
        };
        assert(r@.inventory =~= Seq::empty());
        assert(r@.scene_history =~= Seq::empty());
        assert(r@.user_entry =~= Seq::empty());
        r
    }

    /// The entry never holds more than `ENTRY_CAPACITY` characters.
    pub fn entry_len(&self) -> (r: usize)
        ensures
            r == self@.user_entry.len(),
            r <= ENTRY_CAPACITY,
    {
        proof { use_type_invariant(self); }
        self.user_entry.as_str().unicode_len()
    }

    /// Adds a typed character to the entry, unless the entry is full.
    pub fn append_entry(&mut self, c: char)
        ensures
            final(self)@ == old(self)@.with_char(c),
    {
        proof { use_type_invariant(&*self); }
        if self.entry_len() >= ENTRY_CAPACITY {
            return;
        }
        let mut entry = String::new();
        std::mem::swap(&mut entry, &mut self.user_entry);
        push_char(&mut entry, c);
        self.user_entry = entry;
    }

    /// Removes the last character of the entry, if any.
    pub fn remove_last_entry(&mut self)
        ensures
            final(self)@ == old(self)@.with_backspace(),
    {
        proof { use_type_invariant(&*self); }
        let mut entry = String::new();
        std::mem::swap(&mut entry, &mut self.user_entry);
        pop_char(&mut entry);
        self.user_entry = entry;
    }

    /// Echoes the entry into the history as `"> "` and the entry, and clears it.
    pub fn push_input_to_history(&mut self)
        ensures
            final(self)@ == old(self)@.with_entry_submitted(),
    {
        proof { use_type_invariant(&*self); }
        let mut line = String::from_str("> ");
        line.append(self.user_entry.as_str());
        proof {
            reveal_strlit("> ");
            assert(seq!['>', ' '] =~= "> "@);
        }
        self.append_scene_history(line);
        self.user_entry = String::new();
    }

    /// Adds a line to the end of the history and scrolls to the bottom.
    pub fn append_scene_history(&mut self, s: String)
        ensures
            final(self)@ == old(self)@.with_history_line(s@),
    {
        proof { use_type_invariant(&*self); }
        let mut history = Vec::new();
        std::mem::swap(&mut history, &mut self.scene_history);
        history.push(s);
        self.scene_history = history;
        self.scroll_reset();
        assert(string_views(self.scene_history@) =~= string_views(old(self).scene_history@).push(s@));
    }

    /// Moves the history view up by `amount` lines.
    pub fn scroll_up(&mut self, amount: usize)
        ensures
            final(self)@ == old(self)@.scrolled_up(amount as nat),
    {
        proof { use_type_invariant(&*self); }
        self.scroll_position = self.scroll_position.saturating_add(amount);
    }

    /// Moves the history view down by `amount` lines, stopping at the bottom.
    pub fn scroll_down(&mut self, amount: usize)
        ensures
            final(self)@ == old(self)@.scrolled_down(amount as nat),
    {
        proof { use_type_invariant(&*self); }
        if amount > self.scroll_position {
            self.scroll_position = 0;
            return;
        }
        self.scroll_position = self.scroll_position - amount;
    }

    /// Moves the history view to the bottom.
    pub fn scroll_reset(&mut self)
        ensures
            final(self)@ == old(self)@.scrolled_to_bottom(),
    {
        proof { use_type_invariant(&*self); }
        self.scroll_position = 0;
    }

    /// Starts a new scene: new title and description, empty history, entry enabled.
    pub fn new_scene(&mut self, name: String, desc: String)
        ensures
            final(self)@ == old(self)@.with_scene(name@, desc@),
    {
        proof { use_type_invariant(&*self); }
        self.scene_name = name;
        self.scene_desc = desc;
        self.entry_enabled = true;
        self.scene_history = Vec::new();
        self.scroll_reset();
        assert(string_views(self.scene_history@) =~= Seq::empty());
    }

    /// Adds an item to the end of the inventory.
    pub fn add_to_inventory(&mut self, item: String)
        ensures
            final(self)@ == old(self)@.with_item(item@),
    {
        proof { use_type_invariant(&*self); }
        let mut inventory = Vec::new();
        std::mem::swap(&mut inventory, &mut self.inventory);
        inventory.push(item);
        self.inventory = inventory;
        assert(string_views(self.inventory@) =~= string_views(old(self).inventory@).push(item@));
    }

    /// Removes every copy of an item from the inventory.
    pub fn remove_from_inventory(&mut self, item: String)
        ensures
            final(self)@ == old(self)@.without_item(item@),
    {
        proof { use_type_invariant(&*self); }
        let ghost keep = |s: Seq<char>| s != item@;
        let ghost all = string_views(self.inventory@);
        let mut kept: Vec<String> = Vec::new();
        let mut i: usize = 0;
        while i < self.inventory.len()
            invariant
                i <= self.inventory.len(),
                all == string_views(self.inventory@),
                keep == (|s: Seq<char>| s != item@),
                string_views(kept@) == all.take(i as int).filter(keep),
            decreases self.inventory.len() - i,
        {
            proof {
                assert(all.take(i + 1) =~= all.take(i as int).push(all[i as int]));
                all.take(i as int).lemma_filter_push(all[i as int], keep);
                assert(all[i as int] == self.inventory@[i as int]@);
            }
            if !(self.inventory[i] == item) {
                let ghost before = kept@;
                kept.push(self.inventory[i].clone());
                assert(keep(all[i as int]));
                assert(string_views(kept@) =~= string_views(before).push(all[i as int]));
            } else {
                assert(!keep(all[i as int]));
            }
            assert(string_views(kept@) == all.take(i + 1).filter(keep));
            i = i + 1;
        }
        assert(all.take(i as int) =~= all);
        self.inventory = kept;
    }

    /// Stops the player from typing.
    pub fn disable_entry(&mut self)
        ensures
            final(self)@ == old(self)@.with_entry_enabled(false),
    {
        proof { use_type_invariant(&*self); }
        self.entry_enabled = false;
    }

    /// Lets the player type again.
    pub fn enable_entry(&mut self)
        ensures
            final(self)@ == old(self)@.with_entry_enabled(true),
    {
        proof { use_type_invariant(&*self); }
        self.entry_enabled = true;
    }

    /// Whether the player may type.
    pub fn is_entry_enabled(&self) -> (r: bool)
        ensures
            r == self@.entry_enabled,
    {
        self.entry_enabled
    }

    /// How many lines above the bottom the history view is.
    pub fn get_scroll_position(&self) -> (r: usize)
        ensures
            r == self@.scroll_position,
    {
        self.scroll_position
    }

    /// What the player has typed so far.
    pub fn get_user_entry(&self) -> (r: &str)
        ensures
            r@ == self@.user_entry,
    {
        self.user_entry.as_str()
    }

    /// The title of the current scene.
    pub fn get_scene_title(&self) -> (r: &str)
        ensures
            r@ == self@.scene_name,
    {
        self.scene_name.as_str()
    }

    /// The description of the current scene.
    pub fn get_scene_desc(&self) -> (r: &str)
        ensures
            r@ == self@.scene_desc,
    {
        self.scene_desc.as_str()
    }

    /// The narrative lines of the current scene, oldest first.
    pub fn get_scene_history(&self) -> (r: &Vec<String>)
        ensures
            string_views(r@) == self@.scene_history,
    {
        &self.scene_history
    }

    /// The items held, in the order they were acquired.
    pub fn get_inventory(&self) -> (r: &Vec<String>)
        ensures
            string_views(r@) == self@.inventory,
    {
        &self.inventory
    }
}

} // verus!
