use vstd::prelude::*;

use crate::text::{copy_strings, string_views};

verus! {

/// Abstract state of the main menu: the option labels and the highlighted index.
pub struct MainMenuView {
    pub options: Seq<Seq<char>>,
    pub selection: nat,
}

/// The index after `i` among `n` options, wrapping past the last one.
pub open spec fn next_index(i: nat, n: nat) -> nat
    recommends
        n > 0,
{
    (i + 1) % n
}

/// The index before `i` among `n` options, wrapping past the first one.
pub open spec fn prev_index(i: nat, n: nat) -> nat
    recommends
        n > 0,
{
    ((i + n - 1) % (n as int)) as nat
}

/// Moving the selection one step forward and then one step back, or back and
/// then forward, returns it to where it was, for any number of options.
pub proof fn lemma_select_round_trip(i: nat, n: nat)
    requires
        n > 0,
        i < n,
    ensures
        prev_index(next_index(i, n), n) == i,
        next_index(prev_index(i, n), n) == i,
{
    let a = i as int;
    let m = n as int;
    if a + 1 < m {
        assert((a + 1) % m == a + 1) by (nonlinear_arith)
            requires 0 <= a, a + 1 < m;
        assert((a + 1 + m - 1) % m == a) by (nonlinear_arith)
            requires 0 <= a, a + 1 < m;
    } else {
        assert((a + 1) % m == 0) by (nonlinear_arith)
            requires a + 1 == m, m > 0;
        assert((0 + m - 1) % m == a) by (nonlinear_arith)
            requires a + 1 == m, m > 0;
    }
    if a > 0 {
        assert((a + m - 1) % m == a - 1) by (nonlinear_arith)
            requires 0 < a < m;
        assert((a - 1 + 1) % m == a) by (nonlinear_arith)
            requires 0 < a < m;
    } else {
        assert((a + m - 1) % m == m - 1) by (nonlinear_arith)
            requires a == 0, m > 0;
        assert((m - 1 + 1) % m == 0) by (nonlinear_arith)
            requires m > 0;
    }
}

/// The labels the menu is created with.
pub open spec fn menu_labels() -> Seq<Seq<char>> {
    seq!["New Game"@, "Continue"@, "Settings"@, "Quit"@]
}

#[derive(Debug, PartialEq)]
pub struct MainMenuState {
    options: Vec<String>,
    selection: usize,
}

impl View for MainMenuState {
    type V = MainMenuView;

    closed spec fn view(&self) -> MainMenuView {
        MainMenuView { options: string_views(self.options@), selection: self.selection as nat }
    }
}

impl Clone for MainMenuState {
    fn clone(&self) -> (r: Self)
        ensures
            r@ == self@,
    {
        proof { use_type_invariant(self); }
        let options = copy_strings(&self.options);
        assert(options@.len() == string_views(options@).len());
        MainMenuState { options, selection: self.selection }
    }
}

impl MainMenuState {
    #[verifier::type_invariant]
    spec fn well_formed(&self) -> bool {
        0 <= self.selection < self.options.len()
    }

    /// The menu with its four options and the first one selected.
    pub fn new() -> (r: Self)
        ensures
            r@.options == menu_labels(),
            r@.selection == 0,
    {
        let options = vec![
            String::from_str("New Game"),
            String::from_str("Continue"),
            String::from_str("Settings"),
            String::from_str("Quit"),
        ];
        let r = MainMenuState { options, selection: 0 };
        assert(r@.options =~= menu_labels());
        r
    }

    /// Selects the next option, wrapping to the first.
    pub fn select_next(&mut self)
        ensures
            final(self)@.options == old(self)@.options,
            final(self)@.selection == next_index(old(self)@.selection, old(self)@.options.len()),
    {
        proof { use_type_invariant(&*self); }
        let n = self.options.len();
        self.selection = (self.selection + 1) % n;
    }

    /// Selects the previous option, wrapping to the last.
    pub fn select_prev(&mut self)
        ensures
            final(self)@.options == old(self)@.options,
            final(self)@.selection == prev_index(old(self)@.selection, old(self)@.options.len()),
    {
        proof { use_type_invariant(&*self); }
        let n = self.options.len();
        if self.selection == 0 {
            self.selection = n - 1;
        } else {
            self.selection = self.selection - 1;
        }
        proof {
            let i = old(self).selection as int;
            let m = n as int;
            if i == 0 {
                assert((i + m - 1) % m == m - 1) by (nonlinear_arith)
                    requires m > 0, i == 0;
            } else {
                assert((i + m - 1) % m == i - 1) by (nonlinear_arith)
                    requires m > 0, 0 < i < m;
            }
        }
    }

    /// The label of the selected option.
    pub fn get_selection(&self) -> (r: &str)
        ensures
            self@.selection < self@.options.len(),
            r@ == self@.options[self@.selection as int],
    {
        proof { use_type_invariant(self); }
        self.options[self.selection].as_str()
    }

    /// The option labels, in order.
    pub fn get_options(&self) -> (r: &Vec<String>)
        ensures
            string_views(r@) == self@.options,
    {
        &self.options
    }

    /// The index of the selected option.
    pub fn get_selection_index(&self) -> (r: usize)
        ensures
            r == self@.selection,
            r < self@.options.len(),
    {
        proof { use_type_invariant(self); }
        self.selection
    }
}

} // verus!
