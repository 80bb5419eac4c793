//! The menu: its views, what its buttons do, and the leaderboard.

use vstd::prelude::*;
use vstd::relations::{sorted_by, total_ordering};
use vstd::seq_lib::lemma_sorted_unique;
use crate::config::TOP_SCORES;
use crate::game::{Game, GameView};
use crate::state::{AppState, Score, Scores};

verus! {

/// The view of the menu that is open.
#[derive(Clone, Copy, Debug, PartialEq, Eq, Hash, Structural)]
pub enum MenuState {
    Disabled,
    Scores,
    Main,
}

/// What a button of the menu asks for.
#[derive(Clone, Copy, Debug, PartialEq, Eq, Structural)]
pub enum MenuButtonAction {
    Play,
    Scores,
    BackToMain,
    Quit,
}

/// What the pointer does to a button.
#[derive(Clone, Copy, Debug, PartialEq, Eq, Structural)]
pub enum Interaction {
    Clicked,
    Hovered,
    Idle,
}

/// The shade in which a button is drawn.
#[derive(Clone, Copy, Debug, PartialEq, Eq, Structural)]
pub enum ButtonColor {
    Normal,
    Hovered,
    HoveredPressed,
    Pressed,
}

/// The shade of a button: pressed while it is clicked or selected,
/// lighter while the pointer is over it.
pub open spec fn shade(interaction: Interaction, selected: bool) -> ButtonColor {
    match (interaction, selected) {
        (Interaction::Clicked, _) => ButtonColor::Pressed,
        (Interaction::Idle, true) => ButtonColor::Pressed,
        (Interaction::Hovered, true) => ButtonColor::HoveredPressed,
        (Interaction::Hovered, false) => ButtonColor::Hovered,
        (Interaction::Idle, false) => ButtonColor::Normal,
    }
}

/// Picks the shade of one button.
pub fn button_color(interaction: Interaction, selected: bool) -> (color: ButtonColor)
    ensures
        color == shade(interaction, selected),
{
    match (interaction, selected) {
        (Interaction::Clicked, _) | (Interaction::Idle, true) => ButtonColor::Pressed,
        (Interaction::Hovered, true) => ButtonColor::HoveredPressed,
        (Interaction::Hovered, false) => ButtonColor::Hovered,
        (Interaction::Idle, false) => ButtonColor::Normal,
    }
}

/// Picks the shade of each button whose interaction has changed.
pub fn button_system(buttons: &Vec<(Interaction, bool)>) -> (colors: Vec<ButtonColor>)
    ensures
        colors@ == buttons@.map_values(|b: (Interaction, bool)| shade(b.0, b.1)),
{
    let mut colors: Vec<ButtonColor> = Vec::new();
    let mut i: usize = 0;
    while i < buttons.len()
        invariant
            i <= buttons.len(),
            colors.len() == i,
            forall|j: int| 0 <= j < i ==> colors[j] == shade(buttons[j].0, buttons[j].1),
        decreases buttons.len() - i,
    {
        let (interaction, selected) = buttons[i];
        colors.push(button_color(interaction, selected));
        i = i + 1;
    }
    assert(colors@ =~= buttons@.map_values(|b: (Interaction, bool)| shade(b.0, b.1)));
    colors
}

impl GameView {
    /// The game after the menu has come up: its main view is open.
    pub open spec fn menu_setup(self) -> GameView {
        GameView { menu_state: MenuState::Main, ..self }
    }

    /// The game after a run has been started: the menu is closed, the
    /// score is zero, and the arena's walls and the run's bubbles are
    /// on the screen.
    pub open spec fn play(self) -> GameView {
        (GameView {
            app_state: AppState::Game,
            menu_state: MenuState::Disabled,
            score: Score { score: 0 },
            ..self
        }).add_walls().bubble_spawn()
    }

    /// The game after a button of the menu has been clicked. Outside
    /// the menu a click does nothing, and neither does the quit button,
    /// which is for the application to obey.
    pub open spec fn pressed(self, action: MenuButtonAction) -> GameView {
        if self.app_state == AppState::Menu {
            match action {
                MenuButtonAction::Quit => self,
                MenuButtonAction::Play => self.play(),
                MenuButtonAction::Scores => GameView { menu_state: MenuState::Scores, ..self },
                MenuButtonAction::BackToMain => GameView { menu_state: MenuState::Main, ..self },
            }
        } else {
            self
        }
    }

    /// The game after the buttons have been seen to, in their order:
    /// each that is clicked does its action.
    pub open spec fn action(self, buttons: Seq<(Interaction, MenuButtonAction)>) -> GameView
        decreases buttons.len(),
    {
        if buttons.len() == 0 {
            self
        } else {
            let before = self.action(buttons.drop_last());
            if buttons.last().0 == Interaction::Clicked {
                before.pressed(buttons.last().1)
            } else {
                before
            }
        }
    }

    /// One of the buttons, clicked while the menu was up, is the quit
    /// button.
    pub open spec fn quit_asked(self, buttons: Seq<(Interaction, MenuButtonAction)>) -> bool
        decreases buttons.len(),
    {
        if buttons.len() == 0 {
            false
        } else {
            let before = self.action(buttons.drop_last());
            self.quit_asked(buttons.drop_last()) || (before.app_state == AppState::Menu
                && buttons.last().0 == Interaction::Clicked && buttons.last().1
                == MenuButtonAction::Quit)
        }
    }
}

impl Game {
    /// Opens the main view of the menu.
    pub fn menu_setup_system(&mut self)
        ensures
            final(self)@ == old(self)@.menu_setup(),
            old(self)@.wf() ==> final(self)@.wf(),
    {
        self.menu_state = MenuState::Main;
    }

    /// Starts a run.
    pub fn play(&mut self)
        requires
            old(self)@.wf(),
        ensures
            final(self)@ == old(self)@.play(),
            final(self)@.wf(),
    {
        self.app_state = AppState::Game;
        self.menu_state = MenuState::Disabled;
        self.score_system();
        self.add_walls_system();
        self.bubble_spawn_system();
    }

    /// Does what a clicked button of the menu asks for, and tells
    /// whether that is to quit.
    pub fn press(&mut self, action: MenuButtonAction) -> (quit: bool)
        requires
            old(self)@.wf(),
        ensures
            final(self)@ == old(self)@.pressed(action),
            final(self)@.wf(),
            quit == (old(self).app_state == AppState::Menu && action == MenuButtonAction::Quit),
    {
        if self.app_state == AppState::Menu {
            match action {
                MenuButtonAction::Quit => {
                    return true;
                },
                MenuButtonAction::Play => {
                    self.play();
                },
                MenuButtonAction::Scores => {
                    self.menu_state = MenuState::Scores;
                },
                MenuButtonAction::BackToMain => {
                    self.menu_state = MenuState::Main;
                },
            }
        }
        false
    }

    /// Sees to the buttons whose interaction has changed, and tells
    /// whether the quit button was among those clicked.
    pub fn action_system(&mut self, buttons: &Vec<(Interaction, MenuButtonAction)>) -> (quit: bool)
        requires
            old(self)@.wf(),
        ensures
            final(self)@ == old(self)@.action(buttons@),
            final(self)@.wf(),
            quit == old(self)@.quit_asked(buttons@),
    {
        let mut quit = false;
        let mut i: usize = 0;
        while i < buttons.len()
            invariant
                i <= buttons.len(),
                self@.wf(),
                self@ == old(self)@.action(buttons@.take(i as int)),
                quit == old(self)@.quit_asked(buttons@.take(i as int)),
            decreases buttons.len() - i,
        {
            assert(buttons@.take(i + 1).drop_last() =~= buttons@.take(i as int));
            let (interaction, action) = buttons[i];
            if interaction == Interaction::Clicked {
                let asked = self.press(action);
                quit = quit || asked;
            }
            i = i + 1;
        }
        assert(buttons@.take(buttons.len() as int) =~= buttons@);
        quit
    }
}

/// The scores stand from the lowest to the highest.
pub open spec fn ascending(scores: Seq<usize>) -> bool {
    sorted_by(scores, |a: usize, b: usize| a <= b)
}

/// The scores that the leaderboard shows, given all scores from the
/// lowest to the highest: the highest few, the highest first.
pub open spec fn podium(sorted: Seq<usize>) -> Seq<usize> {
    Seq::new(
        if sorted.len() < TOP_SCORES {
            sorted.len()
        } else {
            TOP_SCORES as nat
        },
        |i: int| sorted[sorted.len() - 1 - i],
    )
}

/// The leaderboard shows as many scores as there are, up to
/// `TOP_SCORES`; it shows them from the highest down; and no score left
/// out is higher than one that is shown.
pub proof fn law_podium_holds_the_highest(sorted: Seq<usize>)
    requires
        ascending(sorted),
    ensures
        podium(sorted).len() == if sorted.len() < TOP_SCORES {
            sorted.len()
        } else {
            TOP_SCORES as nat
        },
        forall|i: int, j: int|
            0 <= i < j < podium(sorted).len() ==> podium(sorted)[i] >= podium(sorted)[j],
        forall|i: int, k: int|
            0 <= i < podium(sorted).len() && 0 <= k < sorted.len() - podium(sorted).len()
                ==> sorted[k] <= podium(sorted)[i],
{
    let leq = |a: usize, b: usize| a <= b;
    assert forall|i: int, j: int| 0 <= i < j < podium(sorted).len() implies podium(sorted)[i]
        >= podium(sorted)[j] by {
        assert(leq(sorted[sorted.len() - 1 - j], sorted[sorted.len() - 1 - i]));
    }
    assert forall|i: int, k: int|
        0 <= i < podium(sorted).len() && 0 <= k < sorted.len() - podium(sorted).len()
            implies sorted[k] <= podium(sorted)[i] by {
        assert(leq(sorted[k], sorted[sorted.len() - 1 - i]));
    }
}

/// What the leaderboard shows is settled by the scores alone: two ways
/// of putting the same scores in ascending order give the same list.
pub proof fn law_podium_is_settled(scores: Seq<usize>, first: Seq<usize>, second: Seq<usize>)
    requires
        ascending(first),
        ascending(second),
        first.to_multiset() == scores.to_multiset(),
        second.to_multiset() == scores.to_multiset(),
    ensures
        first == second,
        podium(first) == podium(second),
{
    let leq = |a: usize, b: usize| a <= b;
    assert(total_ordering(leq));
    lemma_sorted_unique(first, second, leq);
}

/// Sorts the list with `sort` of std's slices, which orders `usize` from
/// the lowest to the highest and keeps every element, each as often as it
/// was there.
#[verifier::external_body]
fn sort_scores(list: &mut Vec<usize>)
    ensures
        ascending(final(list)@),
        final(list)@.to_multiset() == old(list)@.to_multiset(),
{
    list.sort();
}

impl Scores {
    /// Sorts the scores from the lowest to the highest and returns the
    /// highest few, the highest first, as the leaderboard shows them.
    pub fn top_scores(&mut self) -> (top: Vec<usize>)
        ensures
            ascending(final(self)@),
            final(self)@.to_multiset() == old(self)@.to_multiset(),
            top@ == podium(final(self)@),
    {
        sort_scores(&mut self.score_list);
        let n = self.score_list.len();
        let mut top: Vec<usize> = Vec::new();
        let mut position: usize = 0;
        while position < TOP_SCORES && position < n
            invariant
                n == self.score_list.len(),
                position <= TOP_SCORES,
                position <= n,
                top.len() == position,
                forall|j: int| 0 <= j < position ==> top[j] == self.score_list[n - 1 - j],
            decreases TOP_SCORES - position,
        {
            top.push(self.score_list[n - position - 1]);
            position = position + 1;
        }
        assert(top@ =~= podium(self.score_list@));
        top
    }
}

} // verus!
