//! A list of options that the player moves through with the arrow keys
//! and picks from with Enter, and the gender menu built on it.
use crate::models::gender::{display_name_spec, from_display_spec, lemma_display_round_trip, Gender};
use crate::input::Key;
use crate::text::concat;
use vstd::prelude::*;

verus! {

broadcast use vstd::string::group_string_axioms;

/// A menu: a prompt, its options, which option is highlighted, and whether
/// the prompt is still to be typed out letter by letter (only the first
/// time the menu is drawn).
pub struct Menu {
    pub message: String,
    pub options: Vec<String>,
    pub selected_index: usize,
    pub use_simulate_typing: bool,
}

/// What a key press did to a menu.
#[derive(Debug, Clone, Copy, PartialEq, Eq, Structural)]
pub enum MenuOutcome {
    /// The highlight may have moved; the menu is drawn again.
    Moved,
    /// Enter picked the option at this index.
    Chosen(usize),
    /// Another key left the menu without a choice.
    Abandoned,
}

/// The line drawn for the option at `i` when `selected` is highlighted.
pub open spec fn option_line(option: Seq<char>, i: int, selected: int) -> Seq<char> {
    if i == selected {
        "> "@ + option
    } else {
        "  "@ + option
    }
}

/// Where the highlight is after `key`, in a menu of `len` options.
pub open spec fn index_after(selected: int, len: int, key: Key) -> int {
    if key == Key::Up {
        if selected > 0 {
            selected - 1
        } else {
            selected
        }
    } else if key == Key::Down {
        if selected + 1 < len {
            selected + 1
        } else {
            selected
        }
    } else {
        selected
    }
}

/// The highlight never leaves the list: from an option of a non-empty menu,
/// any key leaves it on an option.
pub proof fn lemma_highlight_stays_in_list(selected: int, len: int, key: Key)
    requires
        0 <= selected < len,
    ensures
        0 <= index_after(selected, len, key) < len,
{
}

impl Menu {
    /// A menu with the first option highlighted, to be typed out when first
    /// drawn.
    pub fn new(message: String, options: Vec<String>) -> (m: Menu)
        ensures
            m.message == message,
            m.options == options,
            m.selected_index == 0,
            m.use_simulate_typing,
    {
        Menu { message, options, selected_index: 0, use_simulate_typing: true }
    }

    /// Up moves the highlight up unless it is at the top, Down moves it down
    /// unless it is at the bottom; either way the menu is drawn again, now
    /// without typing. Enter chooses the highlighted option; any other key
    /// leaves the menu.
    pub fn handle_key(&mut self, key: Key) -> (r: MenuOutcome)
        requires
            key == Key::Down ==> old(self).options@.len() > 0,
        ensures
            final(self).message == old(self).message,
            final(self).options == old(self).options,
            final(self).selected_index == index_after(
                old(self).selected_index as int,
                old(self).options@.len() as int,
                key,
            ),
            key == Key::Up ==> r == MenuOutcome::Moved && !final(self).use_simulate_typing
                && final(self).selected_index == if old(self).selected_index > 0 {
                (old(self).selected_index - 1) as usize
            } else {
                old(self).selected_index
            },
            key == Key::Down ==> r == MenuOutcome::Moved && !final(self).use_simulate_typing
                && final(self).selected_index == if old(self).selected_index + 1 < old(
                self,
            ).options@.len() {
                (old(self).selected_index + 1) as usize
            } else {
                old(self).selected_index
            },
            key == Key::Enter ==> r == MenuOutcome::Chosen(old(self).selected_index) && *final(self)
                == *old(self),
            (key != Key::Up && key != Key::Down && key != Key::Enter) ==> r == MenuOutcome::Abandoned
                && *final(self) == *old(self),
    {
        match key {
            Key::Up => {
                if self.selected_index > 0 {
                    self.selected_index = self.selected_index - 1;
                }
                self.use_simulate_typing = false;
                MenuOutcome::Moved
            },
            Key::Down => {
                if self.selected_index < self.options.len() - 1 {
                    self.selected_index = self.selected_index + 1;
                }
                self.use_simulate_typing = false;
                MenuOutcome::Moved
            },
            Key::Enter => MenuOutcome::Chosen(self.selected_index),
            _ => MenuOutcome::Abandoned,
        }
    }

    /// The option lines as drawn: the highlighted one marked with `> `, the
    /// others indented by two spaces.
    pub fn lines(&self) -> (r: Vec<String>)
        ensures
            r@.len() == self.options@.len(),
            forall|i: int|
                0 <= i < r@.len() ==> #[trigger] r@[i]@ == option_line(
                    self.options@[i]@,
                    i,
                    self.selected_index as int,
                ),
    {
        let mut r: Vec<String> = Vec::new();
        let mut i: usize = 0;
        while i < self.options.len()
            invariant
                i <= self.options@.len(),
                r@.len() == i,
                forall|j: int|
                    0 <= j < i ==> #[trigger] r@[j]@ == option_line(
                        self.options@[j]@,
                        j,
                        self.selected_index as int,
                    ),
            decreases self.options@.len() - i,
        {
            let line = if i == self.selected_index {
                concat("> ", self.options[i].as_str())
            } else {
                concat("  ", self.options[i].as_str())
            };
            r.push(line);
            i = i + 1;
        }
        r
    }
}

/// The genders in the order the gender menu lists them.
pub open spec fn gender_at(i: int) -> Gender {
    if i == 0 {
        Gender::Male
    } else if i == 1 {
        Gender::Female
    } else {
        Gender::Unspecified
    }
}

/// The gender menu: the three genders by their shown names, Male first.
pub fn gender_menu() -> (m: Menu)
    ensures
        m.message@ == "Please select your gender:"@,
        m.options@.len() == 3,
        forall|i: int| 0 <= i < 3 ==> #[trigger] m.options@[i]@ == display_name_spec(gender_at(i)),
        m.selected_index == 0,
        m.use_simulate_typing,
{
    let mut options: Vec<String> = Vec::new();
    options.push(Gender::Male.display_name().to_owned());
    options.push(Gender::Female.display_name().to_owned());
    options.push(Gender::Unspecified.display_name().to_owned());
    Menu::new("Please select your gender:".to_owned(), options)
}

/// The gender a menu outcome settles on: the chosen option read back as a
/// shown name; leaving the menu counts as unspecified.
pub fn gender_from_outcome(menu: &Menu, outcome: MenuOutcome) -> (g: Option<Gender>)
    requires
        outcome matches MenuOutcome::Chosen(i) ==> i < menu.options@.len(),
    ensures
        outcome matches MenuOutcome::Chosen(i) ==> g == Some(from_display_spec(menu.options@[i as int]@)),
        outcome == MenuOutcome::Abandoned ==> g == Some(Gender::Unspecified),
        outcome == MenuOutcome::Moved ==> g is None,
{
    match outcome {
        MenuOutcome::Chosen(i) => Some(Gender::from_string(menu.options[i].as_str())),
        MenuOutcome::Abandoned => Some(Gender::Unspecified),
        MenuOutcome::Moved => None,
    }
}

/// In the gender menu, the highlight never leaves the list, and choosing
/// the option at `i` gives the `i`-th gender.
pub proof fn lemma_gender_menu_choice(m: Menu, i: int)
    requires
        m.options@.len() == 3,
        forall|j: int| 0 <= j < 3 ==> #[trigger] m.options@[j]@ == display_name_spec(gender_at(j)),
        0 <= i < 3,
    ensures
        from_display_spec(m.options@[i]@) == gender_at(i),
{
    lemma_display_round_trip(gender_at(i));
}

} // verus!
