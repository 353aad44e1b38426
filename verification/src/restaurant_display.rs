//! What the restaurant screen decides without a terminal: how the cursor
//! of a choice list moves, which choice is reported, and the texts shown.

use crate::catalog::{ItemModel, ResterauntItem};
use crate::text::{join, joined, order_url, order_url_text};
use vstd::prelude::*;

verus! {

/// The keys a choice list reacts to.
#[derive(Clone, Copy, Debug, PartialEq, Eq, Structural)]
pub enum ChoiceKey {
    /// Confirms the choice under the cursor.
    Enter,
    /// Moves the cursor to the next choice.
    Down,
    /// Moves the cursor to the previous choice.
    Up,
    /// Any other key: nothing happens.
    Other,
}

/// The cursor one step further down a list of `choices_len` choices; from
/// the last choice it goes back to the first.
pub open spec fn moved_down(choice_index: usize, choices_len: usize) -> usize {
    if choice_index + 1 >= choices_len {
        0
    } else {
        (choice_index + 1) as usize
    }
}

/// The cursor one step further up a list of `choices_len` choices; from the
/// first choice it goes to the last.
pub open spec fn moved_up(choice_index: usize, choices_len: usize) -> usize {
    if choice_index > 0 {
        (choice_index - 1) as usize
    } else if choices_len > 0 {
        (choices_len - 1) as usize
    } else {
        0
    }
}

/// The cursor of a choice list, and whether the choice under it was
/// confirmed.
#[derive(Clone, Copy, Debug, PartialEq, Eq, Structural)]
pub struct ChoiceCursor {
    pub choice_index: usize,
    pub should_quit: bool,
}

impl ChoiceCursor {
    /// The cursor after `key` was pressed on a list of `choices_len`
    /// choices.
    pub open spec fn after_key(self, key: ChoiceKey, choices_len: usize) -> ChoiceCursor {
        match key {
            ChoiceKey::Enter => ChoiceCursor { should_quit: true, ..self },
            ChoiceKey::Down => ChoiceCursor {
                choice_index: moved_down(self.choice_index, choices_len),
                ..self
            },
            ChoiceKey::Up => ChoiceCursor {
                choice_index: moved_up(self.choice_index, choices_len),
                ..self
            },
            ChoiceKey::Other => self,
        }
    }

    /// The cursor after a sequence of keys, oldest first.
    pub open spec fn after_keys(self, keys: Seq<ChoiceKey>, choices_len: usize) -> ChoiceCursor
        decreases keys.len(),
    {
        if keys.len() == 0 {
            self
        } else {
            self.after_keys(keys.drop_last(), choices_len).after_key(keys.last(), choices_len)
        }
    }

    /// The cursor on the first choice, nothing confirmed.
    pub fn new() -> (cursor: Self)
        ensures
            cursor == (ChoiceCursor { choice_index: 0, should_quit: false }),
    {
        ChoiceCursor { choice_index: 0, should_quit: false }
    }

    /// Takes in one pressed key on a list of `choices_len` choices: enter
    /// confirms, down and up move the cursor and wrap around at the ends.
    pub fn choice_input_listener(&mut self, key: ChoiceKey, choices_len: usize)
        ensures
            *final(self) == old(self).after_key(key, choices_len),
    {
        match key {
            ChoiceKey::Enter => {
                self.should_quit = true;
            },
            ChoiceKey::Down => {
                if choices_len == 0 || self.choice_index >= choices_len - 1 {
                    self.choice_index = 0;
                } else {
                    self.choice_index += 1;
                }
            },
            ChoiceKey::Up => {
                if self.choice_index > 0 {
                    self.choice_index -= 1;
                } else if choices_len > 0 {
                    self.choice_index = choices_len - 1;
                }
            },
            ChoiceKey::Other => {},
        }
    }

    /// Reports the confirmed choice, if one was confirmed, and puts the
    /// cursor back on the first choice for the next question.
    pub fn take_choice(&mut self) -> (choice: Option<usize>)
        ensures
            old(self).should_quit ==> choice == Some(old(self).choice_index) && *final(self)
                == (ChoiceCursor { choice_index: 0, should_quit: false }),
            !old(self).should_quit ==> choice is None && *final(self) == *old(self),
    {
        if self.should_quit {
            let choice = self.choice_index;
            self.choice_index = 0;
            self.should_quit = false;
            Some(choice)
        } else {
            None
        }
    }
}

/// A cursor that is on one of the choices stays on one of them, whatever
/// keys are pressed: what [`ChoiceCursor::take_choice`] reports is an index
/// into the list.
pub proof fn lemma_cursor_stays_in_list(
    cursor: ChoiceCursor,
    keys: Seq<ChoiceKey>,
    choices_len: usize,
)
    requires
        cursor.choice_index < choices_len,
    ensures
        cursor.after_keys(keys, choices_len).choice_index < choices_len,
    decreases keys.len(),
{
    if keys.len() > 0 {
        lemma_cursor_stays_in_list(cursor, keys.drop_last(), choices_len);
    }
}

/// What is shown of a restaurant: its title, delivery estimate and price,
/// its category tags and the address that takes its orders.
pub open spec fn description_text(item: ItemModel) -> Seq<char> {
    item.title + " \n "@ + item.venue.estimate_range + "min - "@ + item.venue.delivery_price
        + " \n "@ + joined(item.categories(), ", "@) + " \n "@ + order_url_text(item.venue.slug)
}

/// The line of one choice: marked when the cursor is on it, indented
/// otherwise.
pub open spec fn choice_line_text(choice: Seq<char>, selected: bool) -> Seq<char> {
    if selected {
        ">> "@ + choice
    } else {
        "   "@ + choice
    }
}

/// The lines of a choice list with the cursor on `choice_index`.
pub open spec fn choice_lines_text(choices: Seq<Seq<char>>, choice_index: int) -> Seq<Seq<char>> {
    Seq::new(choices.len(), |i: int| choice_line_text(choices[i], i == choice_index))
}

/// What the top of the restaurant screen shows: the question, and below it
/// the description of the restaurant.
pub open spec fn question_text(question: Seq<char>, restaurant: ItemModel) -> Seq<char> {
    question + " \n "@ + description_text(restaurant)
}

/// Builds [`description_text`].
pub fn get_restaurant_description(restaurant: &ResterauntItem) -> (text: String)
    ensures
        text@ == description_text(restaurant@),
{
    let mut text = restaurant.title.clone();
    text.append(" \n ");
    text.append(restaurant.venue.estimate_range.as_str());
    text.append("min - ");
    text.append(restaurant.venue.delivery_price.as_str());
    text.append(" \n ");
    let tags = match restaurant.categories() {
        Some(tags) => join(tags, ", "),
        None => String::new(),
    };
    text.append(tags.as_str());
    text.append(" \n ");
    let url = order_url(&restaurant.venue.slug);
    text.append(url.as_str());
    text
}

/// Builds [`choice_lines_text`].
pub fn get_choices_element(choices: &Vec<String>, choice_index: usize) -> (lines: Vec<String>)
    ensures
        lines.deep_view() == choice_lines_text(choices.deep_view(), choice_index as int),
{
    let mut lines: Vec<String> = Vec::new();
    let mut index: usize = 0;
    while index < choices.len()
        invariant
            index <= choices.len(),
            lines.len() == index,
            forall|i: int|
                0 <= i < index ==> #[trigger] lines[i]@ == choice_line_text(
                    choices[i]@,
                    i == choice_index,
                ),
        decreases choices.len() - index,
    {
        let mut line = if index == choice_index {
            ">> ".to_owned()
        } else {
            "   ".to_owned()
        };
        line.append(choices[index].as_str());
        lines.push(line);
        index += 1;
    }
    assert(lines.deep_view() =~= choice_lines_text(choices.deep_view(), choice_index as int));
    lines
}

/// Builds [`question_text`].
pub fn get_restaurant_question(question: &str, restaurant: &ResterauntItem) -> (text: String)
    ensures
        text@ == question_text(question@, restaurant@),
{
    let mut text = question.to_owned();
    text.append(" \n ");
    let description = get_restaurant_description(restaurant);
    text.append(description.as_str());
    text
}

} // verus!
