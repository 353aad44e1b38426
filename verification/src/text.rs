//! The texts of a session: the questions with their answers, the notice and
//! the final message.

use vstd::prelude::*;

verus! {

/// Index of the answer "yes": it accepts a restaurant or likes a category.
pub const CHOICE_YES: usize = 0;

/// Index of the answer "no": it rejects a restaurant or dislikes a category.
pub const CHOICE_NO: usize = 1;

/// The address under which a restaurant with the given slug takes orders.
pub open spec fn order_url_text(slug: Seq<char>) -> Seq<char> {
    "https://wolt.com/en/isr/tel-aviv/restaurant/"@ + slug
}

/// The message that closes a session on the accepted restaurant.
pub open spec fn end_message_text(title: Seq<char>, slug: Seq<char>) -> Seq<char> {
    title + " it is!, go visit "@ + order_url_text(slug) + " to order!"@
}

/// The question asked about a restaurant.
pub open spec fn restaurant_question_text() -> Seq<char> {
    "Do you want to eat here?"@
}

/// The question asked about a category.
pub open spec fn category_question_text(category: Seq<char>) -> Seq<char> {
    "are you in the mood for "@ + category + " today?"@
}

/// The notice shown when no restaurant is left to offer.
pub open spec fn empty_pool_notice_text() -> Seq<char> {
    "no matching restaurants — resetting filters"@
}

/// The answers to the question about a restaurant.
pub open spec fn restaurant_choices_text() -> Seq<Seq<char>> {
    seq!["yes"@, "no"@]
}

/// The answers to the question about a category.
pub open spec fn category_choices_text() -> Seq<Seq<char>> {
    seq!["yes"@, "no"@, "skip"@]
}

/// The parts one after the other, with `separator` between neighbours.
pub open spec fn joined(parts: Seq<Seq<char>>, separator: Seq<char>) -> Seq<char>
    decreases parts.len(),
{
    if parts.len() == 0 {
        Seq::empty()
    } else if parts.len() == 1 {
        parts[0]
    } else {
        joined(parts.drop_last(), separator) + separator + parts.last()
    }
}

/// Builds [`order_url_text`].
pub fn order_url(slug: &String) -> (url: String)
    ensures
        url@ == order_url_text(slug@),
{
    let mut url = "https://wolt.com/en/isr/tel-aviv/restaurant/".to_owned();
    url.append(slug.as_str());
    url
}

/// Builds [`end_message_text`].
pub fn end_message(title: &String, slug: &String) -> (message: String)
    ensures
        message@ == end_message_text(title@, slug@),
{
    let mut message = title.clone();
    message.append(" it is!, go visit ");
    let url = order_url(slug);
    message.append(url.as_str());
    message.append(" to order!");
    message
}

/// Builds [`restaurant_question_text`].
pub fn restaurant_question() -> (question: String)
    ensures
        question@ == restaurant_question_text(),
{
    "Do you want to eat here?".to_owned()
}

/// Builds [`category_question_text`].
pub fn category_question(category: &String) -> (question: String)
    ensures
        question@ == category_question_text(category@),
{
    let mut question = "are you in the mood for ".to_owned();
    question.append(category.as_str());
    question.append(" today?");
    question
}

/// Builds [`empty_pool_notice_text`].
pub fn empty_pool_notice() -> (notice: String)
    ensures
        notice@ == empty_pool_notice_text(),
{
    "no matching restaurants — resetting filters".to_owned()
}

/// Builds [`restaurant_choices_text`].
pub fn restaurant_choices() -> (choices: Vec<String>)
    ensures
        choices.deep_view() == restaurant_choices_text(),
{
    let mut choices: Vec<String> = Vec::new();
    choices.push("yes".to_owned());
    choices.push("no".to_owned());
    assert(choices.deep_view() =~= restaurant_choices_text());
    choices
}

/// Builds [`category_choices_text`].
pub fn category_choices() -> (choices: Vec<String>)
    ensures
        choices.deep_view() == category_choices_text(),
{
    let mut choices: Vec<String> = Vec::new();
    choices.push("yes".to_owned());
    choices.push("no".to_owned());
    choices.push("skip".to_owned());
    assert(choices.deep_view() =~= category_choices_text());
    choices
}

/// Builds [`joined`].
pub fn join(parts: &Vec<String>, separator: &str) -> (text: String)
    ensures
        text@ == joined(parts.deep_view(), separator@),
{
    let mut text = String::new();
    let ghost all = parts.deep_view();
    let mut i: usize = 0;
    while i < parts.len()
        invariant
            i <= parts.len(),
            all == parts.deep_view(),
            text@ == joined(all.take(i as int), separator@),
        decreases parts.len() - i,
    {
        proof {
            assert(all.take(i + 1).drop_last() =~= all.take(i as int));
            assert(all.take(i + 1).last() == parts[i as int]@);
        }
        if i > 0 {
            text.append(separator);
        }
        text.append(parts[i].as_str());
        i += 1;
    }
    assert(all.take(i as int) =~= all);
    text
}

} // verus!
