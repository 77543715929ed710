//! The inline keyboard that offers search results for selection.

use teloxide::types::{InlineKeyboardButton, InlineKeyboardMarkup};
use vstd::prelude::*;

verus! {

#[verifier::external_type_specification]
#[verifier::external_body]
pub struct ExInlineKeyboardMarkup(teloxide::types::InlineKeyboardMarkup);

/// The buttons of an inline keyboard, row by row from the top, each as its
/// label and the callback data it sends when pressed.
pub uninterp spec fn markup_rows(markup: InlineKeyboardMarkup) -> Seq<Seq<(Seq<char>, Seq<char>)>>;

/// `InlineKeyboardMarkup::new`, given no rows, makes the keyboard without
/// rows.
#[verifier::external_body]
pub(crate) fn empty_markup() -> (markup: InlineKeyboardMarkup)
    ensures
        markup_rows(markup) == Seq::<Seq<(Seq<char>, Seq<char>)>>::empty(),
{
    InlineKeyboardMarkup::new(Vec::<Vec<InlineKeyboardButton>>::new())
}

/// `InlineKeyboardMarkup::append_row` puts one more row below the rows that
/// the keyboard has and leaves those as they are. The row given here holds
/// one button, made by `InlineKeyboardButton::callback`, which stores
/// `label` as the button's text and `token` as its callback data.
#[verifier::external_body]
pub(crate) fn append_choice(markup: InlineKeyboardMarkup, label: String, token: String) -> (extended:
    InlineKeyboardMarkup)
    ensures
        markup_rows(extended) == markup_rows(markup).push(seq![(label@, token@)]),
{
    markup.append_row([InlineKeyboardButton::callback(label, token)])
}

} // verus!
