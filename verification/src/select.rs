use vstd::prelude::*;
use crate::command::strs;

verus! {

/// The outcome of offering options: nothing to choose from, a single option
/// that needs no question, or a question for the user.
#[derive(Debug, PartialEq, Eq)]
pub enum Selection {
    Nothing,
    Only(String),
    Ask { prompt: String, options: Vec<String> },
}

/// What an offer of `options` under `prompt` comes to: no option gives
/// nothing, one option is taken as it is, and more are put to the user.
pub open spec fn selection_v(prompt: Seq<char>, options: Seq<Seq<char>>, r: Selection) -> bool {
    if options.len() == 0 {
        r is Nothing
    } else if options.len() == 1 {
        r matches Selection::Only(s) && s@ == options[0]
    } else {
        r matches Selection::Ask { prompt: p, options: o } && p@ == prompt && strs(o@) == options
    }
}

/// Offers `options` under `prompt`: with none there is nothing to pick, with
/// one it is picked without asking, with more the user is asked.
pub fn select_option(prompt: &str, options: Vec<String>) -> (r: Selection)
    ensures
        selection_v(prompt@, strs(options@), r),
{
    if options.len() == 0 {
        Selection::Nothing
    } else if options.len() == 1 {
        Selection::Only(options[0].clone())
    } else {
        Selection::Ask { prompt: prompt.to_owned(), options }
    }
}

} // verus!
