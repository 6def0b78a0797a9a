//! Actions: what a rule says once it speaks.

use vstd::prelude::*;
use vstd::string::StringExecFns;
use crate::text::decimal;
use crate::text::number_text;

verus! {

/// Says a fixed word, whatever the number.
pub struct StringAction {
    output: String,
}

impl StringAction {
    /// The word that is said.
    pub closed spec fn text(&self) -> Seq<char> {
        self.output@
    }

    pub fn new(output: &str) -> (action: Self)
        ensures
            action.text() == output@,
    {
        StringAction { output: String::from_str(output) }
    }

    pub fn say(&self, number: u32) -> (said: String)
        ensures
            said@ == self.text(),
    {
        self.output.clone()
    }
}

/// Says the number itself.
pub struct NumberAction;

impl NumberAction {
    pub fn say(&self, number: u32) -> (said: String)
        ensures
            said@ == decimal(number as nat),
    {
        number_text(number)
    }
}

/// Any of the actions.
pub enum Action {
    Text(StringAction),
    Number(NumberAction),
}

impl Action {
    pub open spec fn spec_say(&self, number: u32) -> Seq<char> {
        match self {
            Action::Text(a) => a.text(),
            Action::Number(_) => decimal(number as nat),
        }
    }

    pub fn say(&self, number: u32) -> (said: String)
        ensures
            said@ == self.spec_say(number),
    {
        match self {
            Action::Text(a) => a.say(number),
            Action::Number(a) => a.say(number),
        }
    }
}

} // verus!
