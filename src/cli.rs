use crate::casing::{named_style, Name};
use crate::generator::Generator;
use crate::words::{builtin_adjectives, builtin_nouns};
use vstd::prelude::*;

verus! {

/// What the command line asks for.
pub struct Args {
    /// Adds a random number to the names.
    pub number: bool,
    /// The naming style, by the name of its variant.
    pub strategy: String,
    /// How many names to print.
    pub amount: usize,
}

impl Args {
    /// The naming style that `strategy` names.
    pub fn naming(&self) -> (r: Name)
        requires
            named_style(self.strategy@) is Ok,
        ensures
            named_style(self.strategy@) == Ok::<Name, ()>(r),
    {
        Name::from_str(self.strategy.as_str()).unwrap()
    }

    /// A generator over the built-in word lists in the chosen style, with a
    /// number when `number` asks for one.
    pub fn generator(&self) -> (r: Generator<'static>)
        requires
            named_style(self.strategy@) is Ok,
        ensures
            named_style(self.strategy@) == Ok::<Name, ()>(r.naming()),
            r.numbered() == self.number,
            r.wf(),
            r.adjectives() == builtin_adjectives(),
            r.nouns() == builtin_nouns(),
    {
        if self.number {
            Generator::with_numbers(self.naming())
        } else {
            Generator::with_naming(self.naming())
        }
    }
}

} // verus!
