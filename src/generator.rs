use crate::casing::{cased, four_digits, Name, TokenCase};
use crate::random::{choose_word, rand_num, thread_rng};
use crate::shape::{has_shape, is_ascii_word, lemma_formatted_shape};
use crate::words::{all_small_words, adjectives, builtin_adjectives, builtin_nouns, nouns};
use rand::rngs::ThreadRng;
use vstd::prelude::*;

verus! {

/// A random name generator which combines an adjective, a noun, and an
/// optional number.
///
/// Each call of [`Generator::next`] is a fresh draw: names may repeat, and the
/// sequence never ends while both word lists are non-empty.
pub struct Generator<'a> {
    adjectives: &'a [&'a str],
    nouns: &'a [&'a str],
    naming: Name,
    numbered: bool,
    rng: ThreadRng,
}

/// Every word of `words` is non-empty.
pub open spec fn all_non_empty(words: Seq<&str>) -> bool {
    forall|i: int| 0 <= i < words.len() ==> (#[trigger] words[i])@.len() > 0
}

/// The list is non-empty and none of its words is empty.
pub open spec fn usable_words(words: Seq<&str>) -> bool {
    words.len() > 0 && all_non_empty(words)
}

/// Why a generator cannot be built over two word lists.
#[derive(Debug, Clone, Copy, PartialEq, Eq, Structural)]
pub enum ConfigError {
    /// The adjective list is empty.
    NoAdjectives,
    /// The noun list is empty.
    NoNouns,
    /// A word of either list is empty.
    EmptyWord,
}

/// The error that `try_new` reports for these lists, if any.
pub open spec fn config_error(adjectives: Seq<&str>, nouns: Seq<&str>) -> Option<ConfigError> {
    if adjectives.len() == 0 {
        Some(ConfigError::NoAdjectives)
    } else if nouns.len() == 0 {
        Some(ConfigError::NoNouns)
    } else if !all_non_empty(adjectives) || !all_non_empty(nouns) {
        Some(ConfigError::EmptyWord)
    } else {
        None
    }
}

/// Whether every word of `words` is non-empty.
fn all_words_non_empty(words: &[&str]) -> (r: bool)
    ensures
        r == all_non_empty(words@),
{
    let mut i: usize = 0;
    while i < words.len()
        invariant
            i <= words@.len(),
            forall|j: int| 0 <= j < i ==> (#[trigger] words@[j])@.len() > 0,
        decreases words@.len() - i,
    {
        if words[i].unicode_len() == 0 {
            return false;
        }
        i = i + 1;
    }
    true
}

/// Whether a name ends in a number: always in the `Numbered` style, else as
/// `numbered` asks.
pub open spec fn has_number(naming: Name, numbered: bool) -> bool {
    naming == Name::Numbered || numbered
}

/// The name that a generator with style `naming` and number flag `numbered`
/// makes from the drawn `adjective`, `noun` and `number`.
pub open spec fn generated_name(
    naming: Name,
    numbered: bool,
    adjective: Seq<char>,
    noun: Seq<char>,
    number: u16,
) -> Seq<char> {
    naming.formatted(adjective, noun, if has_number(naming, numbered) { Some(number) } else { None })
}

/// The `Numbered` style always ends in the drawn number, whether a number was
/// asked for or not, and always joins small words with hyphens.
pub proof fn lemma_numbered_has_number(
    numbered: bool,
    adjective: Seq<char>,
    noun: Seq<char>,
    number: u16,
)
    requires
        1 <= number <= 9999,
    ensures
        generated_name(Name::Numbered, numbered, adjective, noun, number) == cased(
            TokenCase::Lower,
            adjective,
        ) + seq!['-'] + cased(TokenCase::Lower, noun) + seq!['-'] + four_digits(number as int),
{
    let name = generated_name(Name::Numbered, numbered, adjective, noun, number);
    assert(name =~= cased(TokenCase::Lower, adjective) + seq!['-'] + cased(TokenCase::Lower, noun)
        + seq!['-'] + four_digits(number as int));
}

/// A name drawn with a number asked for, in a style other than `Numbered`,
/// ends in the style's separator and the four digits of the drawn number; a
/// name drawn without one has no number.
pub proof fn lemma_flag_decides_number(
    naming: Name,
    numbered: bool,
    adjective: Seq<char>,
    noun: Seq<char>,
    number: u16,
)
    requires
        naming != Name::Numbered,
        1 <= number <= 9999,
    ensures
        numbered ==> generated_name(naming, numbered, adjective, noun, number)
            == naming.formatted(adjective, noun, None) + naming.separator() + four_digits(number as int),
        !numbered ==> generated_name(naming, numbered, adjective, noun, number)
            == naming.formatted(adjective, noun, None),
{
    assert(naming.formatted(adjective, noun, Some(number)) =~= naming.formatted(adjective, noun, None)
            + naming.separator() + four_digits(number as int));
    assert(naming.formatted(adjective, noun, None) =~= cased(naming.adjective_case(), adjective)
            + naming.separator() + cased(naming.noun_case(), noun));
}

/// A name drawn with a non-empty adjective is not empty.
pub proof fn lemma_name_not_empty(
    naming: Name,
    numbered: bool,
    adjective: Seq<char>,
    noun: Seq<char>,
    number: u16,
)
    requires
        adjective.len() > 0,
    ensures
        generated_name(naming, numbered, adjective, noun, number).len() > 0,
{
}

impl<'a> Generator<'a> {
    /// The adjectives drawn from.
    pub closed spec fn adjectives(&self) -> Seq<&'a str> {
        self.adjectives@
    }

    /// The nouns drawn from.
    pub closed spec fn nouns(&self) -> Seq<&'a str> {
        self.nouns@
    }

    /// The naming style.
    pub closed spec fn naming(&self) -> Name {
        self.naming
    }

    /// Whether a number is asked for (the `Numbered` style has one regardless).
    pub closed spec fn numbered(&self) -> bool {
        self.numbered
    }

    /// The name made from the drawn `adjective`, `noun` and `number`.
    pub open spec fn name_of(&self, adjective: Seq<char>, noun: Seq<char>, number: u16) -> Seq<char> {
        generated_name(self.naming(), self.numbered(), adjective, noun, number)
    }

    /// Whether `s` is one of the names that a call of `next` may return.
    pub open spec fn may_yield(&self, s: Seq<char>) -> bool {
        exists|a: &str, n: &str, k: u16|
            #![trigger
                self.adjectives().contains(a),
                self.nouns().contains(n),
                self.name_of(a@, n@, k),
            ]
            self.adjectives().contains(a) && self.nouns().contains(n) && 1 <= k <= 9999
                && s == self.name_of(a@, n@, k)
    }

    /// Two generators with the same word lists, style and number flag make the
    /// same name from the same draws, and may return the same names, whatever
    /// state their random sources are in: a source that repeats its draws
    /// repeats the names.
    pub proof fn lemma_same_draws_same_name(
        g1: &Self,
        g2: &Self,
        adjective: Seq<char>,
        noun: Seq<char>,
        number: u16,
    )
        requires
            g1.adjectives() == g2.adjectives(),
            g1.nouns() == g2.nouns(),
            g1.naming() == g2.naming(),
            g1.numbered() == g2.numbered(),
        ensures
            g1.name_of(adjective, noun, number) == g2.name_of(adjective, noun, number),
            forall|s: Seq<char>| g1.may_yield(s) == #[trigger] g2.may_yield(s),
    {
        assert forall|s: Seq<char>| g1.may_yield(s) == #[trigger] g2.may_yield(s) by {
            if g1.may_yield(s) {
                let (a, n, k) = choose|a: &str, n: &str, k: u16|
                    g1.adjectives().contains(a) && g1.nouns().contains(n) && 1 <= k <= 9999
                        && s == g1.name_of(a@, n@, k);
                assert(g2.name_of(a@, n@, k) == s);
            }
            if g2.may_yield(s) {
                let (a, n, k) = choose|a: &str, n: &str, k: u16|
                    g2.adjectives().contains(a) && g2.nouns().contains(n) && 1 <= k <= 9999
                        && s == g2.name_of(a@, n@, k);
                assert(g1.name_of(a@, n@, k) == s);
            }
        }
    }

    /// Both word lists can be drawn from: non-empty, and of non-empty words.
    pub open spec fn wf(&self) -> bool {
        usable_words(self.adjectives()) && usable_words(self.nouns())
    }

    /// Every name that a generator over words of ASCII small letters (such as
    /// the built-in lists) may return has the shape of its style, with a number
    /// exactly when the style or the number flag asks for one.
    pub proof fn lemma_yield_shape(g: &Self, s: Seq<char>)
        requires
            all_small_words(g.adjectives()),
            all_small_words(g.nouns()),
            g.may_yield(s),
        ensures
            has_shape(g.naming(), s, has_number(g.naming(), g.numbered())),
    {
        let (a, n, k) = choose|a: &str, n: &str, k: u16|
            g.adjectives().contains(a) && g.nouns().contains(n) && 1 <= k <= 9999
                && s == g.name_of(a@, n@, k);
        let i = choose|i: int| 0 <= i < g.adjectives().len() && g.adjectives()[i] == a;
        let j = choose|j: int| 0 <= j < g.nouns().len() && g.nouns()[j] == n;
        assert(g.adjectives()[i]@.len() > 0);
        assert(g.nouns()[j]@.len() > 0);
        assert(is_ascii_word(a@));
        assert(is_ascii_word(n@));
        let number = if has_number(g.naming(), g.numbered()) { Some(k) } else { None };
        lemma_formatted_shape(g.naming(), a@, n@, number);
    }

    /// A generator over the given word lists, which must be non-empty and
    /// hold non-empty words; [`Generator::try_new`] checks this instead.
    pub fn new(
        adjectives: &'a [&'a str],
        nouns: &'a [&'a str],
        naming: Name,
        numbered: bool,
    ) -> (r: Self)
        requires
            usable_words(adjectives@),
            usable_words(nouns@),
        ensures
            r.wf(),
            r.adjectives() == adjectives@,
            r.nouns() == nouns@,
            r.naming() == naming,
            r.numbered() == numbered,
    {
        Generator { adjectives, nouns, naming, numbered, rng: thread_rng() }
    }

    /// A generator over the given word lists, or the configuration error that
    /// makes them unusable: an empty adjective list, else an empty noun list,
    /// else an empty word.
    pub fn try_new(
        adjectives: &'a [&'a str],
        nouns: &'a [&'a str],
        naming: Name,
        numbered: bool,
    ) -> (r: Result<Self, ConfigError>)
        ensures
            r is Ok <==> config_error(adjectives@, nouns@) is None,
            r matches Err(e) ==> config_error(adjectives@, nouns@) == Some(e),
            r matches Ok(g) ==> g.wf() && g.adjectives() == adjectives@ && g.nouns() == nouns@
                && g.naming() == naming && g.numbered() == numbered,
    {
        if adjectives.len() == 0 {
            return Err(ConfigError::NoAdjectives);
        }
        if nouns.len() == 0 {
            return Err(ConfigError::NoNouns);
        }
        if !all_words_non_empty(adjectives) || !all_words_non_empty(nouns) {
            return Err(ConfigError::EmptyWord);
        }
        Ok(Generator::new(adjectives, nouns, naming, numbered))
    }

    /// A generator over the built-in word lists, without a number.
    pub fn with_naming(naming: Name) -> (r: Generator<'static>)
        ensures
            r.wf(),
            r.adjectives() == builtin_adjectives(),
            r.nouns() == builtin_nouns(),
            r.naming() == naming,
            !r.numbered(),
    {
        Generator::new(adjectives(), nouns(), naming, false)
    }

    /// A generator over the built-in word lists, with a number.
    pub fn with_numbers(naming: Name) -> (r: Generator<'static>)
        ensures
            r.wf(),
            r.adjectives() == builtin_adjectives(),
            r.nouns() == builtin_nouns(),
            r.naming() == naming,
            r.numbered(),
    {
        Generator::new(adjectives(), nouns(), naming, true)
    }

    /// Draws the next name: an adjective, a noun, and a number where one is
    /// wanted, joined in the generator's style. It always succeeds, and the
    /// word lists and the style stay as they are, so the sequence never ends.
    pub fn next(&mut self) -> (r: Option<String>)
        requires
            old(self).wf(),
        ensures
            final(self).wf(),
            final(self).adjectives() == old(self).adjectives(),
            final(self).nouns() == old(self).nouns(),
            final(self).naming() == old(self).naming(),
            final(self).numbered() == old(self).numbered(),
            r matches Some(s) && s@.len() > 0 && old(self).may_yield(s@),
    {
        let adjective = match choose_word(self.adjectives, &mut self.rng) {
            Some(a) => a,
            None => return None,
        };
        let noun = match choose_word(self.nouns, &mut self.rng) {
            Some(n) => n,
            None => return None,
        };
        let first = if self.numbered {
            Some(rand_num(&mut self.rng))
        } else {
            None
        };
        let number = if self.naming == Name::Numbered {
            Some(rand_num(&mut self.rng))
        } else {
            first
        };
        let name = self.naming.format(adjective, noun, number);
        proof {
            let k = match number {
                Some(k) => k,
                None => 1u16,
            };
            assert(old(self).adjectives().contains(adjective));
            assert(old(self).nouns().contains(noun));
            assert(name@ == old(self).name_of(adjective@, noun@, k));
            lemma_name_not_empty(self.naming, self.numbered, adjective@, noun@, k);
        }
        Some(name)
    }
}

impl<'a> Generator<'a> {
    /// The next `amount` names, drawn one after another.
    pub fn take(&mut self, amount: usize) -> (r: Vec<String>)
        requires
            old(self).wf(),
        ensures
            final(self).wf(),
            final(self).adjectives() == old(self).adjectives(),
            final(self).nouns() == old(self).nouns(),
            final(self).naming() == old(self).naming(),
            final(self).numbered() == old(self).numbered(),
            r@.len() == amount,
            forall|i: int| 0 <= i < r@.len() ==> (#[trigger] r@[i])@.len() > 0 && old(self).may_yield(r@[i]@),
    {
        let mut names: Vec<String> = Vec::new();
        let mut i: usize = 0;
        while i < amount
            invariant
                self.wf(),
                self.adjectives() == old(self).adjectives(),
                self.nouns() == old(self).nouns(),
                self.naming() == old(self).naming(),
                self.numbered() == old(self).numbered(),
                i <= amount,
                names@.len() == i,
                forall|j: int| 0 <= j < names@.len() ==> (#[trigger] names@[j])@.len() > 0 && old(self).may_yield(names@[j]@),
            decreases amount - i,
        {
            let ghost before = *self;
            match self.next() {
                Some(name) => {
                    proof {
                        Generator::lemma_same_draws_same_name(&before, old(self), name@, name@, 1);
                    }
                    names.push(name);
                },
                None => {},
            }
            i = i + 1;
        }
        names
    }
}

impl<'a> Default for Generator<'a> {
    /// A generator over the built-in word lists, in kebab case, without a number.
    fn default() -> (r: Generator<'a>)
        ensures
            r.wf(),
            r.adjectives() == builtin_adjectives(),
            r.nouns() == builtin_nouns(),
            r.naming() == Name::KebabCase,
            !r.numbered(),
    {
        Generator::new(adjectives(), nouns(), Name::KebabCase, false)
    }
}

} // verus!
