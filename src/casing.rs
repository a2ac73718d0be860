use vstd::prelude::*;

verus! {

/// A naming style: how the adjective, the noun and an optional number are
/// cased and joined.
#[derive(Debug, Clone, Copy, PartialEq, Eq, Structural)]
pub enum Name {
    /// `adjective-noun`
    Plain,
    /// `adjective-noun-1234`: the generator always appends a number
    Numbered,
    /// `Adjective Noun`
    TitleCase,
    /// `adjectiveNoun`
    CamelCase,
    /// `AdjectiveNoun`
    ClassCase,
    /// `adjective-noun`
    KebabCase,
    /// `Adjective-Noun`
    TrainCase,
    /// `ADJECTIVE_NOUN`
    ScreamingSnakeCase,
    /// `adjective_noun`
    TableCase,
    /// `Adjective noun`
    SentenceCase,
    /// `adjective_noun`
    SnakeCase,
    /// `AdjectiveNoun`
    PascalCase,
}

/// How one token is cased.
#[derive(Debug, Clone, Copy, PartialEq, Eq, Structural)]
pub enum TokenCase {
    /// every letter small
    Lower,
    /// every letter capital
    Upper,
    /// the first letter capital, the rest small
    Capital,
}

/// Maps an ASCII capital letter to its small letter; any other character is kept.
pub open spec fn lower_char(c: char) -> char {
    if 'A' <= c && c <= 'Z' {
        ((c as u32) + 32) as char
    } else {
        c
    }
}

/// Maps an ASCII small letter to its capital letter; any other character is kept.
pub open spec fn upper_char(c: char) -> char {
    if 'a' <= c && c <= 'z' {
        ((c as u32) - 32) as char
    } else {
        c
    }
}

/// The token `s` in case `k`.
pub open spec fn cased(k: TokenCase, s: Seq<char>) -> Seq<char> {
    Seq::new(
        s.len(),
        |i: int|
            if k == TokenCase::Upper || (k == TokenCase::Capital && i == 0) {
                upper_char(s[i])
            } else {
                lower_char(s[i])
            },
    )
}

/// The decimal digit `d` (0 to 9) as a character.
pub open spec fn digit_char(d: int) -> char {
    ((d + 48) as u32) as char
}

/// `n` (0 to 9999) in exactly four decimal digits, padded with zeros.
pub open spec fn four_digits(n: int) -> Seq<char> {
    let below_thousand = n % 1000;
    let below_hundred = below_thousand % 100;
    seq![
        digit_char(n / 1000),
        digit_char(below_thousand / 100),
        digit_char(below_hundred / 10),
        digit_char(below_hundred % 10),
    ]
}

impl Name {
    /// The case of the adjective under this style.
    pub open spec fn adjective_case(self) -> TokenCase {
        match self {
            Name::TitleCase | Name::ClassCase | Name::TrainCase | Name::SentenceCase
            | Name::PascalCase => TokenCase::Capital,
            Name::ScreamingSnakeCase => TokenCase::Upper,
            _ => TokenCase::Lower,
        }
    }

    /// The case of the noun under this style.
    pub open spec fn noun_case(self) -> TokenCase {
        match self {
            Name::TitleCase | Name::CamelCase | Name::ClassCase | Name::TrainCase
            | Name::PascalCase => TokenCase::Capital,
            Name::ScreamingSnakeCase => TokenCase::Upper,
            _ => TokenCase::Lower,
        }
    }

    /// What stands between the adjective and the noun, and before a number.
    pub open spec fn separator(self) -> Seq<char> {
        match self {
            Name::Plain | Name::Numbered | Name::KebabCase | Name::TrainCase => seq!['-'],
            Name::TitleCase | Name::SentenceCase => seq![' '],
            Name::ScreamingSnakeCase | Name::TableCase | Name::SnakeCase => seq!['_'],
            Name::CamelCase | Name::ClassCase | Name::PascalCase => seq![],
        }
    }

    /// The number's part of a name: the separator and four digits, or nothing.
    pub open spec fn suffix(self, number: Option<u16>) -> Seq<char> {
        match number {
            Some(k) => self.separator() + four_digits(k as int),
            None => seq![],
        }
    }

    /// The name made of `adjective`, `noun` and `number` in this style.
    pub open spec fn formatted(self, adjective: Seq<char>, noun: Seq<char>, number: Option<u16>) -> Seq<char> {
        cased(self.adjective_case(), adjective) + self.separator() + cased(self.noun_case(), noun)
            + self.suffix(number)
    }
}

/// Relies on String::push: the character is added at the end.
#[verifier::external_body]
fn push_char(s: &mut String, c: char)
    ensures
        final(s)@ == old(s)@.push(c),
{
    s.push(c)
}

fn to_lower_char(c: char) -> (r: char)
    ensures
        r == lower_char(c),
{
    if 'A' <= c && c <= 'Z' {
        ((c as u8) + 32) as char
    } else {
        c
    }
}

fn to_upper_char(c: char) -> (r: char)
    ensures
        r == upper_char(c),
{
    if 'a' <= c && c <= 'z' {
        ((c as u8) - 32) as char
    } else {
        c
    }
}

/// Appends the token `s`, cased as `k`, to `out`.
fn push_cased(out: &mut String, k: TokenCase, s: &str)
    ensures
        final(out)@ == old(out)@ + cased(k, s@),
{
    let n = s.unicode_len();
    let ghost start = out@;
    let mut i: usize = 0;
    while i < n
        invariant
            n == s@.len(),
            i <= n,
            out@ == start + cased(k, s@).take(i as int),
        decreases n - i,
    {
        let c = s.get_char(i);
        let d = if k == TokenCase::Upper || (k == TokenCase::Capital && i == 0) {
            to_upper_char(c)
        } else {
            to_lower_char(c)
        };
        push_char(out, d);
        assert(cased(k, s@).take(i + 1) =~= cased(k, s@).take(i as int).push(d));
        i = i + 1;
    }
    assert(cased(k, s@).take(n as int) =~= cased(k, s@));
}

/// Appends `d` (0 to 9) as a digit to `out`.
fn push_digit(out: &mut String, d: u16)
    requires
        d <= 9,
    ensures
        final(out)@ == old(out)@.push(digit_char(d as int)),
{
    push_char(out, ((d as u8) + 48) as char);
}

/// Appends `n` (0 to 9999) in four digits to `out`.
fn push_four_digits(out: &mut String, n: u16)
    requires
        n <= 9999,
    ensures
        final(out)@ == old(out)@ + four_digits(n as int),
{
    let ghost start = out@;
    let below_thousand = n % 1000;
    let below_hundred = below_thousand % 100;
    push_digit(out, n / 1000);
    push_digit(out, below_thousand / 100);
    push_digit(out, below_hundred / 10);
    push_digit(out, below_hundred % 10);
    assert(out@ =~= start + four_digits(n as int));
}

/// Appends the separator of `style` to `out`.
fn push_separator(out: &mut String, style: Name)
    ensures
        final(out)@ == old(out)@ + style.separator(),
{
    let ghost start = out@;
    match style {
        Name::Plain | Name::Numbered | Name::KebabCase | Name::TrainCase => push_char(out, '-'),
        Name::TitleCase | Name::SentenceCase => push_char(out, ' '),
        Name::ScreamingSnakeCase | Name::TableCase | Name::SnakeCase => push_char(out, '_'),
        Name::CamelCase | Name::ClassCase | Name::PascalCase => {},
    }
    assert(out@ =~= start + style.separator());
}

/// The style that `s` names, by the variant's own name.
pub open spec fn named_style(s: Seq<char>) -> Result<Name, ()> {
    if s == "Plain"@ {
        Ok(Name::Plain)
    } else if s == "Numbered"@ {
        Ok(Name::Numbered)
    } else if s == "TitleCase"@ {
        Ok(Name::TitleCase)
    } else if s == "CamelCase"@ {
        Ok(Name::CamelCase)
    } else if s == "ClassCase"@ {
        Ok(Name::ClassCase)
    } else if s == "KebabCase"@ {
        Ok(Name::KebabCase)
    } else if s == "TrainCase"@ {
        Ok(Name::TrainCase)
    } else if s == "ScreamingSnakeCase"@ {
        Ok(Name::ScreamingSnakeCase)
    } else if s == "TableCase"@ {
        Ok(Name::TableCase)
    } else if s == "SentenceCase"@ {
        Ok(Name::SentenceCase)
    } else if s == "SnakeCase"@ {
        Ok(Name::SnakeCase)
    } else if s == "PascalCase"@ {
        Ok(Name::PascalCase)
    } else {
        Err(())
    }
}

/// Whether `a` and `b` hold the same characters.
fn same_text(a: &str, b: &str) -> (r: bool)
    ensures
        r == (a@ == b@),
{
    let n = a.unicode_len();
    if n != b.unicode_len() {
        return false;
    }
    let mut i: usize = 0;
    while i < n
        invariant
            n == a@.len(),
            n == b@.len(),
            i <= n,
            forall|j: int| 0 <= j < i ==> a@[j] == b@[j],
        decreases n - i,
    {
        if a.get_char(i) != b.get_char(i) {
            return false;
        }
        i = i + 1;
    }
    assert(a@ =~= b@);
    true
}

impl Name {
    /// Parses a style from the name of its variant (`"KebabCase"`); any other
    /// text is refused.
    pub fn from_str(input: &str) -> (r: Result<Name, ()>)
        ensures
            r == named_style(input@),
    {
        if same_text(input, "Plain") {
            Ok(Name::Plain)
        } else if same_text(input, "Numbered") {
            Ok(Name::Numbered)
        } else if same_text(input, "TitleCase") {
            Ok(Name::TitleCase)
        } else if same_text(input, "CamelCase") {
            Ok(Name::CamelCase)
        } else if same_text(input, "ClassCase") {
            Ok(Name::ClassCase)
        } else if same_text(input, "KebabCase") {
            Ok(Name::KebabCase)
        } else if same_text(input, "TrainCase") {
            Ok(Name::TrainCase)
        } else if same_text(input, "ScreamingSnakeCase") {
            Ok(Name::ScreamingSnakeCase)
        } else if same_text(input, "TableCase") {
            Ok(Name::TableCase)
        } else if same_text(input, "SentenceCase") {
            Ok(Name::SentenceCase)
        } else if same_text(input, "SnakeCase") {
            Ok(Name::SnakeCase)
        } else if same_text(input, "PascalCase") {
            Ok(Name::PascalCase)
        } else {
            Err(())
        }
    }

    /// Joins `adjective`, `noun` and, when given, `number` in this style.
    pub fn format(&self, adjective: &str, noun: &str, number: Option<u16>) -> (r: String)
        requires
            number matches Some(k) ==> k <= 9999,
        ensures
            r@ == self.formatted(adjective@, noun@, number),
    {
        let mut out = String::new();
        push_cased(&mut out, self.adjective_case_of(), adjective);
        push_separator(&mut out, *self);
        push_cased(&mut out, self.noun_case_of(), noun);
        match number {
            Some(k) => {
                push_separator(&mut out, *self);
                push_four_digits(&mut out, k);
            },
            None => {},
        }
        assert(out@ =~= self.formatted(adjective@, noun@, number));
        out
    }

    fn adjective_case_of(&self) -> (r: TokenCase)
        ensures
            r == self.adjective_case(),
    {
        match self {
            Name::TitleCase | Name::ClassCase | Name::TrainCase | Name::SentenceCase
            | Name::PascalCase => TokenCase::Capital,
            Name::ScreamingSnakeCase => TokenCase::Upper,
            _ => TokenCase::Lower,
        }
    }

    fn noun_case_of(&self) -> (r: TokenCase)
        ensures
            r == self.noun_case(),
    {
        match self {
            Name::TitleCase | Name::CamelCase | Name::ClassCase | Name::TrainCase
            | Name::PascalCase => TokenCase::Capital,
            Name::ScreamingSnakeCase => TokenCase::Upper,
            _ => TokenCase::Lower,
        }
    }
}

impl Default for Name {
    /// Kebab case.
    fn default() -> (r: Name)
        ensures
            r == Name::KebabCase,
    {
        Name::KebabCase
    }
}

impl std::str::FromStr for Name {
    type Err = ();

    fn from_str(input: &str) -> Result<Name, ()> {
        Name::from_str(input)
    }
}

} // verus!
