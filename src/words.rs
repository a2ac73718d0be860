use crate::shape::is_small;
use vstd::prelude::*;

verus! {

/// Every word of `words` is a non-empty word of ASCII small letters.
pub open spec fn all_small_words(words: Seq<&str>) -> bool {
    forall|i: int|
        0 <= i < words.len() ==> (#[trigger] words[i])@.len() > 0 && forall|j: int|
            0 <= j < words[i]@.len() ==> is_small(#[trigger] words[i]@[j])
}

/// The built-in adjectives.
pub open spec fn builtin_adjectives() -> Seq<&'static str> {
    seq![
        "amber", "brisk", "candid", "cheerful", "clever", "cosmic", "dapper", "daring",
        "earnest", "fearless", "gallant", "hardy", "jaunty", "mellow", "nimble",
        "plucky",
    ]
}

/// The built-in adjectives: [`builtin_adjectives`].
pub fn adjectives() -> (r: &'static [&'static str])
    ensures
        r@ == builtin_adjectives(),
        r@.len() > 0,
        all_small_words(r@),
{
    let r: &'static [&'static str] = &[
        "amber", "brisk", "candid", "cheerful", "clever", "cosmic", "dapper", "daring",
        "earnest", "fearless", "gallant", "hardy", "jaunty", "mellow", "nimble",
        "plucky",
    ];
    proof {
        reveal_strlit("amber");
        reveal_strlit("brisk");
        reveal_strlit("candid");
        reveal_strlit("cheerful");
        reveal_strlit("clever");
        reveal_strlit("cosmic");
        reveal_strlit("dapper");
        reveal_strlit("daring");
        reveal_strlit("earnest");
        reveal_strlit("fearless");
        reveal_strlit("gallant");
        reveal_strlit("hardy");
        reveal_strlit("jaunty");
        reveal_strlit("mellow");
        reveal_strlit("nimble");
        reveal_strlit("plucky");
    }
    assert(r@ =~= builtin_adjectives());
    r
}

/// The built-in nouns.
pub open spec fn builtin_nouns() -> Seq<&'static str> {
    seq![
        "acorn", "badger", "beacon", "biscuit", "canyon", "comet", "ember", "falcon",
        "geyser", "heron", "lantern", "marmot", "otter", "pebble", "tortoise",
        "walrus",
    ]
}

/// The built-in nouns: [`builtin_nouns`].
pub fn nouns() -> (r: &'static [&'static str])
    ensures
        r@ == builtin_nouns(),
        r@.len() > 0,
        all_small_words(r@),
{
    let r: &'static [&'static str] = &[
        "acorn", "badger", "beacon", "biscuit", "canyon", "comet", "ember", "falcon",
        "geyser", "heron", "lantern", "marmot", "otter", "pebble", "tortoise",
        "walrus",
    ];
    proof {
        reveal_strlit("acorn");
        reveal_strlit("badger");
        reveal_strlit("beacon");
        reveal_strlit("biscuit");
        reveal_strlit("canyon");
        reveal_strlit("comet");
        reveal_strlit("ember");
        reveal_strlit("falcon");
        reveal_strlit("geyser");
        reveal_strlit("heron");
        reveal_strlit("lantern");
        reveal_strlit("marmot");
        reveal_strlit("otter");
        reveal_strlit("pebble");
        reveal_strlit("tortoise");
        reveal_strlit("walrus");
    }
    assert(r@ =~= builtin_nouns());
    r
}

} // verus!
