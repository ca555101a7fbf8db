//! The trading pairs that orders may name.

use crate::text::{chars_occur_in, lowered, lowered_chars, occurs_in, same_text};
use vstd::prelude::*;

verus! {

/// The trading pairs, in the order in which they are listed.
pub open spec fn trading_pairs() -> Seq<Seq<char>> {
    seq![
        "RUNEUSDT"@,
        "BTCUSDT"@,
        "ETHUSDT"@,
        "BNBUSDT"@,
        "ADAUSDT"@,
        "DOGEUSDT"@,
        "SOLUSDT"@,
        "DOTUSDT"@,
        "MATICUSDT"@,
        "AVAXUSDT"@,
    ]
}

/// The views of a sequence of texts, in the same order.
pub open spec fn names(v: Seq<&'static str>) -> Seq<Seq<char>> {
    Seq::new(v.len(), |i: int| v[i]@)
}

/// Whether a pair is similar to what was typed: the input in lower case
/// stands somewhere in the pair's name in lower case.
pub open spec fn is_similar(pair: Seq<char>, input: Seq<char>) -> bool {
    occurs_in(lowered(input), lowered(pair))
}

/// The pairs among `pairs` that are similar to `input`, in the same order.
pub open spec fn similar_among(pairs: Seq<Seq<char>>, input: Seq<char>) -> Seq<Seq<char>>
    decreases pairs.len(),
{
    if pairs.len() == 0 {
        Seq::<Seq<char>>::empty()
    } else {
        let before = similar_among(pairs.drop_last(), input);
        if is_similar(pairs.last(), input) {
            before.push(pairs.last())
        } else {
            before
        }
    }
}

/// All trading pairs.
pub fn get_all_pairs() -> (pairs: Vec<&'static str>)
    ensures
        names(pairs@) == trading_pairs(),
{
    let mut pairs: Vec<&'static str> = Vec::new();
    pairs.push("RUNEUSDT");
    pairs.push("BTCUSDT");
    pairs.push("ETHUSDT");
    pairs.push("BNBUSDT");
    pairs.push("ADAUSDT");
    pairs.push("DOGEUSDT");
    pairs.push("SOLUSDT");
    pairs.push("DOTUSDT");
    pairs.push("MATICUSDT");
    pairs.push("AVAXUSDT");
    proof {
        assert(names(pairs@) =~= trading_pairs());
    }
    pairs
}

/// Whether `symbol` is one of the trading pairs, letter for letter.
pub fn is_valid_pair(symbol: &str) -> (valid: bool)
    ensures
        valid == trading_pairs().contains(symbol@),
{
    let pairs = get_all_pairs();
    let mut i: usize = 0;
    while i < pairs.len()
        invariant
            i <= pairs.len(),
            names(pairs@) == trading_pairs(),
            forall|j: int| 0 <= j < i ==> (#[trigger] names(pairs@)[j]) != symbol@,
        decreases pairs.len() - i,
    {
        if same_text(pairs[i], symbol) {
            proof {
                assert(names(pairs@)[i as int] == symbol@);
            }
            return true;
        }
        i += 1;
    }
    false
}

/// The trading pairs in whose name `input` stands, whatever the case of the
/// letters, in the order in which the pairs are listed.
pub fn get_similar_pairs(input: &str) -> (similar: Vec<&'static str>)
    ensures
        names(similar@) == similar_among(trading_pairs(), input@),
{
    let pairs = get_all_pairs();
    let needle = lowered_chars(input);
    let mut similar: Vec<&'static str> = Vec::new();
    let mut i: usize = 0;
    while i < pairs.len()
        invariant
            i <= pairs.len(),
            needle@ == lowered(input@),
            names(pairs@) == trading_pairs(),
            names(similar@) == similar_among(trading_pairs().take(i as int), input@),
        decreases pairs.len() - i,
    {
        let hay = lowered_chars(pairs[i]);
        let ghost before = similar@;
        proof {
            assert(trading_pairs().take(i + 1).drop_last() =~= trading_pairs().take(i as int));
            assert(trading_pairs().take(i + 1).last() == names(pairs@)[i as int]);
        }
        if chars_occur_in(&needle, &hay) {
            similar.push(pairs[i]);
            proof {
                assert(names(similar@) =~= names(before).push(pairs@[i as int]@));
            }
        }
        i += 1;
    }
    proof {
        assert(trading_pairs().take(i as int) =~= trading_pairs());
    }
    similar
}

} // verus!
