//! The decision whether an alert fires on the prices gathered for it.
//!
//! Everything here is a function of its arguments: no clock, no store, no
//! network.  Percentages are compared in whole numbers of units, so each
//! decision is exact.

use crate::decimal::{Decimal, MAX_UNITS, SCALE};
use crate::models::{
    sample_views, AlertCondition, AlertType, AlertTypeView, CryptoPrice, CryptoPriceView,
    PriceAlert, PriceAlertView,
};
use crate::text::{contains_text, texts};
use vstd::prelude::*;

verus! {

/// The distance between two numbers.
pub open spec fn abs_diff(a: nat, b: nat) -> nat {
    if a >= b {
        (a - b) as nat
    } else {
        (b - a) as nat
    }
}

/// Whether a price meets a condition on a target: strictly above it, or
/// strictly below it.
pub open spec fn condition_met(condition: AlertCondition, target: nat, price: nat) -> bool {
    match condition {
        AlertCondition::Above => price > target,
        AlertCondition::Below => price < target,
    }
}

/// Whether `value` deviates from `reference` by more than `differential`
/// percent, all three in units of a hundred-millionth.
///
/// With `v`, `r` and `d` the numbers that the units stand for, this is
/// `|v - r| / r * 100 > d`, multiplied through by `r` so that nothing is
/// divided.
pub open spec fn deviates(value: nat, reference: nat, differential: nat) -> bool {
    abs_diff(value, reference) * 100 * SCALE > differential * reference
}

/// Whether the ratio of the prices `a` and `b` deviates from `expected` by
/// more than `differential` percent; never if `b` is zero, where there is no
/// ratio.
///
/// With `e` and `d` the numbers that `expected` and `differential` stand for,
/// this is `|a / b - e| / e * 100 > d`, multiplied through by `e * b`.
pub open spec fn ratio_deviates(a: nat, b: nat, expected: nat, differential: nat) -> bool {
    b > 0 && abs_diff((a * SCALE) as nat, expected * b) * 100 * SCALE > differential * (expected * b)
}

/// Whether sample `i` is the first one for `symbol`.
pub open spec fn is_first_for(samples: Seq<CryptoPriceView>, symbol: Seq<char>, i: int) -> bool {
    &&& 0 <= i < samples.len()
    &&& samples[i].symbol == symbol
    &&& forall|j: int| 0 <= j < i ==> (#[trigger] samples[j]).symbol != symbol
}

/// The price of the first sample for `symbol`, if there is one.
pub open spec fn first_price(samples: Seq<CryptoPriceView>, symbol: Seq<char>) -> Option<nat> {
    if exists|i: int| is_first_for(samples, symbol, i) {
        Some(samples[choose|i: int| is_first_for(samples, symbol, i)].price)
    } else {
        None
    }
}

/// Whether a sample counts for a depeg alert: it is for the alert's symbol and
/// comes from one of the alert's venues.
pub open spec fn counts_for_depeg(
    sample: CryptoPriceView,
    symbol: Seq<char>,
    exchanges: Seq<Seq<char>>,
) -> bool {
    sample.symbol == symbol && exchanges.contains(sample.exchange)
}

/// The largest distance from `target` among the prices of the samples that
/// count; `None` if no sample counts.
pub open spec fn max_deviation(
    samples: Seq<CryptoPriceView>,
    symbol: Seq<char>,
    exchanges: Seq<Seq<char>>,
    target: nat,
) -> Option<nat>
    decreases samples.len(),
{
    if samples.len() == 0 {
        None
    } else {
        let before = max_deviation(samples.drop_last(), symbol, exchanges, target);
        let last = samples.last();
        if counts_for_depeg(last, symbol, exchanges) {
            let distance = abs_diff(last.price, target);
            match before {
                Some(m) => Some(if distance > m {
                    distance
                } else {
                    m
                }),
                None => Some(distance),
            }
        } else {
            before
        }
    }
}

/// Whether a depeg alert fires: some sample counts, and the largest distance
/// from the target is more than `differential` percent of the target.
pub open spec fn depeg_fires(
    samples: Seq<CryptoPriceView>,
    symbol: Seq<char>,
    exchanges: Seq<Seq<char>>,
    target: nat,
    differential: nat,
) -> bool {
    match max_deviation(samples, symbol, exchanges, target) {
        Some(m) => m * 100 * SCALE > differential * target,
        None => false,
    }
}

/// Whether a pair alert fires: both tokens have a price, and their ratio
/// deviates from the expected one by more than `differential` percent.
pub open spec fn pair_fires(
    samples: Seq<CryptoPriceView>,
    token1: Seq<char>,
    token2: Seq<char>,
    expected: nat,
    differential: nat,
) -> bool {
    match (first_price(samples, token1), first_price(samples, token2)) {
        (Some(a), Some(b)) => ratio_deviates(a, b, expected, differential),
        _ => false,
    }
}

/// Whether an alert fires on the samples gathered for it.
pub open spec fn triggers(alert: PriceAlertView, samples: Seq<CryptoPriceView>) -> bool {
    match alert.alert_type {
        AlertTypeView::Price { target_price, condition } => match first_price(
            samples,
            alert.symbol,
        ) {
            Some(price) => condition_met(condition, target_price, price),
            None => false,
        },
        AlertTypeView::Depeg { target_price, differential, exchanges } => depeg_fires(
            samples,
            alert.symbol,
            exchanges,
            target_price,
            differential,
        ),
        AlertTypeView::PairDepeg { token1, token2, expected_ratio, differential } => pair_fires(
            samples,
            token1,
            token2,
            expected_ratio,
            differential,
        ),
    }
}

/// A price condition holds exactly when the price lies strictly on the named
/// side of the target; a price equal to the target meets neither condition.
pub proof fn law_price_condition(target: nat, price: nat)
    ensures
        condition_met(AlertCondition::Above, target, price) == (price > target),
        condition_met(AlertCondition::Below, target, price) == (price < target),
        price == target ==> !condition_met(AlertCondition::Above, target, price) && !condition_met(
            AlertCondition::Below,
            target,
            price,
        ),
{
}

/// There is at most one first sample for a symbol.
pub proof fn lemma_first_is_unique(samples: Seq<CryptoPriceView>, symbol: Seq<char>, i: int)
    requires
        is_first_for(samples, symbol, i),
    ensures
        first_price(samples, symbol) == Some(samples[i].price),
{
    let k = choose|k: int| is_first_for(samples, symbol, k);
    if k < i {
        assert(samples[k].symbol != symbol);
    }
    if i < k {
        assert(samples[i].symbol != symbol);
    }
}

/// A depeg alert fires exactly when some sample that counts deviates from the
/// target by more than the differential.
pub proof fn law_depeg_fires_on_some_sample(
    samples: Seq<CryptoPriceView>,
    symbol: Seq<char>,
    exchanges: Seq<Seq<char>>,
    target: nat,
    differential: nat,
)
    ensures
        depeg_fires(samples, symbol, exchanges, target, differential) <==> exists|i: int|
            0 <= i < samples.len() && counts_for_depeg(#[trigger] samples[i], symbol, exchanges)
                && deviates(samples[i].price, target, differential),
    decreases samples.len(),
{
    let some_deviates = |s: Seq<CryptoPriceView>|
        exists|i: int|
            0 <= i < s.len() && counts_for_depeg(#[trigger] s[i], symbol, exchanges) && deviates(
                s[i].price,
                target,
                differential,
            );
    if samples.len() > 0 {
        let init = samples.drop_last();
        let last = samples.last();
        law_depeg_fires_on_some_sample(init, symbol, exchanges, target, differential);
        lemma_max_is_reached(samples, symbol, exchanges, target);
        lemma_max_is_reached(init, symbol, exchanges, target);
        let bound = differential * target;
        if depeg_fires(samples, symbol, exchanges, target, differential) {
            let m = max_deviation(samples, symbol, exchanges, target)->0;
            let i = choose|i: int|
                0 <= i < samples.len() && counts_for_depeg(#[trigger] samples[i], symbol, exchanges)
                    && abs_diff(samples[i].price, target) == m;
            assert(deviates(samples[i].price, target, differential));
        }
        if some_deviates(samples) {
            let i = choose|i: int|
                0 <= i < samples.len() && counts_for_depeg(#[trigger] samples[i], symbol, exchanges)
                    && deviates(samples[i].price, target, differential);
            let m = max_deviation(samples, symbol, exchanges, target)->0;
            let d = abs_diff(samples[i].price, target);
            assert(d <= m);
            assert(m * 100 * SCALE >= d * 100 * SCALE) by (nonlinear_arith)
                requires
                    d <= m,
            ;
        }
    }
}

/// The largest distance is the distance of some sample that counts, and no
/// sample that counts lies farther from the target.
pub proof fn lemma_max_is_reached(
    samples: Seq<CryptoPriceView>,
    symbol: Seq<char>,
    exchanges: Seq<Seq<char>>,
    target: nat,
)
    ensures
        max_deviation(samples, symbol, exchanges, target) is None <==> forall|i: int|
            0 <= i < samples.len() ==> !counts_for_depeg(#[trigger] samples[i], symbol, exchanges),
        max_deviation(samples, symbol, exchanges, target) matches Some(m) ==> {
            &&& exists|i: int|
                0 <= i < samples.len() && counts_for_depeg(#[trigger] samples[i], symbol, exchanges)
                    && abs_diff(samples[i].price, target) == m
            &&& forall|i: int|
                0 <= i < samples.len() && counts_for_depeg(#[trigger] samples[i], symbol, exchanges)
                    ==> abs_diff(samples[i].price, target) <= m
        },
    decreases samples.len(),
{
    if samples.len() > 0 {
        let init = samples.drop_last();
        let last_index = samples.len() - 1;
        lemma_max_is_reached(init, symbol, exchanges, target);
        assert forall|i: int| 0 <= i < init.len() implies init[i] == samples[i] by {}
        match max_deviation(samples, symbol, exchanges, target) {
            Some(m) => {
                if counts_for_depeg(samples.last(), symbol, exchanges) && abs_diff(
                    samples.last().price,
                    target,
                ) == m {
                    assert(counts_for_depeg(samples[last_index], symbol, exchanges));
                } else {
                    let i = choose|i: int|
                        0 <= i < init.len() && counts_for_depeg(#[trigger] init[i], symbol, exchanges)
                            && abs_diff(init[i].price, target) == m;
                    assert(counts_for_depeg(samples[i], symbol, exchanges));
                }
                assert forall|i: int|
                    0 <= i < samples.len() && counts_for_depeg(
                        #[trigger] samples[i],
                        symbol,
                        exchanges,
                    ) implies abs_diff(samples[i].price, target) <= m by {
                    if i < init.len() {
                        assert(counts_for_depeg(init[i], symbol, exchanges));
                    }
                }
            },
            None => {
                assert forall|i: int| 0 <= i < samples.len() implies !counts_for_depeg(
                    #[trigger] samples[i],
                    symbol,
                    exchanges,
                ) by {
                    if i < init.len() {
                        assert(!counts_for_depeg(init[i], symbol, exchanges));
                    }
                }
            },
        }
        if forall|i: int|
            0 <= i < samples.len() ==> !counts_for_depeg(#[trigger] samples[i], symbol, exchanges) {
            assert(!counts_for_depeg(samples[last_index], symbol, exchanges));
            assert forall|i: int| 0 <= i < init.len() implies !counts_for_depeg(
                #[trigger] init[i],
                symbol,
                exchanges,
            ) by {
                assert(!counts_for_depeg(samples[i], symbol, exchanges));
            }
        }
    }
}

/// Whether a price meets a condition on a target.
pub fn evaluate(condition: AlertCondition, target: Decimal, price: Decimal) -> (fire: bool)
    ensures
        fire == condition_met(condition, target.units(), price.units()),
{
    match condition {
        AlertCondition::Above => price.to_units() > target.to_units(),
        AlertCondition::Below => price.to_units() < target.to_units(),
    }
}

/// An optional machine integer as an optional number.
pub open spec fn widened(x: Option<u64>) -> Option<nat> {
    match x {
        Some(v) => Some(v as nat),
        None => None,
    }
}

/// The distance between two decimals, in units.
fn distance(a: Decimal, b: Decimal) -> (d: u64)
    ensures
        d == abs_diff(a.units(), b.units()),
        d <= MAX_UNITS,
{
    let x = a.to_units();
    let y = b.to_units();
    if x >= y {
        x - y
    } else {
        y - x
    }
}

/// Whether a distance of `distance` units from `reference` is more than
/// `differential` percent of `reference`.
fn exceeds(distance: u64, reference: Decimal, differential: Decimal) -> (over: bool)
    requires
        distance <= MAX_UNITS,
    ensures
        over == (distance * 100 * SCALE > differential.units() * reference.units()),
{
    let r = reference.to_units() as u128;
    let d = differential.to_units() as u128;
    let scaled = (distance as u128) * 100 * (SCALE as u128);
    assert(d * r <= MAX_UNITS * MAX_UNITS) by (nonlinear_arith)
        requires
            d <= MAX_UNITS,
            r <= MAX_UNITS,
    ;
    scaled > d * r
}

/// Whether `value` deviates from `reference` by more than `differential`
/// percent.
pub fn deviation_exceeds(value: Decimal, reference: Decimal, differential: Decimal) -> (over: bool)
    ensures
        over == deviates(value.units(), reference.units(), differential.units()),
{
    exceeds(distance(value, reference), reference, differential)
}

/// Whether the ratio of two prices deviates from the expected ratio by more
/// than `differential` percent.
pub fn ratio_deviation_exceeds(
    price1: Decimal,
    price2: Decimal,
    expected: Decimal,
    differential: Decimal,
) -> (over: bool)
    ensures
        over == ratio_deviates(
            price1.units(),
            price2.units(),
            expected.units(),
            differential.units(),
        ),
{
    let a = price1.to_units() as u128;
    let b = price2.to_units() as u128;
    let e = expected.to_units() as u128;
    let d = differential.to_units() as u128;
    if b == 0 {
        return false;
    }
    let scale: u128 = 100_000_000;
    let hundredfold: u128 = 10_000_000_000;
    assert(scale == SCALE && hundredfold == 100 * SCALE);
    let left = a * scale;
    assert(e * b <= MAX_UNITS * MAX_UNITS) by (nonlinear_arith)
        requires
            e <= MAX_UNITS,
            b <= MAX_UNITS,
    ;
    let right = e * b;
    let gap = if left >= right {
        left - right
    } else {
        right - left
    };
    assert(gap == abs_diff((price1.units() * SCALE) as nat, expected.units() * price2.units()));
    // gap * hundredfold > d * right, decided without the products: the
    // right side is divided by `hundredfold` in two parts
    let quotient = right / hundredfold;
    let rest = right % hundredfold;
    assert(d * quotient <= MAX_UNITS * 10_000_000_000_000_000_000_000) by (nonlinear_arith)
        requires
            d <= MAX_UNITS,
            quotient <= 10_000_000_000_000_000_000_000,
    ;
    assert(d * rest <= MAX_UNITS * 10_000_000_000) by (nonlinear_arith)
        requires
            d <= MAX_UNITS,
            rest <= 10_000_000_000,
    ;
    let bound = d * quotient + (d * rest) / hundredfold;
    proof {
        lemma_split_quotient(d as int, right as int, hundredfold as int);
        lemma_scaled_comparison(gap as int, (d * right) as int, hundredfold as int);
        assert(gap * 100 * SCALE == gap * hundredfold);
    }
    gap > bound
}

/// A product is divided in two parts: `(d * y) / k` is `d * (y / k)` and the
/// quotient of what is left.
pub proof fn lemma_split_quotient(d: int, y: int, k: int)
    requires
        0 <= d,
        0 <= y,
        0 < k,
    ensures
        (d * y) / k == d * (y / k) + (d * (y % k)) / k,
{
    let q = y / k;
    let r = y % k;
    vstd::arithmetic::div_mod::lemma_fundamental_div_mod(y, k);
    assert(d * y == d * r + (d * q) * k) by (nonlinear_arith)
        requires
            y == k * q + r,
    ;
    vstd::arithmetic::div_mod::lemma_hoist_over_denominator(d * r, d * q, k as nat);
}

/// A number times `k` is above `y` exactly if the number is above the
/// quotient of `y` by `k`.
pub proof fn lemma_scaled_comparison(x: int, y: int, k: int)
    requires
        0 <= x,
        0 <= y,
        0 < k,
    ensures
        (x * k > y) == (x > y / k),
{
    let q = y / k;
    let r = y % k;
    vstd::arithmetic::div_mod::lemma_fundamental_div_mod(y, k);
    vstd::arithmetic::div_mod::lemma_mod_bound(y, k);
    if x > q {
        assert(x * k >= (q + 1) * k) by (nonlinear_arith)
            requires
                x >= q + 1,
                k > 0,
        ;
        assert((q + 1) * k == k * q + k) by (nonlinear_arith);
    } else {
        assert(x * k <= q * k) by (nonlinear_arith)
            requires
                x <= q,
                k > 0,
        ;
        assert(q * k == k * q) by (nonlinear_arith);
    }
}

/// The price of the first sample for `symbol`, if there is one.
pub fn find_price(samples: &Vec<CryptoPrice>, symbol: &String) -> (price: Option<Decimal>)
    ensures
        price is Some <==> first_price(sample_views(samples@), symbol@) is Some,
        price is Some ==> price->0.units() == first_price(sample_views(samples@), symbol@)->0,
{
    let ghost views = sample_views(samples@);
    let mut i: usize = 0;
    while i < samples.len()
        invariant
            i <= samples.len(),
            views == sample_views(samples@),
            forall|j: int| 0 <= j < i ==> (#[trigger] views[j]).symbol != symbol@,
        decreases samples.len() - i,
    {
        if samples[i].symbol == *symbol {
            proof {
                assert(views[i as int] == samples@[i as int]@);
                lemma_first_is_unique(views, symbol@, i as int);
            }
            return Some(samples[i].price);
        }
        proof {
            assert(views[i as int] == samples@[i as int]@);
        }
        i += 1;
    }
    None
}

/// The largest distance from `target` among the samples that count for a
/// depeg alert on `symbol` over `exchanges`.
fn largest_distance(
    samples: &Vec<CryptoPrice>,
    symbol: &String,
    exchanges: &Vec<String>,
    target: Decimal,
) -> (largest: Option<u64>)
    ensures
        widened(largest) == max_deviation(
            sample_views(samples@),
            symbol@,
            texts(exchanges@),
            target.units(),
        ),
        largest matches Some(m) ==> m <= MAX_UNITS,
{
    let ghost views = sample_views(samples@);
    let mut largest: Option<u64> = None;
    let mut i: usize = 0;
    while i < samples.len()
        invariant
            i <= samples.len(),
            views == sample_views(samples@),
            widened(largest) == max_deviation(
                views.take(i as int),
                symbol@,
                texts(exchanges@),
                target.units(),
            ),
            largest matches Some(m) ==> m <= MAX_UNITS,
        decreases samples.len() - i,
    {
        proof {
            assert(views.take(i + 1).drop_last() =~= views.take(i as int));
            assert(views.take(i + 1).last() == samples@[i as int]@);
        }
        let sample = &samples[i];
        if sample.symbol == *symbol && contains_text(exchanges, sample.exchange.as_str()) {
            let d = distance(sample.price, target);
            largest = match largest {
                Some(m) => Some(if d > m {
                    d
                } else {
                    m
                }),
                None => Some(d),
            };
        }
        i += 1;
    }
    proof {
        assert(views.take(i as int) =~= views);
    }
    largest
}

/// Whether an alert fires on the samples gathered for it.
///
/// A price alert looks at the first sample for its symbol.  A depeg alert
/// looks at every sample for its symbol from one of its venues and takes the
/// one farthest from the target.  A pair alert looks at the first sample for
/// each of its two tokens.  An alert for which no such sample was gathered
/// does not fire.
pub fn should_trigger(alert: &PriceAlert, samples: &Vec<CryptoPrice>) -> (fire: bool)
    ensures
        fire == triggers(alert@, sample_views(samples@)),
{
    match &alert.alert_type {
        AlertType::Price { target_price, condition } => {
            match find_price(samples, &alert.symbol) {
                Some(price) => evaluate(*condition, *target_price, price),
                None => false,
            }
        },
        AlertType::Depeg { target_price, differential, exchanges } => {
            match largest_distance(samples, &alert.symbol, exchanges, *target_price) {
                Some(m) => exceeds(m, *target_price, *differential),
                None => false,
            }
        },
        AlertType::PairDepeg { token1, token2, expected_ratio, differential } => {
            match find_price(samples, token1) {
                Some(a) => match find_price(samples, token2) {
                    Some(b) => ratio_deviation_exceeds(a, b, *expected_ratio, *differential),
                    None => false,
                },
                None => false,
            }
        },
    }
}

} // verus!
