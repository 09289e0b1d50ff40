//! One price out of the replies of several sources.

use soroban_sdk::Env;
use vstd::prelude::*;

use crate::address::Address;
use crate::host;
use crate::host::invoke_for_price;
use crate::oracle::error::OracleError;

verus! {

/// What came back from a source that was asked for its price.
#[derive(Clone, Copy, Debug, PartialEq, Eq, Structural)]
pub enum SourceReply {
    /// The source gave a price.
    Price(i128),
    /// The source gave something that is no price.
    Unconvertible,
    /// The source gave no answer but an error.
    Failed,
}

/// A source that was left out, and why.
#[derive(Clone, Copy, Debug, PartialEq, Eq)]
pub struct SourceSkip {
    pub source: Address,
    pub reason: OracleError,
}

/// The name of the function that gives the price of an oracle.
pub const PRICE_FUNCTION: &'static str = "get_price";

/// The name of the price function is a symbol.
proof fn lemma_price_function_is_a_symbol()
    ensures
        host::is_symbol(PRICE_FUNCTION@),
{
    reveal_strlit("get_price");
    assert(PRICE_FUNCTION@ =~= seq!['g', 'e', 't', '_', 'p', 'r', 'i', 'c', 'e']);
}

/// Whether a source is a contract that replied when it was asked for its price.
pub open spec fn has_answered(source: Address, reply: SourceReply) -> bool {
    source matches Address::Contract(hash) && host::has_replied(hash@, PRICE_FUNCTION@, reply)
}

/// Whether each source replied, in their order.
pub open spec fn answered(sources: Seq<Address>, replies: Seq<SourceReply>) -> bool {
    &&& replies.len() == sources.len()
    &&& forall|i: int|
        0 <= i < sources.len() ==> has_answered(#[trigger] sources[i], #[trigger] replies[i])
}

/// Asks a source for its price. Only a contract can be asked.
pub fn ask_for_price(env: &Env, source: &Address) -> (r: Option<SourceReply>)
    ensures
        match r {
            Some(reply) => has_answered(*source, reply),
            None => source is Account,
        },
{
    match source {
        Address::Contract(hash) => {
            proof {
                lemma_price_function_is_a_symbol();
            }
            Some(invoke_for_price(env, hash, PRICE_FUNCTION))
        },
        Address::Account(_) => None,
    }
}

/// The name under which a skipped source is published.
pub const SKIP_TOPIC: &'static str = "src_skip";

/// Why a reply is left out.
pub open spec fn skip_reason(reply: SourceReply) -> Option<OracleError> {
    match reply {
        SourceReply::Price(price) => if price > 0 {
            None
        } else {
            Some(OracleError::SourceOracleReturnedInvalidPrice)
        },
        SourceReply::Unconvertible => Some(OracleError::SourceOracleUnresponsive),
        SourceReply::Failed => Some(OracleError::SourceOracleReturnedUnexpectedType),
    }
}

/// The prices of the replies that count, in their order.
pub open spec fn healthy_prices(replies: Seq<SourceReply>) -> Seq<i128>
    decreases replies.len(),
{
    if replies.len() == 0 {
        Seq::empty()
    } else {
        let rest = healthy_prices(replies.drop_last());
        match replies.last() {
            SourceReply::Price(price) if price > 0 => rest.push(price),
            _ => rest,
        }
    }
}

/// The sources whose replies do not count, in their order.
pub open spec fn skipped(sources: Seq<Address>, replies: Seq<SourceReply>) -> Seq<SourceSkip>
    decreases replies.len(),
{
    if replies.len() == 0 {
        Seq::empty()
    } else {
        let rest = skipped(sources, replies.drop_last());
        match skip_reason(replies.last()) {
            Some(reason) => rest.push(SourceSkip { source: sources[replies.len() - 1], reason }),
            None => rest,
        }
    }
}

/// How many prices it takes: two, or one where there is but one source.
pub open spec fn quorum(sources: nat) -> nat {
    if sources == 1 {
        1
    } else {
        2
    }
}

/// An ascending list with one more price in its place.
pub open spec fn inserted(ascending: Seq<i128>, price: i128) -> Seq<i128>
    decreases ascending.len(),
{
    if ascending.len() == 0 || ascending.last() <= price {
        ascending.push(price)
    } else {
        inserted(ascending.drop_last(), price).push(ascending.last())
    }
}

/// The prices in ascending order.
pub open spec fn ascending(prices: Seq<i128>) -> Seq<i128>
    decreases prices.len(),
{
    if prices.len() == 0 {
        Seq::empty()
    } else {
        inserted(ascending(prices.drop_last()), prices.last())
    }
}

/// The price in the middle, or the middle of the two prices there, rounded down.
pub open spec fn median(prices: Seq<i128>) -> int {
    let sorted = ascending(prices);
    let middle = (prices.len() / 2) as int;
    if prices.len() % 2 == 0 {
        sorted[middle - 1] + (sorted[middle] - sorted[middle - 1]) / 2
    } else {
        sorted[middle] as int
    }
}

proof fn lemma_inserted_at(s: Seq<i128>, price: i128, j: int)
    requires
        0 <= j <= s.len(),
        j == 0 || s[j - 1] <= price,
        forall|k: int| j <= k < s.len() ==> s[k] > price,
    ensures
        inserted(s, price) == s.insert(j, price),
    decreases s.len(),
{
    if j < s.len() {
        lemma_inserted_at(s.drop_last(), price, j);
        assert(s.insert(j, price) =~= s.drop_last().insert(j, price).push(s.last()));
    } else {
        assert(s.insert(j, price) =~= s.push(price));
    }
}

/// Every price of the list is at most the next.
pub open spec fn is_ascending(s: Seq<i128>) -> bool {
    forall|i: int, j: int| 0 <= i <= j < s.len() ==> s[i] <= s[j]
}

proof fn lemma_inserted(s: Seq<i128>, price: i128)
    requires
        is_ascending(s),
    ensures
        is_ascending(inserted(s, price)),
        inserted(s, price).len() == s.len() + 1,
        inserted(s, price).to_multiset() == s.to_multiset().insert(price),
        forall|k: int|
            0 <= k <= s.len() ==> (#[trigger] inserted(s, price)[k]) <= price || (exists|i: int|
                0 <= i < s.len() && s[i] == inserted(s, price)[k]),
    decreases s.len(),
{
    broadcast use vstd::seq_lib::to_multiset_build;

    let r = inserted(s, price);
    if s.len() == 0 || s.last() <= price {
        assert forall|k: int| 0 <= k <= s.len() implies (#[trigger] r[k]) <= price || (exists|
            i: int,
        |
            0 <= i < s.len() && s[i] == r[k]) by {
            if k < s.len() {
                assert(s[k] == r[k]);
            }
        }
    } else {
        let rest = s.drop_last();
        assert(is_ascending(rest));
        lemma_inserted(rest, price);
        let q = inserted(rest, price);
        assert(s =~= rest.push(s.last()));
        assert(r == q.push(s.last()));
        assert forall|k: int| 0 <= k < q.len() implies #[trigger] q[k] <= s.last() by {
            if q[k] > price {
                let i = choose|i: int| 0 <= i < rest.len() && rest[i] == q[k];
                assert(s[i] <= s[s.len() - 1]);
            }
        }
        assert(r.to_multiset() =~= s.to_multiset().insert(price));
        assert forall|k: int| 0 <= k <= s.len() implies (#[trigger] r[k]) <= price || (exists|
            i: int,
        |
            0 <= i < s.len() && s[i] == r[k]) by {
            if k < q.len() {
                assert(r[k] == q[k]);
                if q[k] > price {
                    let i = choose|i: int| 0 <= i < rest.len() && rest[i] == q[k];
                    assert(s[i] == r[k]);
                }
            } else {
                assert(s[s.len() - 1] == r[k]);
            }
        }
    }
}

/// Sorting gives an ascending list of the same prices.
pub proof fn law_ascending_is_sorted(prices: Seq<i128>)
    ensures
        is_ascending(ascending(prices)),
        ascending(prices).len() == prices.len(),
        ascending(prices).to_multiset() == prices.to_multiset(),
    decreases prices.len(),
{
    broadcast use vstd::seq_lib::to_multiset_build;

    if prices.len() > 0 {
        law_ascending_is_sorted(prices.drop_last());
        lemma_inserted(ascending(prices.drop_last()), prices.last());
        assert(prices =~= prices.drop_last().push(prices.last()));
    } else {
        assert(ascending(prices) =~= prices);
    }
}

/// Sorts prices in ascending order.
fn sort(prices: &Vec<i128>) -> (r: Vec<i128>)
    ensures
        r@ == ascending(prices@),
{
    let mut out: Vec<i128> = Vec::new();
    let mut i: usize = 0;
    assert(prices@.take(0) =~= Seq::empty());
    while i < prices.len()
        invariant
            i <= prices.len(),
            out@ == ascending(prices@.take(i as int)),
        decreases prices.len() - i,
    {
        let price: i128 = prices[i];
        let mut j: usize = out.len();
        while j > 0 && out[j - 1] > price
            invariant
                j <= out.len(),
                forall|k: int| j <= k < out.len() ==> out@[k] > price,
            decreases j,
        {
            j = j - 1;
        }
        proof {
            lemma_inserted_at(out@, price, j as int);
            assert(prices@.take(i + 1).drop_last() =~= prices@.take(i as int));
        }
        out.insert(j, price);
        i = i + 1;
    }
    assert(prices@.take(i as int) =~= prices@);
    out
}

/// Computes the median of positive prices.
fn compute_median(prices: &Vec<i128>) -> (r: i128)
    requires
        prices@.len() > 0,
        forall|i: int| 0 <= i < prices@.len() ==> prices@[i] > 0,
    ensures
        r == median(prices@),
{
    let sorted = sort(prices);
    proof {
        law_ascending_is_sorted(prices@);
        lemma_ascending_items(prices@);
    }
    let middle: usize = sorted.len() / 2;
    if sorted.len() % 2 == 0 {
        let lower: i128 = sorted[middle - 1];
        let upper: i128 = sorted[middle];
        assert(0 < lower <= upper);
        lower + (upper - lower) / 2
    } else {
        sorted[middle]
    }
}

/// Every item of the sorted list is a price, and every price is in it.
proof fn lemma_ascending_items(prices: Seq<i128>)
    ensures
        forall|p: i128| ascending(prices).contains(p) <==> #[trigger] prices.contains(p),
        forall|k: int| 0 <= k < prices.len() ==> prices.contains(#[trigger] ascending(prices)[k]),
{
    law_ascending_is_sorted(prices);
    prices.to_multiset_ensures();
    ascending(prices).to_multiset_ensures();
    assert forall|p: i128| ascending(prices).contains(p) <==> #[trigger] prices.contains(p) by {
        assert(ascending(prices).to_multiset().count(p) == prices.to_multiset().count(p));
    }
    assert forall|k: int| 0 <= k < prices.len() implies prices.contains(
        #[trigger] ascending(prices)[k],
    ) by {
        assert(ascending(prices).contains(ascending(prices)[k]));
    }
}

proof fn lemma_healthy_prices(replies: Seq<SourceReply>)
    ensures
        forall|i: int| 0 <= i < healthy_prices(replies).len() ==> healthy_prices(replies)[i] > 0,
        healthy_prices(replies).len() <= replies.len(),
    decreases replies.len(),
{
    if replies.len() > 0 {
        lemma_healthy_prices(replies.drop_last());
    }
}

/// The outcome of an aggregation over the replies of at least one source.
pub open spec fn aggregation(replies: Seq<SourceReply>) -> Result<int, OracleError> {
    if healthy_prices(replies).len() < quorum(replies.len()) {
        Err(OracleError::SourceOracleAggregationFailed)
    } else {
        Ok(median(healthy_prices(replies)))
    }
}

/// Makes one price out of the replies of the sources, and says which of them were left out. It fails
/// where too few are left.
pub fn aggregate(sources: &Vec<Address>, replies: &Vec<SourceReply>) -> (r: Result<
    (i128, Vec<SourceSkip>),
    OracleError,
>)
    requires
        sources@.len() == replies@.len(),
        replies@.len() > 0,
    ensures
        match aggregation(replies@) {
            Ok(price) => r matches Ok((p, skips)) && p == price && skips@ == skipped(
                sources@,
                replies@,
            ),
            Err(e) => r == Err::<(i128, Vec<SourceSkip>), OracleError>(e),
        },
{
    let mut prices: Vec<i128> = Vec::new();
    let mut skips: Vec<SourceSkip> = Vec::new();
    let mut i: usize = 0;
    assert(replies@.take(0) =~= Seq::empty());
    while i < replies.len()
        invariant
            i <= replies.len(),
            sources@.len() == replies@.len(),
            prices@ == healthy_prices(replies@.take(i as int)),
            skips@ == skipped(sources@, replies@.take(i as int)),
        decreases replies.len() - i,
    {
        assert(replies@.take(i + 1).drop_last() =~= replies@.take(i as int));
        let source = sources[i];
        match replies[i] {
            SourceReply::Price(price) => {
                if price > 0 {
                    prices.push(price);
                } else {
                    skips.push(
                        SourceSkip { source, reason: OracleError::SourceOracleReturnedInvalidPrice },
                    );
                }
            },
            SourceReply::Unconvertible => {
                skips.push(SourceSkip { source, reason: OracleError::SourceOracleUnresponsive });
            },
            SourceReply::Failed => {
                skips.push(
                    SourceSkip { source, reason: OracleError::SourceOracleReturnedUnexpectedType },
                );
            },
        }
        i = i + 1;
    }
    assert(replies@.take(i as int) =~= replies@);
    let required: usize = if sources.len() == 1 {
        1
    } else {
        2
    };
    if prices.len() < required {
        return Err(OracleError::SourceOracleAggregationFailed);
    }
    proof {
        lemma_healthy_prices(replies@);
    }
    Ok((compute_median(&prices), skips))
}

/// The median lies between any two bounds of the prices.
pub proof fn law_median_lies_between_prices(prices: Seq<i128>, low: int, high: int)
    requires
        prices.len() > 0,
        forall|i: int| 0 <= i < prices.len() ==> low <= #[trigger] prices[i] <= high,
    ensures
        low <= median(prices) <= high,
{
    law_ascending_is_sorted(prices);
    lemma_ascending_items(prices);
    let sorted = ascending(prices);
    let middle = (prices.len() / 2) as int;
    assert forall|k: int| 0 <= k < sorted.len() implies low <= #[trigger] sorted[k] <= high by {
        let i = choose|i: int| 0 <= i < prices.len() && prices[i] == sorted[k];
        assert(low <= prices[i] <= high);
    }
}

/// The median does not depend on the order of the prices.
pub proof fn law_median_ignores_order(a: Seq<i128>, b: Seq<i128>)
    requires
        a.to_multiset() == b.to_multiset(),
    ensures
        median(a) == median(b),
{
    law_ascending_is_sorted(a);
    law_ascending_is_sorted(b);
    a.to_multiset_ensures();
    b.to_multiset_ensures();
    let leq = |x: i128, y: i128| x <= y;
    vstd::seq_lib::lemma_sorted_unique(ascending(a), ascending(b), leq);
}

/// An aggregate is positive.
pub proof fn law_aggregate_is_positive(replies: Seq<SourceReply>)
    requires
        replies.len() > 0,
        aggregation(replies) is Ok,
    ensures
        aggregation(replies)->Ok_0 > 0,
{
    lemma_healthy_prices(replies);
    let prices = healthy_prices(replies);
    law_median_lies_between_prices(prices, 1, i128::MAX as int);
}

/// Every reply either counts or is skipped.
pub proof fn law_every_reply_counts_or_is_skipped(sources: Seq<Address>, replies: Seq<SourceReply>)
    ensures
        healthy_prices(replies).len() + skipped(sources, replies).len() == replies.len(),
    decreases replies.len(),
{
    if replies.len() > 0 {
        law_every_reply_counts_or_is_skipped(sources, replies.drop_last());
    }
}

/// Sources that give no price do not change the outcome, as long as enough others do: what counts is
/// the prices alone.
pub proof fn law_skipped_sources_do_not_count(a: Seq<SourceReply>, b: Seq<SourceReply>)
    requires
        healthy_prices(a) == healthy_prices(b),
        healthy_prices(a).len() >= 2,
    ensures
        aggregation(a) is Ok,
        aggregation(a) == aggregation(b),
{
}

/// The median is the price in the middle of any ascending list of the same prices, or, where two
/// prices are in the middle, the middle between those two, rounded down.
pub proof fn law_median_is_in_the_middle(prices: Seq<i128>, sorted: Seq<i128>)
    requires
        prices.len() > 0,
        sorted.to_multiset() == prices.to_multiset(),
        forall|i: int, j: int| 0 <= i <= j < sorted.len() ==> sorted[i] <= sorted[j],
    ensures
        sorted.len() == prices.len(),
        prices.len() % 2 == 1 ==> median(prices) == sorted[(prices.len() / 2) as int],
        prices.len() % 2 == 0 ==> {
            let low = sorted[prices.len() / 2 - 1];
            let high = sorted[(prices.len() / 2) as int];
            2 * median(prices) <= low + high < 2 * median(prices) + 2
        },
{
    law_ascending_is_sorted(prices);
    prices.to_multiset_ensures();
    sorted.to_multiset_ensures();
    let leq = |x: i128, y: i128| x <= y;
    vstd::seq_lib::lemma_sorted_unique(ascending(prices), sorted, leq);
}

/// How many prices of a list meet a condition.
pub open spec fn how_many(prices: Seq<i128>, f: spec_fn(i128) -> bool) -> nat
    decreases prices.len(),
{
    if prices.len() == 0 {
        0
    } else {
        how_many(prices.drop_last(), f) + if f(prices.last()) {
            1nat
        } else {
            0nat
        }
    }
}

proof fn lemma_how_many_by_multiset(prices: Seq<i128>, f: spec_fn(i128) -> bool)
    ensures
        how_many(prices, f) == prices.to_multiset().filter(f).len(),
    decreases prices.len(),
{
    broadcast use vstd::multiset::group_multiset_axioms;

    prices.to_multiset_ensures();
    if prices.len() > 0 {
        let rest = prices.drop_last();
        lemma_how_many_by_multiset(rest, f);
        rest.to_multiset_ensures();
        assert(prices =~= rest.push(prices.last()));
        let m = rest.to_multiset();
        assert(prices.to_multiset() =~= m.insert(prices.last()));
        if f(prices.last()) {
            assert(m.insert(prices.last()).filter(f) =~= m.filter(f).insert(prices.last()));
        } else {
            assert(m.insert(prices.last()).filter(f) =~= m.filter(f));
        }
    } else {
        assert(prices.to_multiset().filter(f) =~= vstd::multiset::Multiset::empty());
    }
}

proof fn lemma_how_many_at_least(prices: Seq<i128>, f: spec_fn(i128) -> bool, from: int, to: int)
    requires
        0 <= from <= to <= prices.len(),
        forall|k: int| from <= k < to ==> f(#[trigger] prices[k]),
    ensures
        how_many(prices, f) >= to - from,
    decreases prices.len(),
{
    if prices.len() > 0 && from < to {
        let rest = prices.drop_last();
        assert forall|k: int| from <= k < to && k < rest.len() implies f(#[trigger] rest[k]) by {
            assert(rest[k] == prices[k]);
        }
        if to == prices.len() {
            lemma_how_many_at_least(rest, f, from, to - 1);
            assert(f(prices[prices.len() - 1]));
        } else {
            lemma_how_many_at_least(rest, f, from, to);
        }
    }
}

/// At least half of the prices are at most the median, and at least half of them are at least that: no
/// minority of sources can move it beyond what the others say.
pub proof fn law_median_halves_the_prices(prices: Seq<i128>)
    requires
        prices.len() > 0,
    ensures
        2 * how_many(prices, |p: i128| p <= median(prices)) >= prices.len(),
        2 * how_many(prices, |p: i128| p >= median(prices)) >= prices.len(),
{
    let m = median(prices);
    let sorted = ascending(prices);
    let n = prices.len() as int;
    let low = |p: i128| p <= median(prices);
    let high = |p: i128| p >= median(prices);
    law_ascending_is_sorted(prices);
    law_median_is_in_the_middle(prices, sorted);
    lemma_how_many_by_multiset(prices, low);
    lemma_how_many_by_multiset(sorted, low);
    lemma_how_many_by_multiset(prices, high);
    lemma_how_many_by_multiset(sorted, high);
    if n % 2 == 1 {
        assert forall|k: int| 0 <= k < n / 2 + 1 implies low(#[trigger] sorted[k]) by {
            assert(sorted[k] <= sorted[n / 2]);
        }
        lemma_how_many_at_least(sorted, low, 0, n / 2 + 1);
        assert forall|k: int| n / 2 <= k < n implies high(#[trigger] sorted[k]) by {
            assert(sorted[n / 2] <= sorted[k]);
        }
        lemma_how_many_at_least(sorted, high, n / 2, n);
    } else {
        assert(sorted[n / 2 - 1] <= sorted[n / 2]);
        assert forall|k: int| 0 <= k < n / 2 implies low(#[trigger] sorted[k]) by {
            assert(sorted[k] <= sorted[n / 2 - 1]);
        }
        lemma_how_many_at_least(sorted, low, 0, n / 2);
        assert forall|k: int| n / 2 <= k < n implies high(#[trigger] sorted[k]) by {
            assert(sorted[n / 2] <= sorted[k]);
        }
        lemma_how_many_at_least(sorted, high, n / 2, n);
    }
}

/// A reply counts if and only if it is a positive price; every other one is skipped, under the source
/// that gave it and with the reason for it. Replies are taken in the order of their sources.
pub proof fn law_which_replies_count(
    sources: Seq<Address>,
    replies: Seq<SourceReply>,
    reply: SourceReply,
)
    requires
        replies.len() < sources.len(),
    ensures
        ({
            let prices = healthy_prices(replies.push(reply));
            let skips = skipped(sources, replies.push(reply));
            let source = sources[replies.len() as int];
            let (p, k) = (healthy_prices(replies), skipped(sources, replies));
            &&& healthy_prices(Seq::empty()) == Seq::<i128>::empty()
            &&& skipped(sources, Seq::empty()) == Seq::<SourceSkip>::empty()
            &&& match reply {
                SourceReply::Price(price) => if price > 0 {
                    prices == p.push(price) && skips == k
                } else {
                    prices == p && skips == k.push(
                        SourceSkip { source, reason: OracleError::SourceOracleReturnedInvalidPrice },
                    )
                },
                SourceReply::Unconvertible => prices == p && skips == k.push(
                    SourceSkip { source, reason: OracleError::SourceOracleUnresponsive },
                ),
                SourceReply::Failed => prices == p && skips == k.push(
                    SourceSkip { source, reason: OracleError::SourceOracleReturnedUnexpectedType },
                ),
            }
        }),
{
    assert(replies.push(reply).drop_last() =~= replies);
}

/// There is an aggregate if and only if two prices count, or the one of a single source, and it is
/// their median.
pub proof fn law_when_there_is_an_aggregate(replies: Seq<SourceReply>)
    ensures
        ({
            let prices = healthy_prices(replies);
            let enough = prices.len() >= 2 || (replies.len() == 1 && prices.len() == 1);
            &&& enough ==> aggregation(replies) == Ok::<int, OracleError>(median(prices))
            &&& !enough ==> aggregation(replies) == Err::<int, OracleError>(
                OracleError::SourceOracleAggregationFailed,
            )
        }),
{
    lemma_healthy_prices(replies);
}

/// The function that sources are asked for, and the name of the event of a skipped source.
pub proof fn law_names_of_aggregation()
    ensures
        PRICE_FUNCTION@ == "get_price"@,
        SKIP_TOPIC@ == "src_skip"@,
{
}

} // verus!
