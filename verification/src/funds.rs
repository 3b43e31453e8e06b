//! Funds as multisets of (denomination, amount) pairs.
//!
//! Collateral, counter-offers and attached funds are all lists of coins.
//! Two fund lists are interchangeable exactly when they agree as multisets:
//! same denominations, same amounts, no extras, order-independent.

use vstd::prelude::*;
use vstd::multiset::Multiset;

verus! {

/// A quantity of one denomination, the unit in which collateral and
/// counter-offers are expressed.
#[derive(Debug, Clone, PartialEq, Eq)]
pub struct Coin {
    pub denom: String,
    pub amount: u128,
}

/// Mathematical model of a `Coin`: the denomination as a character sequence,
/// the amount unchanged.
#[verifier::ext_equal]
pub struct CoinModel {
    pub denom: Seq<char>,
    pub amount: u128,
}

impl View for Coin {
    type V = CoinModel;

    open spec fn view(&self) -> CoinModel {
        CoinModel { denom: self.denom@, amount: self.amount }
    }
}

impl DeepView for Coin {
    type V = CoinModel;

    open spec fn deep_view(&self) -> CoinModel {
        self@
    }
}

/// How many times coin `c` occurs in the list `s`.
pub open spec fn coin_count(s: Seq<CoinModel>, c: CoinModel) -> nat
    decreases s.len(),
{
    if s.len() == 0 {
        0
    } else {
        coin_count(s.drop_last(), c) + (if s.last() == c {
            1nat
        } else {
            0nat
        })
    }
}

/// Two fund lists carry exactly the same coins, regardless of order:
/// every coin occurs equally often in both.
pub open spec fn same_funds(a: Seq<CoinModel>, b: Seq<CoinModel>) -> bool {
    forall|c: CoinModel| coin_count(a, c) == coin_count(b, c)
}

/// Each denomination appears at most once in the list.
pub open spec fn distinct_denoms(s: Seq<CoinModel>) -> bool {
    forall|i: int, j: int| 0 <= i < j < s.len() ==> s[i].denom != s[j].denom
}

/// Counting a prefix one element longer adds one occurrence when that
/// element is the counted coin.
proof fn lemma_coin_count_take_step(s: Seq<CoinModel>, c: CoinModel, i: int)
    requires
        0 <= i < s.len(),
    ensures
        coin_count(s.take(i + 1), c) == coin_count(s.take(i), c) + (if s[i] == c {
            1int
        } else {
            0int
        }),
{
    let t = s.take(i + 1);
    assert(t.drop_last() =~= s.take(i));
    assert(t.last() == s[i]);
}

/// A coin is counted a positive number of times exactly when it occurs
/// somewhere in the list.
proof fn lemma_coin_count_pos(s: Seq<CoinModel>, c: CoinModel)
    ensures
        coin_count(s, c) > 0 <==> (exists|i: int| 0 <= i < s.len() && s[i] == c),
    decreases s.len(),
{
    if s.len() == 0 {
    } else {
        lemma_coin_count_pos(s.drop_last(), c);
        if s.last() == c {
            assert(s[s.len() - 1] == c);
        }
        if coin_count(s, c) > 0 && s.last() != c {
            let i = choose|i: int| 0 <= i < s.drop_last().len() && s.drop_last()[i] == c;
            assert(s[i] == c);
        }
        if (exists|i: int| 0 <= i < s.len() && s[i] == c) && s.last() != c {
            let i = choose|i: int| 0 <= i < s.len() && s[i] == c;
            assert(s.drop_last()[i] == c);
        }
    }
}

/// `coin_count` agrees with the count of the list read as a multiset.
proof fn lemma_coin_count_is_multiset_count(s: Seq<CoinModel>, c: CoinModel)
    ensures
        coin_count(s, c) == s.to_multiset().count(c),
    decreases s.len(),
{
    broadcast use vstd::seq_lib::group_to_multiset_ensures;
    broadcast use vstd::multiset::group_multiset_axioms;

    if s.len() == 0 {
        assert(!s.contains(c));
    } else {
        lemma_coin_count_is_multiset_count(s.drop_last(), c);
        assert(s.drop_last().push(s.last()) =~= s);
        assert(s.drop_last().push(s.last()).to_multiset() =~= s.drop_last().to_multiset().insert(
            s.last(),
        ));
        vstd::multiset::lemma_insert_increases_count_by_1(s.drop_last().to_multiset(), s.last());
        if s.last() != c {
            vstd::multiset::lemma_insert_other_elements_unchanged(
                s.drop_last().to_multiset(),
                s.last(),
                c,
            );
        }
    }
}

/// `same_funds` is multiset equality: two fund lists are the same funds
/// exactly when they are equal as multisets of coins.
pub proof fn lemma_same_funds_is_multiset_equality(a: Seq<CoinModel>, b: Seq<CoinModel>)
    ensures
        same_funds(a, b) <==> a.to_multiset() == b.to_multiset(),
{
    broadcast use vstd::multiset::group_multiset_axioms;

    if same_funds(a, b) {
        assert forall|c: CoinModel| a.to_multiset().count(c) == b.to_multiset().count(c) by {
            lemma_coin_count_is_multiset_count(a, c);
            lemma_coin_count_is_multiset_count(b, c);
        }
        assert(a.to_multiset() =~= b.to_multiset());
    }
    if a.to_multiset() == b.to_multiset() {
        assert forall|c: CoinModel| coin_count(a, c) == coin_count(b, c) by {
            lemma_coin_count_is_multiset_count(a, c);
            lemma_coin_count_is_multiset_count(b, c);
        }
    }
}

/// Whether two coins agree in denomination and amount.
pub fn coin_eq(a: &Coin, b: &Coin) -> (r: bool)
    ensures
        r == (a@ == b@),
{
    a.denom == b.denom && a.amount == b.amount
}

/// How many coins of `v` equal `target`.
pub fn count_coin(v: &Vec<Coin>, target: &Coin) -> (n: usize)
    ensures
        n == coin_count(v.deep_view(), target@),
{
    let mut n: usize = 0;
    let mut i: usize = 0;
    while i < v.len()
        invariant
            i <= v.len(),
            n <= i,
            n == coin_count(v.deep_view().take(i as int), target@),
        decreases v.len() - i,
    {
        proof {
            lemma_coin_count_take_step(v.deep_view(), target@, i as int);
            assert(v.deep_view()[i as int] == v@[i as int]@);
        }
        if coin_eq(&v[i], target) {
            n = n + 1;
        }
        i = i + 1;
    }
    proof {
        assert(v.deep_view().take(v.len() as int) =~= v.deep_view());
    }
    n
}

/// Whether `a` and `b` hold exactly the same funds, compared as multisets.
pub fn funds_match(a: &Vec<Coin>, b: &Vec<Coin>) -> (r: bool)
    ensures
        r == same_funds(a.deep_view(), b.deep_view()),
{
    let ghost av = a.deep_view();
    let ghost bv = b.deep_view();
    let mut i: usize = 0;
    while i < a.len()
        invariant
            av == a.deep_view(),
            bv == b.deep_view(),
            i <= a.len(),
            forall|k: int| 0 <= k < i ==> coin_count(av, av[k]) == coin_count(bv, av[k]),
        decreases a.len() - i,
    {
        proof {
            assert(av[i as int] == a@[i as int]@);
        }
        let ca = count_coin(a, &a[i]);
        let cb = count_coin(b, &a[i]);
        if ca != cb {
            proof {
                assert(coin_count(av, av[i as int]) != coin_count(bv, av[i as int]));
            }
            return false;
        }
        i = i + 1;
    }
    let mut j: usize = 0;
    while j < b.len()
        invariant
            av == a.deep_view(),
            bv == b.deep_view(),
            j <= b.len(),
            forall|k: int| 0 <= k < av.len() ==> coin_count(av, av[k]) == coin_count(bv, av[k]),
            forall|k: int| 0 <= k < j ==> coin_count(av, bv[k]) == coin_count(bv, bv[k]),
        decreases b.len() - j,
    {
        proof {
            assert(bv[j as int] == b@[j as int]@);
        }
        let ca = count_coin(a, &b[j]);
        let cb = count_coin(b, &b[j]);
        if ca != cb {
            proof {
                assert(coin_count(av, bv[j as int]) != coin_count(bv, bv[j as int]));
            }
            return false;
        }
        j = j + 1;
    }
    proof {
        assert forall|c: CoinModel| coin_count(av, c) == coin_count(bv, c) by {
            lemma_coin_count_pos(av, c);
            lemma_coin_count_pos(bv, c);
            if coin_count(av, c) > 0 {
                let k = choose|k: int| 0 <= k < av.len() && av[k] == c;
                assert(coin_count(av, av[k]) == coin_count(bv, av[k]));
            } else if coin_count(bv, c) > 0 {
                let k = choose|k: int| 0 <= k < bv.len() && bv[k] == c;
                assert(coin_count(av, bv[k]) == coin_count(bv, bv[k]));
            }
        }
    }
    true
}

/// A copy of a fund list, coin for coin.
pub fn clone_coins(v: &Vec<Coin>) -> (r: Vec<Coin>)
    ensures
        r@ == v@,
{
    let mut r: Vec<Coin> = Vec::new();
    let mut i: usize = 0;
    while i < v.len()
        invariant
            i <= v.len(),
            r@ =~= v@.take(i as int),
        decreases v.len() - i,
    {
        r.push(Coin { denom: v[i].denom.clone(), amount: v[i].amount });
        i = i + 1;
    }
    proof {
        assert(v@.take(v.len() as int) =~= v@);
    }
    r
}

} // verus!
