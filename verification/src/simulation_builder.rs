//! Setting up a simulation: naming the traders, and deciding whether a
//! simulation is ready to run.
use crate::logger::{decimal, digit_char, format_usize};
use vstd::prelude::*;

verus! {

/// The names of the traders of a simulation with `strategies` traders:
/// trader `i` is named by the decimal text of `i`. A simulation needs at
/// least two traders.
pub fn trader_names(strategies: usize) -> (names: Vec<String>)
    requires
        strategies >= 2,
    ensures
        names@.len() == strategies,
        forall|i: int| 0 <= i < strategies ==> #[trigger] names@[i]@ == decimal(i as nat),
{
    let mut names: Vec<String> = Vec::new();
    let mut i: usize = 0;
    while i < strategies
        invariant
            i <= strategies,
            names@.len() == i,
            forall|j: int| 0 <= j < i ==> #[trigger] names@[j]@ == decimal(j as nat),
        decreases strategies - i,
    {
        names.push(format_usize(i));
        i = i + 1;
    }
    names
}

/// A simulation runs only when the market and every trader are ready.
pub fn all_ready(market_ok: bool, traders_ok: &Vec<bool>) -> (r: bool)
    ensures
        r == (market_ok && forall|i: int| 0 <= i < traders_ok@.len() ==> #[trigger] traders_ok@[i]),
{
    if !market_ok {
        return false;
    }
    let mut i: usize = 0;
    while i < traders_ok.len()
        invariant
            i <= traders_ok@.len(),
            forall|j: int| 0 <= j < i ==> #[trigger] traders_ok@[j],
        decreases traders_ok@.len() - i,
    {
        if !traders_ok[i] {
            return false;
        }
        i = i + 1;
    }
    true
}

proof fn lemma_digit_char_injective(a: nat, b: nat)
    requires
        a < 10,
        b < 10,
        digit_char(a) == digit_char(b),
    ensures
        a == b,
{
}

proof fn lemma_decimal_nonempty(n: nat)
    ensures
        decimal(n).len() >= 1,
        n >= 10 ==> decimal(n).len() >= 2,
    decreases n,
{
    if n >= 10 {
        lemma_decimal_nonempty(n / 10);
    }
}

/// Distinct numbers have distinct decimal texts.
pub proof fn lemma_decimal_injective(a: nat, b: nat)
    requires
        decimal(a) == decimal(b),
    ensures
        a == b,
    decreases a,
{
    lemma_decimal_nonempty(a);
    lemma_decimal_nonempty(b);
    if a < 10 && b < 10 {
        assert(decimal(a)[0] == digit_char(a));
        assert(decimal(b)[0] == digit_char(b));
        lemma_digit_char_injective(a, b);
    } else if a >= 10 && b >= 10 {
        let da = decimal(a);
        let db = decimal(b);
        assert(da.last() == digit_char(a % 10));
        assert(db.last() == digit_char(b % 10));
        lemma_digit_char_injective(a % 10, b % 10);
        assert(decimal(a / 10) =~= da.drop_last());
        assert(decimal(b / 10) =~= db.drop_last());
        lemma_decimal_injective(a / 10, b / 10);
    } else {
        assert(decimal(a).len() != decimal(b).len());
    }
}

/// Every trader of a simulation gets a name of its own.
pub proof fn lemma_trader_names_distinct(names: Seq<String>, strategies: nat, i: int, j: int)
    requires
        names.len() == strategies,
        forall|k: int| 0 <= k < strategies ==> #[trigger] names[k]@ == decimal(k as nat),
        0 <= i < strategies,
        0 <= j < strategies,
        i != j,
    ensures
        names[i]@ != names[j]@,
{
    if names[i]@ == names[j]@ {
        lemma_decimal_injective(i as nat, j as nat);
    }
}

} // verus!
