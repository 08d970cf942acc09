//! Orders placed by strategies, and the text under which they are logged.
use vstd::prelude::*;
use vstd::string::*;

verus! {

/// The side of an order.
#[derive(Clone, Copy, Debug, PartialEq, Eq, Structural)]
pub enum Side {
    Buy,
    Sell,
}

/// An order a strategy opens: its side, the trader and strategy that open
/// it, the tick time (micro-seconds), the security code and the quantity.
#[derive(Debug)]
pub struct OpenOrder {
    pub side: Side,
    pub trader_name: String,
    pub strategy_name: String,
    pub time: i64,
    pub code: String,
    pub quantity: i64,
}

/// The name under which a side is printed.
pub open spec fn side_label(side: Side) -> Seq<char> {
    match side {
        Side::Buy => seq!['B', 'u', 'y'],
        Side::Sell => seq!['S', 'e', 'l', 'l'],
    }
}

/// The character of the decimal digit `d`.
pub open spec fn digit_char(d: nat) -> char {
    if d == 0 {
        '0'
    } else if d == 1 {
        '1'
    } else if d == 2 {
        '2'
    } else if d == 3 {
        '3'
    } else if d == 4 {
        '4'
    } else if d == 5 {
        '5'
    } else if d == 6 {
        '6'
    } else if d == 7 {
        '7'
    } else if d == 8 {
        '8'
    } else {
        '9'
    }
}

/// The decimal digits of `n`, most significant first, without leading zeros.
pub open spec fn decimal(n: nat) -> Seq<char>
    decreases n,
{
    if n < 10 {
        seq![digit_char(n)]
    } else {
        decimal(n / 10).push(digit_char(n % 10))
    }
}

/// The decimal text of a signed integer, with a leading `-` when negative.
pub open spec fn signed_decimal(i: int) -> Seq<char> {
    if i < 0 {
        seq!['-'] + decimal((-i) as nat)
    } else {
        decimal(i as nat)
    }
}

/// The printed name of a side.
pub fn side_name(side: Side) -> (r: &'static str)
    ensures
        r@ == side_label(side),
{
    match side {
        Side::Buy => {
            proof {
                reveal_strlit("Buy");
            }
            "Buy"
        },
        Side::Sell => {
            proof {
                reveal_strlit("Sell");
            }
            "Sell"
        },
    }
}

fn digit_str(d: u64) -> (r: &'static str)
    requires
        d < 10,
    ensures
        r@ == seq![digit_char(d as nat)],
{
    if d == 0 {
        proof { reveal_strlit("0"); }
        "0"
    } else if d == 1 {
        proof { reveal_strlit("1"); }
        "1"
    } else if d == 2 {
        proof { reveal_strlit("2"); }
        "2"
    } else if d == 3 {
        proof { reveal_strlit("3"); }
        "3"
    } else if d == 4 {
        proof { reveal_strlit("4"); }
        "4"
    } else if d == 5 {
        proof { reveal_strlit("5"); }
        "5"
    } else if d == 6 {
        proof { reveal_strlit("6"); }
        "6"
    } else if d == 7 {
        proof { reveal_strlit("7"); }
        "7"
    } else if d == 8 {
        proof { reveal_strlit("8"); }
        "8"
    } else {
        proof { reveal_strlit("9"); }
        "9"
    }
}

/// Appends the decimal digits of `n` to `s`.
fn append_decimal(s: &mut String, n: u64)
    ensures
        final(s)@ == old(s)@ + decimal(n as nat),
    decreases n,
{
    if n >= 10 {
        append_decimal(s, n / 10);
    }
    s.append(digit_str(n % 10));
    proof {
        assert(old(s)@ + decimal(n as nat) =~= if n >= 10 {
            old(s)@ + decimal((n / 10) as nat) + seq![digit_char((n % 10) as nat)]
        } else {
            old(s)@ + seq![digit_char((n % 10) as nat)]
        });
    }
}

/// Appends the decimal text of `i` (with `-` when negative) to `s`.
fn append_signed_decimal(s: &mut String, i: i64)
    ensures
        final(s)@ == old(s)@ + signed_decimal(i as int),
{
    if i < 0 {
        proof { reveal_strlit("-"); }
        s.append("-");
        let magnitude: u64 = ((-(i + 1)) as u64) + 1;
        append_decimal(s, magnitude);
        assert(final(s)@ =~= old(s)@ + signed_decimal(i as int));
    } else {
        append_decimal(s, i as u64);
    }
}

/// The decimal text of an unsigned integer.
pub fn format_u64(n: u64) -> (r: String)
    ensures
        r@ == decimal(n as nat),
{
    let mut s = String::new();
    append_decimal(&mut s, n);
    assert(s@ =~= decimal(n as nat));
    s
}

/// The decimal text of a count.
pub fn format_usize(n: usize) -> (r: String)
    ensures
        r@ == decimal(n as nat),
{
    let mut s = String::new();
    append_decimal(&mut s, n as u64);
    assert(s@ =~= decimal(n as nat));
    s
}

/// The decimal text of a signed integer.
pub fn format_i64(i: i64) -> (r: String)
    ensures
        r@ == signed_decimal(i as int),
{
    let mut s = String::new();
    append_signed_decimal(&mut s, i);
    assert(s@ =~= signed_decimal(i as int));
    s
}

/// Path of the log entity under which an order of `side` is recorded:
/// `order/<side>/strategy_<strategy>/<trader>`.
pub fn order_entity_path(side: Side, strategy_name: &str, trader_name: &str) -> (r: String)
    ensures
        r@ == "order/"@ + side_label(side) + "/strategy_"@ + strategy_name@ + "/"@ + trader_name@,
{
    let mut s = String::from_str("order/");
    s.append(side_name(side));
    s.append("/strategy_");
    s.append(strategy_name);
    s.append("/");
    s.append(trader_name);
    s
}

/// Text of the log line of an order: `<side> <code>, q: <quantity>`.
pub fn order_log_text(side: Side, code: &str, quantity: i64) -> (r: String)
    ensures
        r@ == side_label(side) + " "@ + code@ + ", q: "@ + signed_decimal(quantity as int),
{
    let mut s = String::from_str(side_name(side));
    s.append(" ");
    s.append(code);
    s.append(", q: ");
    append_signed_decimal(&mut s, quantity);
    s
}

/// Path of the log entity under which the net asset value of a strategy
/// is recorded: `nav/strategy_<strategy>/<trader>`.
pub fn nav_entity_path(strategy_name: &str, trader_name: &str) -> (r: String)
    ensures
        r@ == "nav/strategy_"@ + strategy_name@ + "/"@ + trader_name@,
{
    let mut s = String::from_str("nav/strategy_");
    s.append(strategy_name);
    s.append("/");
    s.append(trader_name);
    s
}

/// The log timeline is kept in nanoseconds; tick times are micro-seconds.
pub fn log_time_nanos(time: i64) -> (r: i64)
    requires
        i64::MIN <= time * 1_000 <= i64::MAX,
    ensures
        r == time * 1_000,
{
    time * 1_000
}

/// The value of a character taken as a decimal digit.
pub open spec fn digit_value(c: char) -> int {
    (c as int) - ('0' as int)
}

/// The number that a string of decimal digits reads as.
pub open spec fn digits_value(s: Seq<char>) -> int
    decreases s.len(),
{
    if s.len() == 0 {
        0
    } else {
        digits_value(s.drop_last()) * 10 + digit_value(s.last())
    }
}

/// The number that a decimal text with an optional leading `-` reads as.
pub open spec fn signed_value(s: Seq<char>) -> int {
    if s.len() > 0 && s[0] == '-' {
        -digits_value(s.drop_first())
    } else {
        digits_value(s)
    }
}

proof fn lemma_digit_value(d: nat)
    requires
        d < 10,
    ensures
        digit_value(digit_char(d)) == d,
        '0' <= digit_char(d) <= '9',
{
    assert('0' as int == 48);
    assert('9' as int == 57);
    if d == 0 {
    } else if d == 1 {
        assert('1' as int == 49);
    } else if d == 2 {
        assert('2' as int == 50);
    } else if d == 3 {
        assert('3' as int == 51);
    } else if d == 4 {
        assert('4' as int == 52);
    } else if d == 5 {
        assert('5' as int == 53);
    } else if d == 6 {
        assert('6' as int == 54);
    } else if d == 7 {
        assert('7' as int == 55);
    } else if d == 8 {
        assert('8' as int == 56);
    }
}

/// Every character of a decimal text is a digit, and reading the digits
/// back gives the number.
pub proof fn lemma_decimal_reads_back(n: nat)
    ensures
        decimal(n).len() >= 1,
        forall|k: int| 0 <= k < decimal(n).len() ==> '0' <= #[trigger] decimal(n)[k] <= '9',
        digits_value(decimal(n)) == n,
    decreases n,
{
    if n >= 10 {
        lemma_decimal_reads_back(n / 10);
        let d = decimal(n);
        assert(d.drop_last() =~= decimal(n / 10));
        assert(d.last() == digit_char(n % 10));
        lemma_digit_value(n % 10);
        assert(digits_value(d) == digits_value(d.drop_last()) * 10 + digit_value(d.last()));
        assert(n == (n / 10) * 10 + n % 10);
    } else {
        lemma_digit_value(n);
        assert(digits_value(decimal(n)) == digits_value(decimal(n).drop_last()) * 10
            + digit_value(decimal(n).last()));
        assert(decimal(n).drop_last() =~= Seq::<char>::empty());
    }
}

/// The decimal text of a signed integer reads back as that integer, and
/// that of a non-negative integer is its plain decimal text.
pub proof fn lemma_signed_decimal_reads_back(i: int)
    ensures
        signed_value(signed_decimal(i)) == i,
        i >= 0 ==> signed_decimal(i) == decimal(i as nat),
        i < 0 ==> signed_decimal(i) == seq!['-'] + decimal((-i) as nat),
{
    if i < 0 {
        lemma_decimal_reads_back((-i) as nat);
        assert((seq!['-'] + decimal((-i) as nat)).drop_first() =~= decimal((-i) as nat));
    } else {
        lemma_decimal_reads_back(i as nat);
        assert('0' <= decimal(i as nat)[0] <= '9');
    }
}

} // verus!
