use vstd::prelude::*;
use crate::coin::{Coin, cents_of, message_of, coin_at, well_drawn, value_in_cents, draw_coin, coin_gen, random_below};

verus! {

/// The character of a decimal digit `d < 10`.
pub open spec fn digit_char(d: nat) -> char {
    if d == 0 {
        '0'
    } else if d == 1 {
        '1'
    } else if d == 2 {
        '2'
    } else if d == 3 {
        '3'
    } else if d == 4 {
        '4'
    } else if d == 5 {
        '5'
    } else if d == 6 {
        '6'
    } else if d == 7 {
        '7'
    } else if d == 8 {
        '8'
    } else {
        '9'
    }
}

/// `n` written in decimal, without leading zeros.
pub open spec fn decimal(n: nat) -> Seq<char>
    decreases n,
{
    if n < 10 {
        seq![digit_char(n)]
    } else {
        decimal(n / 10).push(digit_char(n % 10))
    }
}

/// An amount of cents as dollars with exactly two fractional digits: `$1.37`.
pub open spec fn currency_text(cents: nat) -> Seq<char> {
    seq!['$'] + decimal(cents / 100) + seq!['.', digit_char((cents % 100) / 10), digit_char(cents % 10)]
}

/// The line that closes a report on a purse of `coins` coins worth `total` cents.
pub open spec fn summary_text(coins: nat, total: nat) -> Seq<char> {
    "The "@ + decimal(coins) + " coins in your purse are worth "@ + currency_text(total)
}

/// The worth of a purse in cents.
pub open spec fn sum_cents(p: Seq<Coin>) -> nat
    decreases p.len(),
{
    if p.len() == 0 {
        0
    } else {
        sum_cents(p.drop_last()) + cents_of(p.last())
    }
}

/// The non-empty messages of a purse's coins, in the purse's order.
pub open spec fn messages(p: Seq<Coin>) -> Seq<Seq<char>>
    decreases p.len(),
{
    if p.len() == 0 {
        Seq::empty()
    } else if message_of(p.last()).len() > 0 {
        messages(p.drop_last()).push(message_of(p.last()))
    } else {
        messages(p.drop_last())
    }
}

/// The lines reported on a purse: its messages, then the summary line.
pub open spec fn report_of(p: Seq<Coin>) -> Seq<Seq<char>> {
    messages(p).push(summary_text(p.len(), sum_cents(p)))
}

/// The text of each string in a sequence.
pub open spec fn texts(v: Seq<String>) -> Seq<Seq<char>> {
    v.map_values(|s: String| s@)
}

/// The coins that a sequence of draws gives, each draw a coin index and a state index.
pub open spec fn coins_of_draws(draws: Seq<(u8, u8)>) -> Seq<Coin> {
    draws.map_values(|d: (u8, u8)| coin_at(d.0, d.1))
}

/// A purse of `n` coins is worth at most 25 cents a coin.
pub proof fn lemma_sum_cents_bound(p: Seq<Coin>)
    ensures
        sum_cents(p) <= 25 * p.len(),
    decreases p.len(),
{
    if p.len() > 0 {
        lemma_sum_cents_bound(p.drop_last());
    }
}

/// The one-character text of digit `d`.
fn digit_str(d: u64) -> (r: &'static str)
    requires
        d < 10,
    ensures
        r@ == seq![digit_char(d as nat)],
{
    match d {
        0 => {
            proof {
                reveal_strlit("0");
            }
            "0"
        },
        1 => {
            proof {
                reveal_strlit("1");
            }
            "1"
        },
        2 => {
            proof {
                reveal_strlit("2");
            }
            "2"
        },
        3 => {
            proof {
                reveal_strlit("3");
            }
            "3"
        },
        4 => {
            proof {
                reveal_strlit("4");
            }
            "4"
        },
        5 => {
            proof {
                reveal_strlit("5");
            }
            "5"
        },
        6 => {
            proof {
                reveal_strlit("6");
            }
            "6"
        },
        7 => {
            proof {
                reveal_strlit("7");
            }
            "7"
        },
        8 => {
            proof {
                reveal_strlit("8");
            }
            "8"
        },
        _ => {
            proof {
                reveal_strlit("9");
            }
            "9"
        },
    }
}

/// Appends `n` in decimal to `s`.
fn push_decimal(s: &mut String, n: u64)
    ensures
        final(s)@ == old(s)@ + decimal(n as nat),
    decreases n,
{
    if n >= 10 {
        push_decimal(s, n / 10);
    }
    s.append(digit_str(n % 10));
    proof {
        assert(old(s)@ + decimal(n as nat) =~= final(s)@);
    }
}

/// An amount of cents as dollars with exactly two fractional digits.
pub fn as_currency_string(amt: u64) -> (r: String)
    ensures
        r@ == currency_text(amt as nat),
{
    let mut s = String::from_str("$");
    proof {
        reveal_strlit("$");
    }
    push_decimal(&mut s, amt / 100);
    s.append(".");
    proof {
        reveal_strlit(".");
    }
    s.append(digit_str((amt % 100) / 10));
    s.append(digit_str(amt % 10));
    proof {
        assert(s@ =~= currency_text(amt as nat));
    }
    s
}

/// The closing line of a report on `coins` coins worth `total` cents.
pub fn summary_line(coins: u64, total: u64) -> (r: String)
    ensures
        r@ == summary_text(coins as nat, total as nat),
{
    let mut s = String::from_str("The ");
    push_decimal(&mut s, coins);
    s.append(" coins in your purse are worth ");
    let cur = as_currency_string(total);
    s.append(cur.as_str());
    proof {
        assert(s@ =~= summary_text(coins as nat, total as nat));
    }
    s
}

/// The purse that a sequence of draws gives, in draw order: each draw is a coin
/// index and the state index used should that coin be a quarter.
pub fn purse_from_draws(draws: &Vec<(u8, u8)>) -> (r: Vec<Coin>)
    ensures
        r@ == coins_of_draws(draws@),
{
    let mut purse: Vec<Coin> = Vec::new();
    let mut i: usize = 0;
    while i < draws.len()
        invariant
            i <= draws.len(),
            purse@ == coins_of_draws(draws@.take(i as int)),
        decreases draws.len() - i,
    {
        let (idx, state_idx) = draws[i];
        purse.push(draw_coin(idx, state_idx));
        i += 1;
        proof {
            assert(purse@ =~= coins_of_draws(draws@.take(i as int)));
        }
    }
    proof {
        assert(draws@.take(draws.len() as int) =~= draws@);
    }
    purse
}

/// Draws `count` coins, each uniformly from the four kinds, a quarter's state
/// uniformly from the fifty.
pub fn fill_purse(count: u32) -> (r: Vec<Coin>)
    ensures
        r@.len() == count,
        forall|i: int| 0 <= i < r@.len() ==> well_drawn(#[trigger] r@[i]),
{
    let mut purse: Vec<Coin> = Vec::new();
    let mut k: u32 = 0;
    while k < count
        invariant
            k <= count,
            purse@.len() == k,
            forall|i: int| 0 <= i < purse@.len() ==> well_drawn(#[trigger] purse@[i]),
        decreases count - k,
    {
        let idx = random_below(4);
        purse.push(coin_gen(idx));
        k += 1;
    }
    purse
}

/// The worth of a purse in cents, and the non-empty messages of its coins in order.
pub fn total_purse(purse: &Vec<Coin>) -> (r: (u64, Vec<String>))
    requires
        purse@.len() <= u32::MAX,
    ensures
        r.0 as nat == sum_cents(purse@),
        texts(r.1@) == messages(purse@),
{
    let mut total: u64 = 0;
    let mut msgs: Vec<String> = Vec::new();
    let mut i: usize = 0;
    while i < purse.len()
        invariant
            i <= purse.len(),
            purse@.len() <= u32::MAX,
            total as nat == sum_cents(purse@.take(i as int)),
            texts(msgs@) == messages(purse@.take(i as int)),
        decreases purse.len() - i,
    {
        let (cents, msg) = value_in_cents(purse[i]);
        proof {
            let next = purse@.take(i + 1);
            assert(next.drop_last() =~= purse@.take(i as int));
            lemma_sum_cents_bound(next);
        }
        total = total + cents as u64;
        if !msg.as_str().is_empty() {
            msgs.push(msg);
        }
        i += 1;
        proof {
            assert(texts(msgs@) =~= messages(purse@.take(i as int)));
        }
    }
    proof {
        assert(purse@.take(purse.len() as int) =~= purse@);
    }
    (total, msgs)
}

/// The lines reported on a purse: each non-empty coin message in order, then
/// the summary line giving the number of coins and their worth.
pub fn purse_report(purse: &Vec<Coin>) -> (r: Vec<String>)
    requires
        purse@.len() <= u32::MAX,
    ensures
        texts(r@) == report_of(purse@),
{
    let (total, mut lines) = total_purse(purse);
    let summary = summary_line(purse.len() as u64, total);
    lines.push(summary);
    proof {
        assert(texts(lines@) =~= report_of(purse@));
    }
    lines
}

/// Draws a purse of `coins` random coins and reports on it.
pub fn coin_counter_lines(coins: u32) -> (r: Vec<String>)
    ensures
        exists|p: Seq<Coin>|
            p.len() == coins && (forall|i: int| 0 <= i < p.len() ==> well_drawn(#[trigger] p[i]))
                && #[trigger] report_of(p) == texts(r@),
{
    let purse = fill_purse(coins);
    let lines = purse_report(&purse);
    proof {
        assert(report_of(purse@) == texts(lines@));
    }
    lines
}

} // verus!
