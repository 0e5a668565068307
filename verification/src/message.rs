use vstd::prelude::*;
use vstd::string::StringExecFns;

verus! {

/// The decimal digit character for `d`.
pub open spec fn spec_digit_char(d: int) -> char {
    if d == 0 {
        '0'
    } else if d == 1 {
        '1'
    } else if d == 2 {
        '2'
    } else if d == 3 {
        '3'
    } else if d == 4 {
        '4'
    } else if d == 5 {
        '5'
    } else if d == 6 {
        '6'
    } else if d == 7 {
        '7'
    } else if d == 8 {
        '8'
    } else {
        '9'
    }
}

/// The decimal rendering of `n`, without sign or leading zeroes
/// (`0` renders as the single character `'0'`).
pub open spec fn spec_decimal(n: int) -> Seq<char>
    decreases n,
{
    if n < 10 {
        seq![spec_digit_char(n)]
    } else {
        spec_decimal(n / 10).push(spec_digit_char(n % 10))
    }
}

/// The one-character string for the decimal digit `d`.
fn digit_str(d: u64) -> (s: &'static str)
    requires
        d < 10,
    ensures
        s@ =~= seq![spec_digit_char(d as int)],
{
    proof {
        reveal_strlit("0");
        reveal_strlit("1");
        reveal_strlit("2");
        reveal_strlit("3");
        reveal_strlit("4");
        reveal_strlit("5");
        reveal_strlit("6");
        reveal_strlit("7");
        reveal_strlit("8");
        reveal_strlit("9");
    }
    match d {
        0 => "0",
        1 => "1",
        2 => "2",
        3 => "3",
        4 => "4",
        5 => "5",
        6 => "6",
        7 => "7",
        8 => "8",
        _ => "9",
    }
}

/// Renders `n` in decimal.
pub fn u64_to_decimal(n: u64) -> (s: String)
    ensures
        s@ == spec_decimal(n as int),
    decreases n,
{
    if n < 10 {
        String::from_str(digit_str(n))
    } else {
        let mut s = u64_to_decimal(n / 10);
        s.append(digit_str(n % 10));
        proof {
            assert(spec_decimal(n as int) =~= spec_decimal(n as int / 10) + seq![
                spec_digit_char(n as int % 10),
            ]);
        }
        s
    }
}

/// The canonical signed message for an action tagged `action`: a fixed
/// textual encoding embedding the wallet identity, the amount and the
/// timestamp, which must match byte for byte what the off-system signer
/// signed.
pub open spec fn spec_canonical_message(
    wallet: u64,
    amount: u64,
    timestamp: u64,
    action: Seq<char>,
) -> Seq<char> {
    "{\"wallet\":\""@ + spec_decimal(wallet as int) + "\",\"amount\":"@ + spec_decimal(
        amount as int,
    ) + ",\"timestamp\":\""@ + spec_decimal(timestamp as int) + "\",\"action\":\""@ + action
        + "\"}"@
}

/// Builds the canonical signed message for `action`.
pub fn canonical_message(wallet: u64, amount: u64, timestamp: u64, action: &str) -> (m: String)
    ensures
        m@ == spec_canonical_message(wallet, amount, timestamp, action@),
{
    let mut m = String::from_str("{\"wallet\":\"");
    m.append(u64_to_decimal(wallet).as_str());
    m.append("\",\"amount\":");
    m.append(u64_to_decimal(amount).as_str());
    m.append(",\"timestamp\":\"");
    m.append(u64_to_decimal(timestamp).as_str());
    m.append("\",\"action\":\"");
    m.append(action);
    m.append("\"}");
    m
}

} // verus!
