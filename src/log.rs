//! Lines of the result log: sequence number, address, zero count and secret,
//! separated by tabs, one line per logged candidate.

use vstd::prelude::*;
use crate::address::{address_text, address_text_of, hex_digit, hex_text, Address};

verus! {

/// The decimal digits of `n`, without leading zeros.
pub open spec fn decimal_text_of(n: nat) -> Seq<char>
    decreases n,
{
    if n < 10 {
        seq![hex_digit(n as u8)]
    } else {
        decimal_text_of(n / 10) + seq![hex_digit((n % 10) as u8)]
    }
}

/// One log line: the four fields separated by tabs, then a line break.
pub open spec fn log_line_of(
    sequence_number: nat,
    address: Seq<u8>,
    zero_count: nat,
    secret_text: Seq<char>,
) -> Seq<char> {
    decimal_text_of(sequence_number) + seq!['\t'] + address_text_of(address) + seq!['\t']
        + decimal_text_of(zero_count) + seq!['\t'] + secret_text + seq!['\n']
}

/// The text of one decimal digit.
fn digit_text(d: u64) -> (r: &'static str)
    requires
        d < 10,
    ensures
        r@ == seq![hex_digit(d as u8)],
{
    proof {
        reveal_strlit("0");
        reveal_strlit("1");
        reveal_strlit("2");
        reveal_strlit("3");
        reveal_strlit("4");
        reveal_strlit("5");
        reveal_strlit("6");
        reveal_strlit("7");
        reveal_strlit("8");
        reveal_strlit("9");
    }
    let r = if d == 0 {
        "0"
    } else if d == 1 {
        "1"
    } else if d == 2 {
        "2"
    } else if d == 3 {
        "3"
    } else if d == 4 {
        "4"
    } else if d == 5 {
        "5"
    } else if d == 6 {
        "6"
    } else if d == 7 {
        "7"
    } else if d == 8 {
        "8"
    } else {
        "9"
    };
    assert(r@ =~= seq![hex_digit(d as u8)]);
    r
}

/// `n` in decimal.
pub fn decimal_text(n: u64) -> (r: String)
    ensures
        r@ == decimal_text_of(n as nat),
    decreases n,
{
    if n < 10 {
        String::from_str(digit_text(n))
    } else {
        let mut text = decimal_text(n / 10);
        text.append(digit_text(n % 10));
        text
    }
}

/// The log line of a logged candidate.
pub fn log_line(sequence_number: u64, address: &Address, zero_count: usize, secret_text: &str) -> (r:
    String)
    ensures
        r@ == log_line_of(sequence_number as nat, address@, zero_count as nat, secret_text@),
{
    let tab = "\t";
    let newline = "\n";
    proof {
        reveal_strlit("\t");
        reveal_strlit("\n");
    }
    let mut line = decimal_text(sequence_number);
    line.append(tab);
    line.append(address_text(address).as_str());
    line.append(tab);
    line.append(decimal_text(zero_count as u64).as_str());
    line.append(tab);
    line.append(secret_text);
    line.append(newline);
    assert(line@ =~= log_line_of(sequence_number as nat, address@, zero_count as nat, secret_text@));
    line
}

/// Decimal text holds no line break.
proof fn lemma_decimal_has_no_line_break(n: nat)
    ensures
        forall|i: int| 0 <= i < decimal_text_of(n).len() ==> #[trigger] decimal_text_of(n)[i]
            != '\n',
    decreases n,
{
    if n >= 10 {
        lemma_decimal_has_no_line_break(n / 10);
        let pre = decimal_text_of(n / 10);
        assert forall|i: int| 0 <= i < decimal_text_of(n).len() implies #[trigger] decimal_text_of(
            n,
        )[i] != '\n' by {
            if i < pre.len() {
                assert(decimal_text_of(n)[i] == pre[i]);
            }
        }
    }
}

/// A log line whose secret is hex text ends in its only line break, so that
/// lines written whole to the log never run into each other.
pub proof fn lemma_log_line_is_one_line(
    sequence_number: nat,
    address: Seq<u8>,
    zero_count: nat,
    secret: Seq<u8>,
)
    ensures
        ({
            let line = log_line_of(sequence_number, address, zero_count, hex_text(secret));
            &&& line.last() == '\n'
            &&& forall|i: int| 0 <= i < line.len() - 1 ==> #[trigger] line[i] != '\n'
        }),
{
    lemma_decimal_has_no_line_break(sequence_number);
    lemma_decimal_has_no_line_break(zero_count);
    let line = log_line_of(sequence_number, address, zero_count, hex_text(secret));
    let a = decimal_text_of(sequence_number);
    let b = address_text_of(address);
    let c = decimal_text_of(zero_count);
    let d = hex_text(secret);
    assert forall|i: int| 0 <= i < line.len() - 1 implies #[trigger] line[i] != '\n' by {
        let ab = a.len() + 1;
        let bc = ab + b.len() + 1;
        let cd = bc + c.len() + 1;
        if i < a.len() {
            assert(line[i] == a[i]);
        } else if i == a.len() {
            assert(line[i] == '\t');
        } else if i < ab + b.len() {
            assert(line[i] == b[i - ab]);
            if i - ab >= 2 {
                let k = i - ab - 2;
                assert(b[i - ab] == hex_digit(crate::address::nibble(address, k)));
            }
        } else if i == ab + b.len() {
            assert(line[i] == '\t');
        } else if i < bc + c.len() {
            assert(line[i] == c[i - bc]);
        } else if i == bc + c.len() {
            assert(line[i] == '\t');
        } else {
            assert(line[i] == d[i - cd]);
            assert(d[i - cd] == hex_digit(crate::address::nibble(secret, i - cd)));
        }
    }
}

} // verus!
