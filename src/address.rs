//! Addresses and their score: leading zero nibbles and the longest run of one
//! repeated character after them.

use vstd::prelude::*;

verus! {

/// A 20-byte account or contract address, most significant byte first.
pub type Address = [u8; 20];

/// The `i`-th hexadecimal nibble of `a`, high nibble of each byte first.
pub open spec fn nibble(a: Seq<u8>, i: int) -> u8 {
    if i % 2 == 0 {
        (a[i / 2] / 16) as u8
    } else {
        (a[i / 2] % 16) as u8
    }
}

/// The lowercase hexadecimal digit of a nibble.
pub open spec fn hex_digit(n: u8) -> char {
    seq!['0', '1', '2', '3', '4', '5', '6', '7', '8', '9', 'a', 'b', 'c', 'd', 'e', 'f'][n as int]
}

/// `data` written as lowercase hexadecimal, two digits per byte, no prefix.
pub open spec fn hex_text(data: Seq<u8>) -> Seq<char> {
    Seq::new(2 * data.len(), |i: int| hex_digit(nibble(data, i)))
}

/// `n` is the number of leading zero nibbles of `a`.
pub open spec fn is_zero_prefix(a: Seq<u8>, n: int) -> bool {
    &&& 0 <= n <= 2 * a.len()
    &&& forall|i: int| 0 <= i < n ==> #[trigger] nibble(a, i) == 0
    &&& n < 2 * a.len() ==> nibble(a, n) != 0
}

/// `s[i..i + k]` lies within `s` and holds one character only.
pub open spec fn uniform_run(s: Seq<char>, i: int, k: int) -> bool {
    &&& 0 <= i
    &&& 0 <= k
    &&& i + k <= s.len()
    &&& forall|j: int| i <= j < i + k ==> #[trigger] s[j] == s[i]
}

/// `n` is the length of the longest run of one repeated character in `s`
/// (0 for the empty text).
pub open spec fn is_longest_run(s: Seq<char>, n: int) -> bool {
    &&& exists|i: int| uniform_run(s, i, n)
    &&& forall|i: int, k: int| #[trigger] uniform_run(s, i, k) ==> k <= n
}

/// Number of leading zero nibbles of an address: each zero byte counts two,
/// the first non-zero byte counts one if its high nibble is zero.
pub fn zero_count(address: &Address) -> (r: usize)
    ensures
        is_zero_prefix(address@, r as int),
{
    let mut i: usize = 0;
    while i < 20
        invariant
            0 <= i <= 20,
            address@.len() == 20,
            forall|j: int| 0 <= j < 2 * i ==> #[trigger] nibble(address@, j) == 0,
        decreases 20 - i,
    {
        let b = address[i];
        if b != 0 {
            if b < 16 {
                assert(nibble(address@, 2 * i + 1) != 0);
                return 2 * i + 1;
            } else {
                assert(nibble(address@, 2 * i as int) != 0);
                return 2 * i;
            }
        }
        assert forall|j: int| 0 <= j < 2 * (i + 1) implies #[trigger] nibble(address@, j) == 0 by {
            if j >= 2 * i {
                assert(j / 2 == i as int);
            }
        }
        i = i + 1;
    }
    40
}

/// Length of the longest run of one repeated character in `text`.
pub fn longest_run(text: &str) -> (r: usize)
    ensures
        is_longest_run(text@, r as int),
{
    let len = text.unicode_len();
    let mut best: usize = 0;
    let mut cur: usize = 0;
    let mut prev: char = ' ';
    let mut i: usize = 0;
    assert(uniform_run(text@, 0, 0));
    while i < len
        invariant
            len == text@.len(),
            0 <= cur <= i <= len,
            cur <= best <= i,
            i > 0 ==> cur >= 1 && prev == text@[i - 1],
            uniform_run(text@, i - cur, cur as int),
            i - cur > 0 ==> text@[i - cur - 1] != text@[i - cur],
            exists|j: int| uniform_run(text@, j, best as int),
            forall|j: int, k: int| #[trigger] uniform_run(text@, j, k) && j + k <= i ==> k <= best,
        decreases len - i,
    {
        let c = text.get_char(i);
        if i > 0 && c == prev {
            cur = cur + 1;
        } else {
            cur = 1;
        }
        let ghost start = i + 1 - cur;
        assert(uniform_run(text@, start, cur as int));
        if cur > best {
            best = cur;
        }
        assert forall|j: int, k: int| #[trigger] uniform_run(text@, j, k) && j + k <= i + 1 implies k
            <= best by {
            if j + k == i + 1 && k > cur {
                assert(text@[start - 1] == text@[j]);
                assert(text@[start] == text@[j]);
            }
        }
        prev = c;
        i = i + 1;
    }
    best
}

/// The text of an address: `0x` followed by its 40 lowercase hex digits.
pub open spec fn address_text_of(a: Seq<u8>) -> Seq<char> {
    seq!['0', 'x'] + hex_text(a)
}

/// The score of an address: its leading zero nibbles, and the longest run of
/// one repeated character in its hex digits after them.
#[derive(Clone, Copy, Debug, PartialEq, Eq, Structural)]
pub struct Score {
    pub zero_count: usize,
    pub repeat_run: usize,
}

/// `score` is the score of address `a`.
pub open spec fn is_score_of(a: Seq<u8>, score: Score) -> bool {
    &&& is_zero_prefix(a, score.zero_count as int)
    &&& is_longest_run(hex_text(a).subrange(score.zero_count as int, 2 * a.len() as int), score.repeat_run as int)
}

/// Relies on the hex module re-exported by ethers::utils (const-hex's
/// `encode`): each byte becomes two lowercase hex digits, high nibble first.
#[verifier::external_body]
fn encode_hex(data: &[u8]) -> (r: String)
    ensures
        r@ == hex_text(data@),
{
    ethers::utils::hex::encode(data)
}

/// Lowercase hex text of `data`, no prefix.
pub fn to_hex(data: &[u8]) -> (r: String)
    ensures
        r@ == hex_text(data@),
{
    encode_hex(data)
}

/// The text of an address, `0x` and 40 lowercase hex digits.
pub fn address_text(address: &Address) -> (r: String)
    ensures
        r@ == address_text_of(address@),
{
    let mut text = String::from_str("0x");
    let digits = encode_hex(address.as_slice());
    text.append(digits.as_str());
    proof {
        reveal_strlit("0x");
        assert(text@ =~= address_text_of(address@));
    }
    text
}

/// The score of an address.
pub fn score_address(address: &Address) -> (r: Score)
    ensures
        is_score_of(address@, r),
{
    let zero_count = zero_count(address);
    let digits = encode_hex(address.as_slice());
    let tail = digits.as_str().substring_char(zero_count, 40);
    let repeat_run = longest_run(tail);
    Score { zero_count, repeat_run }
}

} // verus!
