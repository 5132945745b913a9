//! Command-line arguments: the search mode, the target zero count and, for
//! CREATE3, the deployer, factory and proxy init code.

use vstd::prelude::*;
use vstd::string::*;
use crate::address::Address;
use crate::create3::Create3Generator;
use crate::eoa::EoaGenerator;
use crate::generator::Generator;

verus! {

/// Why the arguments were refused.
#[derive(Clone, Copy, Debug, PartialEq, Eq, Structural)]
pub enum ArgError {
    /// No target zero count was given.
    MissingTarget,
    /// The target zero count is not a number that fits a `usize`.
    InvalidTarget,
    /// The mode is missing or is neither `eoa` nor `create3`.
    UnknownMode,
    /// CREATE3 mode without a deployer address.
    MissingDeployer,
    InvalidDeployer,
    InvalidFactory,
    InvalidProxyBytecode,
}

pub open spec fn is_digit(c: char) -> bool {
    '0' <= c && c <= '9'
}

/// The number that the decimal digits `d` spell.
pub open spec fn decimal_value(d: Seq<char>) -> nat
    decreases d.len(),
{
    if d.len() == 0 {
        0
    } else {
        (decimal_value(d.drop_last()) * 10 + (d.last() as u32 - '0' as u32)) as nat
    }
}

/// The digits of an unsigned decimal, after an optional `+`.
pub open spec fn unsigned_digits(text: Seq<char>) -> Seq<char> {
    if text.len() > 0 && text[0] == '+' {
        text.skip(1)
    } else {
        text
    }
}

/// The `usize` that `text` spells as an unsigned decimal (an optional `+`,
/// then one digit or more), if it fits.
pub open spec fn parsed_count(text: Seq<char>) -> Option<nat> {
    let d = unsigned_digits(text);
    if d.len() > 0 && (forall|i: int| 0 <= i < d.len() ==> is_digit(#[trigger] d[i]))
        && decimal_value(d) <= usize::MAX {
        Some(decimal_value(d))
    } else {
        None
    }
}

/// The value of a hex digit of either case, or -1 for another character.
pub open spec fn hex_value(c: char) -> int {
    if '0' <= c && c <= '9' {
        c as u32 - '0' as u32
    } else if 'a' <= c && c <= 'f' {
        c as u32 - 'a' as u32 + 10
    } else if 'A' <= c && c <= 'F' {
        c as u32 - 'A' as u32 + 10
    } else {
        -1
    }
}

pub open spec fn is_hex_digit(c: char) -> bool {
    hex_value(c) >= 0
}

/// The bytes that pairs of hex digits spell, high nibble first.
pub open spec fn hex_bytes(digits: Seq<char>) -> Seq<u8> {
    Seq::new(
        digits.len() / 2,
        |i: int| (hex_value(digits[2 * i]) * 16 + hex_value(digits[2 * i + 1])) as u8,
    )
}

/// Whitespace that address text may hold between digits.
pub open spec fn is_hex_space(c: char) -> bool {
    c == ' ' || c == '\r' || c == '\n' || c == '\t'
}

/// The address that `text` spells: an optional `0x`, then 40 hex digits of
/// either case, with whitespace allowed anywhere after the prefix.
pub open spec fn parsed_address(text: Seq<char>) -> Option<Seq<u8>> {
    let body = if text.len() >= 2 && text[0] == '0' && text[1] == 'x' {
        text.skip(2)
    } else {
        text
    };
    let digits = body.filter(|c: char| !is_hex_space(c));
    if digits.len() == 40 && (forall|i: int| 0 <= i < 40 ==> is_hex_digit(#[trigger] digits[i])) {
        Some(hex_bytes(digits))
    } else {
        None
    }
}

/// The bytes that `text` spells: an optional `0x` or `0X`, then an even
/// number of hex digits of either case.
pub open spec fn decoded_hex(text: Seq<char>) -> Option<Seq<u8>> {
    let body = if text.len() >= 2 && text[0] == '0' && (text[1] == 'x' || text[1] == 'X') {
        text.skip(2)
    } else {
        text
    };
    if body.len() % 2 == 0 && (forall|i: int| 0 <= i < body.len() ==> is_hex_digit(#[trigger] body[i])) {
        Some(hex_bytes(body))
    } else {
        None
    }
}

/// Relies on `FromStr` of ethers' `Address` (fixed-hash's `H160`): strips a
/// `0x` prefix, skips spaces, tabs and line breaks, and reads exactly 40 hex
/// digits of either case, big endian; anything else is an error.
#[verifier::external_body]
fn parse_address_text(text: &str) -> (r: Option<Address>)
    ensures
        r is Some <==> parsed_address(text@) is Some,
        r matches Some(a) ==> parsed_address(text@) == Some(a@),
{
    <ethers::types::Address as std::str::FromStr>::from_str(text).ok().map(|a| a.0)
}

/// Relies on the hex module re-exported by ethers::utils (const-hex's
/// `decode`): strips a `0x` or `0X` prefix and decodes an even number of hex
/// digits of either case; anything else is an error.
#[verifier::external_body]
fn decode_hex_text(text: &str) -> (r: Option<Vec<u8>>)
    ensures
        r is Some <==> decoded_hex(text@) is Some,
        r matches Some(b) ==> decoded_hex(text@) == Some(b@),
{
    ethers::utils::hex::decode(text).ok()
}

/// The value of a decimal prefix never exceeds the value of the whole.
proof fn lemma_decimal_prefix(d: Seq<char>, i: int)
    requires
        0 <= i <= d.len(),
        forall|j: int| 0 <= j < d.len() ==> is_digit(#[trigger] d[j]),
    ensures
        decimal_value(d.subrange(0, i)) <= decimal_value(d),
    decreases d.len(),
{
    if i < d.len() {
        lemma_decimal_prefix(d.drop_last(), i);
        assert(d.drop_last().subrange(0, i) =~= d.subrange(0, i));
    } else {
        assert(d.subrange(0, i) =~= d);
    }
}

/// Reads an unsigned decimal count.
pub fn parse_count(text: &str) -> (r: Option<usize>)
    ensures
        r is Some <==> parsed_count(text@) is Some,
        r matches Some(v) ==> parsed_count(text@) == Some(v as nat),
{
    let n = text.unicode_len();
    let mut start: usize = 0;
    if n > 0 && text.get_char(0) == '+' {
        start = 1;
    }
    let ghost d = unsigned_digits(text@);
    assert(d =~= text@.subrange(start as int, n as int));
    if start == n {
        return None;
    }
    let mut value: usize = 0;
    let mut i: usize = start;
    while i < n
        invariant
            n == text@.len(),
            d == text@.subrange(start as int, n as int),
            d == unsigned_digits(text@),
            start <= i <= n,
            forall|j: int| 0 <= j < i - start ==> is_digit(#[trigger] d[j]),
            value == decimal_value(d.subrange(0, i - start)),
        decreases n - i,
    {
        let c = text.get_char(i);
        assert(d[i - start] == c);
        if !('0' <= c && c <= '9') {
            assert(!is_digit(d[i - start]));
            return None;
        }
        let digit = (c as u32 - '0' as u32) as usize;
        assert(d.subrange(0, i + 1 - start).drop_last() =~= d.subrange(0, i - start));
        if value > (usize::MAX - digit) / 10 {
            proof {
                let prefix = d.subrange(0, i + 1 - start);
                assert(prefix.last() == c);
                assert(value * 10 + digit > usize::MAX) by (nonlinear_arith)
                    requires
                        value > (usize::MAX - digit) / 10,
                        digit <= 9,
                ;
                assert(decimal_value(prefix) > usize::MAX);
                if forall|j: int| 0 <= j < d.len() ==> is_digit(#[trigger] d[j]) {
                    lemma_decimal_prefix(d, i + 1 - start);
                }
            }
            return None;
        }
        value = value * 10 + digit;
        i = i + 1;
    }
    assert(d.subrange(0, n - start) =~= d);
    Some(value)
}

/// The bytes of the default CREATE3 factory address.
pub open spec fn default_factory_address_bytes() -> Seq<u8> {
    seq![
        0x9fu8, 0xbbu8, 0x3du8, 0xf7u8, 0xc4u8, 0x0du8, 0xa2u8, 0xe5u8, 0xa0u8, 0xdeu8,
        0x98u8, 0x4fu8, 0xfeu8, 0x2cu8, 0xcbu8, 0x7cu8, 0x47u8, 0xcdu8, 0x0au8, 0xbfu8,
    ]
}

/// The bytes of the default proxy init code.
pub open spec fn default_proxy_byte_code_bytes() -> Seq<u8> {
    seq![
        0x67u8, 0x36u8, 0x3du8, 0x3du8, 0x37u8, 0x36u8, 0x3du8, 0x34u8,
        0xf0u8, 0x3du8, 0x52u8, 0x60u8, 0x08u8, 0x60u8, 0x18u8, 0xf3u8,
    ]
}

/// The factory that CREATE3 mode uses where none is given,
/// `0x9fBB3DF7C40Da2e5A0dE984fFE2CCB7C47cd0ABf`.
pub fn default_factory_address() -> (r: Address)
    ensures
        r@ == default_factory_address_bytes(),
{
    let r: Address = [
        0x9f, 0xbb, 0x3d, 0xf7, 0xc4, 0x0d, 0xa2, 0xe5, 0xa0, 0xde,
        0x98, 0x4f, 0xfe, 0x2c, 0xcb, 0x7c, 0x47, 0xcd, 0x0a, 0xbf,
    ];
    assert(r@ =~= default_factory_address_bytes());
    r
}

/// The minimal proxy init code that CREATE3 mode uses where none is given,
/// `67363d3d37363d34f03d5260086018f3`.
pub fn default_proxy_byte_code() -> (r: Vec<u8>)
    ensures
        r@ == default_proxy_byte_code_bytes(),
{
    let r: Vec<u8> = vec![
        0x67, 0x36, 0x3d, 0x3d, 0x37, 0x36, 0x3d, 0x34, 0xf0, 0x3d, 0x52, 0x60, 0x08, 0x60, 0x18, 0xf3,
    ];
    assert(r@ =~= default_proxy_byte_code_bytes());
    r
}

/// The target zero count's text: the second argument after the program name.
pub open spec fn target_text(args: Seq<String>) -> Seq<char> {
    args[2]@
}

/// The mode argument is `mode`.
pub open spec fn mode_is(args: Seq<String>, mode: Seq<char>) -> bool {
    args.len() > 1 && args[1]@ == mode
}

pub open spec fn eoa_mode(args: Seq<String>) -> bool {
    mode_is(args, seq!['e', 'o', 'a'])
}

pub open spec fn create3_mode(args: Seq<String>) -> bool {
    mode_is(args, seq!['c', 'r', 'e', 'a', 't', 'e', '3'])
}

/// The error, if any, that the arguments give, in the order they are read:
/// the target, the mode, then the CREATE3 addresses and proxy init code.
pub open spec fn argument_error(args: Seq<String>) -> Option<ArgError> {
    if args.len() <= 2 {
        Some(ArgError::MissingTarget)
    } else if parsed_count(target_text(args)) is None {
        Some(ArgError::InvalidTarget)
    } else if eoa_mode(args) {
        None
    } else if !create3_mode(args) {
        Some(ArgError::UnknownMode)
    } else if args.len() <= 3 {
        Some(ArgError::MissingDeployer)
    } else if parsed_address(args[3]@) is None {
        Some(ArgError::InvalidDeployer)
    } else if args.len() > 4 && parsed_address(args[4]@) is None {
        Some(ArgError::InvalidFactory)
    } else if args.len() > 5 && decoded_hex(args[5]@) is None {
        Some(ArgError::InvalidProxyBytecode)
    } else {
        None
    }
}

/// `g` is the CREATE3 configuration that the arguments give.
pub open spec fn create3_configured(args: Seq<String>, g: Create3Generator) -> bool {
    &&& Some(g.deployer_address@) == parsed_address(args[3]@)
    &&& args.len() > 4 ==> Some(g.factory_address@) == parsed_address(args[4]@)
    &&& args.len() <= 4 ==> g.factory_address@ == default_factory_address_bytes()
    &&& args.len() > 5 ==> Some(g.proxy_byte_code@) == decoded_hex(args[5]@)
    &&& args.len() <= 5 ==> g.proxy_byte_code@ == default_proxy_byte_code_bytes()
}

/// `target` and `generator` are what arguments without error give.
pub open spec fn configured(args: Seq<String>, target: usize, generator: Generator) -> bool {
    &&& parsed_count(target_text(args)) == Some(target as nat)
    &&& eoa_mode(args) ==> generator is Eoa
    &&& !eoa_mode(args) ==> (generator matches Generator::Create3(g) && create3_configured(args, g))
}

/// Reads the arguments after the program name: the mode, the target zero
/// count and, for CREATE3, the deployer address, then optionally the factory
/// address and the proxy init code in hex.
pub fn parse_arguments(args: &Vec<String>) -> (r: Result<(usize, Generator), ArgError>)
    ensures
        argument_error(args@) is Some ==> (r matches Err(e) && argument_error(args@) == Some(e)),
        argument_error(args@) is None ==> (r matches Ok((target, generator)) && configured(
            args@,
            target,
            generator,
        )),
{
    proof {
        reveal_strlit("eoa");
        reveal_strlit("create3");
    }
    if args.len() <= 2 {
        return Err(ArgError::MissingTarget);
    }
    let text = args[2].as_str();
    assert(text@ == target_text(args@));
    let target = match parse_count(text) {
        Some(t) => t,
        None => return Err(ArgError::InvalidTarget),
    };
    let eoa = String::from_str("eoa");
    let create3 = String::from_str("create3");
    assert(eoa@ =~= seq!['e', 'o', 'a']);
    assert(create3@ =~= seq!['c', 'r', 'e', 'a', 't', 'e', '3']);
    if args.len() > 1 && args[1] == eoa {
        return Ok((target, Generator::Eoa(EoaGenerator {})));
    }
    if !(args.len() > 1 && args[1] == create3) {
        return Err(ArgError::UnknownMode);
    }
    if args.len() <= 3 {
        return Err(ArgError::MissingDeployer);
    }
    let deployer_address = match parse_address_text(args[3].as_str()) {
        Some(a) => a,
        None => return Err(ArgError::InvalidDeployer),
    };
    let factory_address = if args.len() > 4 {
        match parse_address_text(args[4].as_str()) {
            Some(a) => a,
            None => return Err(ArgError::InvalidFactory),
        }
    } else {
        default_factory_address()
    };
    let proxy_byte_code = if args.len() > 5 {
        match decode_hex_text(args[5].as_str()) {
            Some(b) => b,
            None => return Err(ArgError::InvalidProxyBytecode),
        }
    } else {
        default_proxy_byte_code()
    };
    Ok((
        target,
        Generator::Create3(Create3Generator::new(deployer_address, factory_address, proxy_byte_code)),
    ))
}

} // verus!
