//! Resolving a connection address into a host and a port.
//!
//! An address is `host:port`, optionally behind `http://` or `https://` and
//! optionally followed by `/` and a path. The host ends at the last colon.

use crate::error::Error;
use crate::text::{chars_of, starts_with, text};
use vstd::prelude::*;
use vstd::string::StrSliceExecFns;

verus! {

/// Why a text is no port number.
#[derive(Debug, Clone, Copy, PartialEq, Eq, Structural)]
pub enum PortFault {
    /// There is nothing to read.
    Empty,
    /// Something other than a decimal digit stands in it.
    InvalidDigit,
    /// The number does not fit in sixteen bits.
    TooLarge,
}

/// The index of the last `c` in `s`, or -1 if there is none.
pub open spec fn last_index_of(s: Seq<char>, c: char) -> int
    decreases s.len(),
{
    if s.len() == 0 {
        -1
    } else if s.last() == c {
        s.len() - 1
    } else {
        last_index_of(s.drop_last(), c)
    }
}

/// The index of the first `c` in `s`, or the length of `s` if there is none.
pub open spec fn first_index_of(s: Seq<char>, c: char) -> int
    decreases s.len(),
{
    if s.len() == 0 {
        0
    } else if s.first() == c {
        0
    } else {
        1 + first_index_of(s.drop_first(), c)
    }
}

/// `c` is a decimal digit.
pub open spec fn is_digit(c: char) -> bool {
    '0' as u32 <= c as u32 && c as u32 <= '9' as u32
}

/// The value of the decimal digit `c`.
pub open spec fn digit_value(c: char) -> nat {
    (c as u32 - '0' as u32) as nat
}

/// Every character of `s` is a decimal digit.
pub open spec fn all_digits(s: Seq<char>) -> bool {
    forall|i: int| 0 <= i < s.len() ==> is_digit(#[trigger] s[i])
}

/// The number that the digits `s` write in decimal.
pub open spec fn digits_value(s: Seq<char>) -> nat
    decreases s.len(),
{
    if s.len() == 0 {
        0
    } else {
        digits_value(s.drop_last()) * 10 + digit_value(s.last())
    }
}

/// `s` without one leading `+`.
pub open spec fn unsigned_part(s: Seq<char>) -> Seq<char> {
    if s.len() > 0 && s[0] == '+' {
        s.skip(1)
    } else {
        s
    }
}

/// The port that `s` writes: decimal digits, at least one, after at most one
/// `+`, whose value fits in sixteen bits. Otherwise the reason why not.
pub open spec fn port_of(s: Seq<char>) -> Result<u16, PortFault> {
    let digits = unsigned_part(s);
    if s.len() == 0 {
        Err(PortFault::Empty)
    } else if digits.len() == 0 || !all_digits(digits) {
        Err(PortFault::InvalidDigit)
    } else if digits_value(digits) > 65535 {
        Err(PortFault::TooLarge)
    } else {
        Ok(digits_value(digits) as u16)
    }
}

/// What stands between the last colon and the first `/` after it.
pub open spec fn port_part(after_colon: Seq<char>) -> Seq<char> {
    after_colon.take(first_index_of(after_colon, '/'))
}

/// How an address resolves.
pub enum Resolution {
    /// To this host and port.
    Resolved { host: Seq<char>, port: u16 },
    /// Not at all: it holds no colon.
    MissingPort,
    /// Not at all: what follows its last colon is no port.
    InvalidPort { port_text: Seq<char>, fault: PortFault },
}

/// How `addr` resolves when read as `host:port`, with an optional path.
pub open spec fn resolve_host_port(addr: Seq<char>) -> Resolution {
    let colon = last_index_of(addr, ':');
    if colon < 0 {
        Resolution::MissingPort
    } else {
        let port_text = port_part(addr.skip(colon + 1));
        match port_of(port_text) {
            Ok(port) => Resolution::Resolved { host: addr.take(colon), port },
            Err(fault) => Resolution::InvalidPort { port_text, fault },
        }
    }
}

/// `addr` without a leading `http://` or `https://`.
pub open spec fn without_scheme(addr: Seq<char>) -> Seq<char> {
    if "http://"@.is_prefix_of(addr) {
        addr.skip("http://"@.len() as int)
    } else if "https://"@.is_prefix_of(addr) {
        addr.skip("https://"@.len() as int)
    } else {
        addr
    }
}

/// How `addr` resolves: as `host:port` once its scheme is taken off.
pub open spec fn resolve(addr: Seq<char>) -> Resolution {
    resolve_host_port(without_scheme(addr))
}

/// The text that explains a port fault.
pub open spec fn port_fault_text(fault: PortFault) -> Seq<char> {
    match fault {
        PortFault::Empty => "cannot parse integer from empty string"@,
        PortFault::InvalidDigit => "invalid digit found in string"@,
        PortFault::TooLarge => "number too large to fit in target type"@,
    }
}

/// `r` reports the resolution `res` of the address `named`.
pub open spec fn reports(
    r: Result<(String, u16), Error>,
    res: Resolution,
    named: Seq<char>,
) -> bool {
    match res {
        Resolution::Resolved { host, port } => r matches Ok(pair) && pair.0@ == host && pair.1
            == port,
        Resolution::MissingPort => r matches Err(Error::MissingPort { address }) && address@
            == named,
        Resolution::InvalidPort { port_text, fault } => r matches Err(
            Error::InvalidPort { address, port_str, source },
        ) && address@ == named && port_str@ == port_text && source@ == port_fault_text(fault),
    }
}

/// The last colon of an address that has one is a colon, and none follows it;
/// an address without colon has index -1.
pub proof fn lemma_last_index_of(s: Seq<char>, c: char)
    ensures
        -1 <= last_index_of(s, c) < s.len(),
        last_index_of(s, c) >= 0 ==> s[last_index_of(s, c)] == c,
        forall|j: int| last_index_of(s, c) < j < s.len() ==> s[j] != c,
    decreases s.len(),
{
    if s.len() > 0 && s.last() != c {
        lemma_last_index_of(s.drop_last(), c);
        assert forall|j: int| last_index_of(s, c) < j < s.len() implies s[j] != c by {
            if j < s.len() - 1 {
                assert(s[j] == s.drop_last()[j]);
            }
        }
    }
}

/// The first `c` of a text is a `c`, and none stands before it.
pub proof fn lemma_first_index_of(s: Seq<char>, c: char)
    ensures
        0 <= first_index_of(s, c) <= s.len(),
        first_index_of(s, c) < s.len() ==> s[first_index_of(s, c)] == c,
        forall|j: int| 0 <= j < first_index_of(s, c) ==> s[j] != c,
    decreases s.len(),
{
    if s.len() > 0 && s.first() != c {
        lemma_first_index_of(s.drop_first(), c);
        assert forall|j: int| 0 <= j < first_index_of(s, c) implies s[j] != c by {
            if j > 0 {
                assert(s[j] == s.drop_first()[j - 1]);
            }
        }
    }
}

/// An index at which `c` stands and before which it does not is the first.
proof fn lemma_first_index_is(s: Seq<char>, c: char, at: int)
    requires
        0 <= at <= s.len(),
        at < s.len() ==> s[at] == c,
        forall|j: int| 0 <= j < at ==> s[j] != c,
    ensures
        first_index_of(s, c) == at,
{
    lemma_first_index_of(s, c);
}

/// An index at which `c` stands and after which it does not is the last.
proof fn lemma_last_index_is(s: Seq<char>, c: char, at: int)
    requires
        -1 <= at < s.len(),
        at >= 0 ==> s[at] == c,
        forall|j: int| at < j < s.len() ==> s[j] != c,
    ensures
        last_index_of(s, c) == at,
{
    lemma_last_index_of(s, c);
}

/// A longer run of digits writes no smaller number.
proof fn lemma_digits_value_prefix(s: Seq<char>, n: int)
    requires
        0 <= n <= s.len(),
    ensures
        digits_value(s.take(n)) <= digits_value(s),
    decreases s.len() - n,
{
    if n == s.len() {
        assert(s.take(n) =~= s);
    } else {
        lemma_digits_value_prefix(s, n + 1);
        assert(s.take(n + 1).drop_last() =~= s.take(n));
        assert(digits_value(s.take(n)) * 10 >= digits_value(s.take(n))) by (nonlinear_arith);
    }
}

/// An address resolves as what follows its scheme does.
pub proof fn lemma_scheme_is_taken_off(rest: Seq<char>)
    ensures
        resolve("http://"@ + rest) == resolve_host_port(rest),
        resolve("https://"@ + rest) == resolve_host_port(rest),
{
    reveal_strlit("http://");
    reveal_strlit("https://");
    let plain = "http://"@ + rest;
    assert(plain.skip(7) =~= rest);
    let secure = "https://"@ + rest;
    assert(secure.skip(8) =~= rest);
    if "http://"@.is_prefix_of(secure) {
        assert("http://"@[4] == ':');
    }
}

/// A path after the port changes nothing: an address without `/` resolves
/// as it does with `/` and a path without colon behind it.
pub proof fn lemma_path_is_taken_off(addr: Seq<char>, path: Seq<char>)
    requires
        forall|i: int| 0 <= i < addr.len() ==> addr[i] != '/',
        forall|i: int| 0 <= i < path.len() ==> path[i] != ':',
    ensures
        resolve_host_port(addr + seq!['/'] + path) == resolve_host_port(addr),
{
    let full = addr + seq!['/'] + path;
    let colon = last_index_of(addr, ':');
    lemma_last_index_of(addr, ':');
    lemma_last_index_is(full, ':', colon);
    if colon >= 0 {
        let after = addr.skip(colon + 1);
        let after_full = full.skip(colon + 1);
        lemma_first_index_is(after_full, '/', after.len() as int);
        lemma_first_index_is(after, '/', after.len() as int);
        assert(port_part(after_full) =~= after);
        assert(port_part(after) =~= after);
        assert(full.take(colon) =~= addr.take(colon));
    }
}

/// The index of the last `c` in `s`.
fn find_last(s: &Vec<char>, c: char) -> (r: Option<usize>)
    ensures
        match r {
            Some(i) => i == last_index_of(s@, c) && i < s.len(),
            None => last_index_of(s@, c) == -1,
        },
{
    let mut i: usize = s.len();
    while i > 0
        invariant
            i <= s.len(),
            forall|j: int| i <= j < s.len() ==> s@[j] != c,
        decreases i,
    {
        i -= 1;
        if s[i] == c {
            proof {
                lemma_last_index_is(s@, c, i as int);
            }
            return Some(i);
        }
    }
    proof {
        lemma_last_index_is(s@, c, -1);
    }
    None
}

/// The index of the first `c` in `s` at or after `from`, or the length of
/// `s` if there is none.
fn find_first_from(s: &Vec<char>, from: usize, c: char) -> (r: usize)
    requires
        from <= s.len(),
    ensures
        from <= r <= s.len(),
        r - from == first_index_of(s@.skip(from as int), c),
{
    let mut i: usize = from;
    while i < s.len()
        invariant
            from <= i <= s.len(),
            forall|j: int| from <= j < i ==> s@[j] != c,
        decreases s.len() - i,
    {
        if s[i] == c {
            proof {
                lemma_first_index_is(s@.skip(from as int), c, i - from);
            }
            return i;
        }
        i += 1;
    }
    proof {
        lemma_first_index_is(s@.skip(from as int), c, i - from);
    }
    i
}

/// Reads a port number.
pub fn parse_port(port_str: &str) -> (r: Result<u16, PortFault>)
    ensures
        r == port_of(port_str@),
{
    let chars = chars_of(port_str);
    if chars.len() == 0 {
        return Err(PortFault::Empty);
    }
    let start: usize = if chars[0] == '+' {
        1
    } else {
        0
    };
    let ghost digits = unsigned_part(chars@);
    if start == chars.len() {
        return Err(PortFault::InvalidDigit);
    }
    let mut i: usize = start;
    while i < chars.len()
        invariant
            start <= i <= chars.len(),
            start < chars.len(),
            chars@ == port_str@,
            digits == unsigned_part(port_str@),
            digits == chars@.skip(start as int),
            forall|j: int| 0 <= j < i - start ==> is_digit(#[trigger] digits[j]),
        decreases chars.len() - i,
    {
        let c = chars[i];
        if (c as u32) < ('0' as u32) || (c as u32) > ('9' as u32) {
            proof {
                assert(!is_digit(digits[i - start]));
            }
            return Err(PortFault::InvalidDigit);
        }
        i += 1;
    }
    let mut value: u32 = 0;
    let mut k: usize = start;
    while k < chars.len()
        invariant
            start <= k <= chars.len(),
            start < chars.len(),
            chars@ == port_str@,
            digits == unsigned_part(port_str@),
            digits == chars@.skip(start as int),
            all_digits(digits),
            value == digits_value(digits.take(k - start)),
            value <= 65535,
        decreases chars.len() - k,
    {
        let c = chars[k];
        proof {
            assert(digits[k - start] == c);
            assert(digits.take(k - start + 1).drop_last() =~= digits.take(k - start));
        }
        let d: u32 = (c as u32) - ('0' as u32);
        value = value * 10 + d;
        if value > 65535 {
            proof {
                lemma_digits_value_prefix(digits, k - start + 1);
            }
            return Err(PortFault::TooLarge);
        }
        k += 1;
    }
    proof {
        assert(digits.take(digits.len() as int) =~= digits);
    }
    Ok(value as u16)
}

/// Writes the text that explains a port fault.
fn fault_message(fault: PortFault) -> (r: String)
    ensures
        r@ == port_fault_text(fault),
{
    match fault {
        PortFault::Empty => text("cannot parse integer from empty string"),
        PortFault::InvalidDigit => text("invalid digit found in string"),
        PortFault::TooLarge => text("number too large to fit in target type"),
    }
}

/// Reads `stripped` as `host:port` and reports the outcome under the name
/// `named`.
fn resolve_as(stripped: &str, named: &str) -> (r: Result<(String, u16), Error>)
    ensures
        reports(r, resolve_host_port(stripped@), named@),
{
    let chars = chars_of(stripped);
    match find_last(&chars, ':') {
        None => Err(Error::MissingPort { address: text(named) }),
        Some(colon) => {
            let end = find_first_from(&chars, colon + 1, '/');
            let port_str = stripped.substring_char(colon + 1, end);
            proof {
                let after = chars@.skip(colon + 1);
                assert(port_str@ =~= port_part(after));
            }
            match parse_port(port_str) {
                Ok(port) => {
                    let host = stripped.substring_char(0, colon);
                    Ok((text(host), port))
                },
                Err(fault) => Err(
                    Error::InvalidPort {
                        address: text(named),
                        port_str: text(port_str),
                        source: fault_message(fault),
                    },
                ),
            }
        },
    }
}

/// Parse host:port format.
///
/// The host is what stands before the last colon. The port is what stands
/// between that colon and the first `/` after it.
pub fn parse_host_port(addr: &str) -> (r: Result<(String, u16), Error>)
    ensures
        reports(r, resolve_host_port(addr@), addr@),
{
    resolve_as(addr, addr)
}

/// Parse address string into host and port.
///
/// A leading `http://` or `https://` is taken off first. An error names the
/// address as it was given.
pub fn parse_address(addr: &str) -> (r: Result<(String, u16), Error>)
    ensures
        reports(r, resolve(addr@), addr@),
{
    let len = addr.unicode_len();
    if starts_with(addr, "http://") {
        proof {
            reveal_strlit("http://");
        }
        let rest = addr.substring_char(7, len);
        resolve_as(rest, addr)
    } else if starts_with(addr, "https://") {
        proof {
            reveal_strlit("https://");
        }
        let rest = addr.substring_char(8, len);
        resolve_as(rest, addr)
    } else {
        resolve_as(addr, addr)
    }
}

} // verus!
