//! Syntax check for the addresses that travel in `MAIL FROM:<..>` and
//! `RCPT TO:<..>`.
//!
//! An address is accepted when it reads `local@domain`, with a non-empty
//! local part made of letters, digits, dots and the punctuation that may
//! stand unquoted in a mailbox name, and a non-empty domain made of
//! letters, digits, hyphens and dots.

use crate::text::chars_of;
use vstd::prelude::*;

verus! {

/// ASCII letters and digits.
pub open spec fn is_alphanumeric(c: char) -> bool {
    ('a' <= c && c <= 'z') || ('A' <= c && c <= 'Z') || ('0' <= c && c <= '9')
}

/// Punctuation that may stand unquoted in the local part of an address.
pub open spec fn is_local_punctuation(c: char) -> bool {
    c == '!' || c == '#' || c == '$' || c == '%' || c == '&' || c == '\'' || c == '*' || c == '+'
        || c == '-' || c == '/' || c == '=' || c == '?' || c == '^' || c == '_' || c == '`' || c
        == '{' || c == '|' || c == '}' || c == '~' || c == '.'
}

/// Characters of the local part.
pub open spec fn is_local_char(c: char) -> bool {
    is_alphanumeric(c) || is_local_punctuation(c)
}

/// Characters of the domain.
pub open spec fn is_domain_char(c: char) -> bool {
    is_alphanumeric(c) || c == '-' || c == '.'
}

/// Whether `address` reads as a local part, an `@` at index `at`, and a
/// domain, neither part empty.
pub open spec fn separates_at(address: Seq<char>, at: int) -> bool {
    &&& 0 < at < address.len() - 1
    &&& address[at] == '@'
    &&& forall|i: int| 0 <= i < at ==> is_local_char(#[trigger] address[i])
    &&& forall|i: int| at < i < address.len() ==> is_domain_char(#[trigger] address[i])
}

/// The addresses that the syntax check accepts.
pub open spec fn valid_email_address(address: Seq<char>) -> bool {
    exists|at: int| separates_at(address, at)
}

/// An accepted address holds exactly one `@`, no space and no angle
/// bracket, and is at least three characters long.
pub proof fn lemma_valid_address_shape(address: Seq<char>)
    requires
        valid_email_address(address),
    ensures
        address.len() >= 3,
        forall|i: int| 0 <= i < address.len() ==> address[i] != ' ' && address[i] != '<' && address[i] != '>',
        forall|i: int, j: int|
            0 <= i < address.len() && 0 <= j < address.len() && address[i] == '@' && address[j]
                == '@' ==> i == j,
{
    let at = choose|at: int| separates_at(address, at);
    assert forall|i: int| 0 <= i < address.len() implies (address[i] == '@' <==> i == at) by {
        if i < at {
            assert(is_local_char(address[i]));
        } else if i > at {
            assert(is_domain_char(address[i]));
        }
    }
    assert forall|i: int| 0 <= i < address.len() implies address[i] != ' ' && address[i] != '<'
        && address[i] != '>' by {
        if i < at {
            assert(is_local_char(address[i]));
        } else if i > at {
            assert(is_domain_char(address[i]));
        }
    }
}

fn alphanumeric(c: char) -> (b: bool)
    ensures
        b == is_alphanumeric(c),
{
    ('a' <= c && c <= 'z') || ('A' <= c && c <= 'Z') || ('0' <= c && c <= '9')
}

fn local_char(c: char) -> (b: bool)
    ensures
        b == is_local_char(c),
{
    alphanumeric(c) || c == '!' || c == '#' || c == '$' || c == '%' || c == '&' || c == '\'' || c
        == '*' || c == '+' || c == '-' || c == '/' || c == '=' || c == '?' || c == '^' || c == '_'
        || c == '`' || c == '{' || c == '|' || c == '}' || c == '~' || c == '.'
}

fn domain_char(c: char) -> (b: bool)
    ensures
        b == is_domain_char(c),
{
    alphanumeric(c) || c == '-' || c == '.'
}

/// The syntax check on an address given as characters.
pub fn validate_address_chars(address: &Vec<char>) -> (ok: bool)
    ensures
        ok == valid_email_address(address@),
{
    let n = address.len();
    let mut at: usize = 0;
    while at < n && local_char(address[at])
        invariant
            at <= n,
            n == address.len(),
            forall|i: int| 0 <= i < at ==> is_local_char(#[trigger] address@[i]),
        decreases n - at,
    {
        at += 1;
    }
    // `at` is the first index that is not a local character, so it is the
    // only place where the separator can stand.
    assert forall|other: int| separates_at(address@, other) implies other == at by {
        if other < at {
            assert(is_local_char(address@[other]));
        } else if other > at {
            assert(at < n);
            assert(is_local_char(address@[at as int]));
        }
    }
    if at == 0 || at >= n || address[at] != '@' || at + 1 >= n {
        return false;
    }
    let mut i: usize = at + 1;
    while i < n
        invariant
            at < i <= n,
            n == address.len(),
            0 < at,
            address@[at as int] == '@',
            forall|j: int| 0 <= j < at ==> is_local_char(#[trigger] address@[j]),
            forall|j: int| at < j < i ==> is_domain_char(#[trigger] address@[j]),
            forall|other: int| separates_at(address@, other) ==> other == at,
        decreases n - i,
    {
        if !domain_char(address[i]) {
            assert(!separates_at(address@, at as int));
            return false;
        }
        i += 1;
    }
    assert(separates_at(address@, at as int));
    true
}

/// The syntax check that decides whether the text between the angle
/// brackets of `MAIL FROM:<..>` or `RCPT TO:<..>` is an address.
pub fn validate_email_address(address: &str) -> (ok: bool)
    ensures
        ok == valid_email_address(address@),
{
    let chars = chars_of(address);
    validate_address_chars(&chars)
}

} // verus!
