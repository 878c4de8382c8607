//! Scope enforcement: may a target be scanned at all?
use crate::net::{IpAddress, block_contains, cidr_literal, ip_literal, parse_cidr, parse_ip};
use vstd::prelude::*;

verus! {

/// The character code of `c` with ASCII upper case letters lowered.
pub open spec fn ascii_fold(c: char) -> u32 {
    if 'A' <= c && c <= 'Z' {
        (c as u32 + 32) as u32
    } else {
        c as u32
    }
}

/// `a` and `b` are equal up to ASCII case.
pub open spec fn eq_ignore_ascii_case(a: Seq<char>, b: Seq<char>) -> bool {
    a.len() == b.len() && forall|i: int| 0 <= i < a.len() ==> ascii_fold(a[i]) == ascii_fold(b[i])
}

/// Some entry of the allowlist names `target` verbatim, up to ASCII case.
pub open spec fn listed_verbatim(target: Seq<char>, allowlist: Seq<Seq<char>>) -> bool {
    exists|i: int| 0 <= i < allowlist.len() && eq_ignore_ascii_case(allowlist[i], target)
}

/// `entry` denotes a CIDR block that holds `ip`; an entry that is no CIDR
/// block holds nothing.
pub open spec fn entry_holds(entry: Seq<char>, ip: IpAddress) -> bool {
    match cidr_literal(entry) {
        Some(c) => c.holds(ip),
        None => false,
    }
}

/// `ip` lies in the block that some entry of the allowlist denotes.
pub open spec fn covered_by_block(ip: IpAddress, allowlist: Seq<Seq<char>>) -> bool {
    exists|i: int| 0 <= i < allowlist.len() && #[trigger] entry_holds(allowlist[i], ip)
}

/// The scope rule: a verbatim match, or a literal IP address inside a listed block.
pub open spec fn in_scope_spec(target: Seq<char>, allowlist: Seq<Seq<char>>) -> bool {
    listed_verbatim(target, allowlist) || match ip_literal(target) {
        Some(ip) => covered_by_block(ip, allowlist),
        None => false,
    }
}

/// The views of a list of strings.
pub open spec fn views(v: Seq<String>) -> Seq<Seq<char>> {
    v.map_values(|s: String| s@)
}

fn fold_char(c: char) -> (r: u32)
    ensures
        r == ascii_fold(c),
{
    if 'A' <= c && c <= 'Z' {
        c as u32 + 32
    } else {
        c as u32
    }
}

/// Compares two strings up to ASCII case.
pub fn equals_ignore_ascii_case(a: &str, b: &str) -> (r: bool)
    ensures
        r == eq_ignore_ascii_case(a@, b@),
{
    let n = a.unicode_len();
    if n != b.unicode_len() {
        return false;
    }
    let mut i: usize = 0;
    while i < n
        invariant
            n == a@.len(),
            n == b@.len(),
            i <= n,
            forall|j: int| 0 <= j < i ==> ascii_fold(a@[j]) == ascii_fold(b@[j]),
        decreases n - i,
    {
        if fold_char(a.get_char(i)) != fold_char(b.get_char(i)) {
            return false;
        }
        i = i + 1;
    }
    true
}

/// Decides whether `target` may be scanned under `allowlist`.
///
/// Allowed when some entry equals the target up to ASCII case, or when the
/// target is a literal IP address inside the block of some entry. Entries
/// that are no CIDR block are skipped; no name is ever resolved.
pub fn in_scope(target: &str, allowlist: &Vec<String>) -> (r: bool)
    ensures
        r == in_scope_spec(target@, views(allowlist@)),
{
    let ghost list = views(allowlist@);
    let mut i: usize = 0;
    while i < allowlist.len()
        invariant
            i <= allowlist.len(),
            list == views(allowlist@),
            forall|j: int| 0 <= j < i ==> !eq_ignore_ascii_case(#[trigger] list[j], target@),
        decreases allowlist.len() - i,
    {
        if equals_ignore_ascii_case(allowlist[i].as_str(), target) {
            assert(eq_ignore_ascii_case(list[i as int], target@));
            return true;
        }
        i = i + 1;
    }
    let ip = match parse_ip(target) {
        Some(ip) => ip,
        None => return false,
    };
    let mut k: usize = 0;
    while k < allowlist.len()
        invariant
            k <= allowlist.len(),
            list == views(allowlist@),
            !listed_verbatim(target@, list),
            ip_literal(target@) == Some(ip),
            forall|j: int| 0 <= j < k ==> !#[trigger] entry_holds(list[j], ip),
        decreases allowlist.len() - k,
    {
        match parse_cidr(allowlist[k].as_str()) {
            Some(block) => {
                if block_contains(&block, &ip) {
                    assert(entry_holds(list[k as int], ip));
                    return true;
                }
            },
            None => {},
        }
        k = k + 1;
    }
    false
}

} // verus!
