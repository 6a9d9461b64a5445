//! The VPN provider's servers: reading a server list, resolving an alias,
//! and naming the namespace after provider and server.
use crate::error::NetnsError;
use crate::text::{split_command, views, words};
use vstd::prelude::*;

verus! {

/// One server of a provider: the alias users type, the host and the port.
#[derive(Debug)]
pub struct ServerEntry {
    pub alias: String,
    pub host: String,
    pub port: u16,
}

/// `{provider_alias}_{server_alias}`.
pub open spec fn namespace_name_of(provider_alias: Seq<char>, server_alias: Seq<char>) -> Seq<
    char,
> {
    provider_alias + "_"@ + server_alias
}

/// The name of the namespace for a provider and a server.
pub fn namespace_name(provider_alias: &str, server_alias: &str) -> (r: String)
    ensures
        r@ == namespace_name_of(provider_alias@, server_alias@),
{
    let mut r = String::from_str(provider_alias);
    r.append("_");
    r.append(server_alias);
    r
}

/// Compares two texts character by character.
pub fn same_text(a: &str, b: &str) -> (r: bool)
    ensures
        r == (a@ == b@),
{
    let n = a.unicode_len();
    if n != b.unicode_len() {
        return false;
    }
    let mut i: usize = 0;
    while i < n
        invariant
            n == a@.len() == b@.len(),
            i <= n,
            a@.take(i as int) == b@.take(i as int),
        decreases n - i,
    {
        if a.get_char(i) != b.get_char(i) {
            assert(a@[i as int] != b@[i as int]);
            return false;
        }
        assert(a@.take(i + 1) =~= a@.take(i as int).push(a@[i as int]));
        assert(b@.take(i + 1) =~= b@.take(i as int).push(b@[i as int]));
        i += 1;
    }
    assert(a@ =~= a@.take(n as int));
    assert(b@ =~= b@.take(n as int));
    true
}

/// Whether `i` is the first entry of `list` whose alias is `alias`.
pub open spec fn first_match(list: Seq<ServerEntry>, alias: Seq<char>, i: int) -> bool {
    &&& 0 <= i < list.len()
    &&& list[i].alias@ == alias
    &&& forall|j: int| 0 <= j < i ==> list[j].alias@ != alias
}

/// Resolves a server alias into host, port and alias, by the first entry of
/// the list that carries it. Fails with `VpnResolutionError` when none does.
pub fn find_host_from_alias(alias: &str, serverlist: &Vec<ServerEntry>) -> (r: Result<
    (String, u16, String),
    NetnsError,
>)
    ensures
        r is Ok <==> exists|i: int| 0 <= i < serverlist@.len() && serverlist@[i].alias@ == alias@,
        r matches Err(e) ==> e == NetnsError::VpnResolutionError,
        r matches Ok(t) ==> exists|i: int|
            first_match(serverlist@, alias@, i) && t.0@ == serverlist@[i].host@ && t.1
                == serverlist@[i].port && t.2@ == serverlist@[i].alias@,
{
    let mut i: usize = 0;
    while i < serverlist.len()
        invariant
            i <= serverlist@.len(),
            forall|j: int| 0 <= j < i ==> serverlist@[j].alias@ != alias@,
        decreases serverlist@.len() - i,
    {
        let entry = &serverlist[i];
        if same_text(entry.alias.as_str(), alias) {
            assert(first_match(serverlist@, alias@, i as int));
            return Ok((entry.host.clone(), entry.port, entry.alias.clone()));
        }
        i += 1;
    }
    Err(NetnsError::VpnResolutionError)
}

/// Whether `c` is a decimal digit.
pub open spec fn is_digit(c: char) -> bool {
    '0' <= c && c <= '9'
}

/// The value of a string of decimal digits.
pub open spec fn digits_value(s: Seq<char>) -> nat
    decreases s.len(),
{
    if s.len() == 0 {
        0
    } else {
        digits_value(s.drop_last()) * 10 + (s.last() as nat - '0' as nat) as nat
    }
}

/// The port that `s` writes: one or more decimal digits, at most 65535.
pub open spec fn port_of(s: Seq<char>) -> Option<u16> {
    if 0 < s.len() && (forall|i: int| 0 <= i < s.len() ==> is_digit(s[i])) && digits_value(s)
        <= 65535 {
        Some(digits_value(s) as u16)
    } else {
        None
    }
}

/// Reads a port number.
pub fn parse_port(s: &str) -> (r: Option<u16>)
    ensures
        r == port_of(s@),
{
    let n = s.unicode_len();
    if n == 0 {
        return None;
    }
    let mut value: u32 = 0;
    let mut i: usize = 0;
    while i < n
        invariant
            n == s@.len(),
            i <= n,
            forall|j: int| 0 <= j < i ==> is_digit(s@[j]),
            value == digits_value(s@.take(i as int)),
            value <= 65535,
        decreases n - i,
    {
        let c = s.get_char(i);
        assert(s@.take(i + 1).drop_last() =~= s@.take(i as int));
        if c < '0' || c > '9' {
            return None;
        }
        let next: u32 = value * 10 + (c as u32 - '0' as u32);
        if next > 65535 {
            proof {
                if forall|j: int| 0 <= j < s@.len() ==> is_digit(s@[j]) {
                    lemma_digits_value_grows(s@, i + 1);
                }
            }
            return None;
        }
        value = next;
        i += 1;
    }
    assert(s@.take(n as int) =~= s@);
    Some(value as u16)
}

/// A string of digits is worth at least any of its prefixes.
proof fn lemma_digits_value_grows(s: Seq<char>, k: int)
    requires
        0 <= k <= s.len(),
        forall|i: int| 0 <= i < s.len() ==> is_digit(s[i]),
    ensures
        digits_value(s.take(k)) <= digits_value(s),
    decreases s.len() - k,
{
    if k < s.len() {
        lemma_digits_value_grows(s, k + 1);
        assert(s.take(k + 1).drop_last() =~= s.take(k));
    } else {
        assert(s.take(k) =~= s);
    }
}

/// The entries that a word list gives: words taken three at a time as
/// alias, host and port; `None` when the words do not fall into triples or a
/// port is not a port.
pub open spec fn entries_of(ws: Seq<Seq<char>>) -> Option<Seq<(Seq<char>, Seq<char>, u16)>>
    decreases ws.len(),
{
    if ws.len() == 0 {
        Some(seq![])
    } else if ws.len() < 3 {
        None
    } else {
        match (port_of(ws[2]), entries_of(ws.skip(3))) {
            (Some(p), Some(rest)) => Some(seq![(ws[0], ws[1], p)] + rest),
            _ => None,
        }
    }
}

/// The views of a server list.
pub open spec fn entry_views(v: Seq<ServerEntry>) -> Seq<(Seq<char>, Seq<char>, u16)> {
    v.map_values(|e: ServerEntry| (e.alias@, e.host@, e.port))
}

/// Reads a provider's server list: whitespace-separated triples of alias,
/// host and port, one server per line. Fails with `VpnResolutionError` on
/// anything else.
pub fn parse_serverlist(text: &str) -> (r: Result<Vec<ServerEntry>, NetnsError>)
    ensures
        r is Ok <==> entries_of(words(text@)) is Some,
        r matches Err(e) ==> e == NetnsError::VpnResolutionError,
        r matches Ok(list) ==> entries_of(words(text@)) == Some(entry_views(list@)),
{
    let ws = split_command(text);
    let mut out: Vec<ServerEntry> = Vec::new();
    let mut i: usize = 0;
    let ghost all = views(ws@);
    assert(all.skip(0) =~= all);
    assert(entry_views(out@) + entries_of(all)->0 =~= entries_of(all)->0);
    while i < ws.len()
        invariant
            all == views(ws@),
            all == words(text@),
            i <= ws@.len(),
            i % 3 == 0,
            entries_of(all) is Some <==> entries_of(all.skip(i as int)) is Some,
            entries_of(all) is Some ==> entries_of(all) == Some(
                entry_views(out@) + entries_of(all.skip(i as int))->0,
            ),
        decreases ws@.len() - i,
    {
        let ghost rest = all.skip(i as int);
        if ws.len() - i < 3 {
            return Err(NetnsError::VpnResolutionError);
        }
        assert(rest[0] == ws@[i as int]@ && rest[1] == ws@[i + 1]@ && rest[2] == ws@[i + 2]@);
        assert(rest.skip(3) =~= all.skip(i + 3));
        match parse_port(ws[i + 2].as_str()) {
            None => {
                return Err(NetnsError::VpnResolutionError);
            },
            Some(port) => {
                let ghost old_out = out@;
                out.push(
                    ServerEntry { alias: ws[i].clone(), host: ws[i + 1].clone(), port },
                );
                assert(entry_views(out@) =~= entry_views(old_out).push(
                    (rest[0], rest[1], port),
                ));
                proof {
                    if entries_of(rest.skip(3)) is Some {
                        assert(entry_views(old_out) + entries_of(rest)->0 =~= entry_views(out@)
                            + entries_of(rest.skip(3))->0);
                    }
                }
                i += 3;
            },
        }
    }
    assert(all.skip(i as int) =~= seq![]);
    assert(entry_views(out@) + seq![] =~= entry_views(out@));
    Ok(out)
}

} // verus!
