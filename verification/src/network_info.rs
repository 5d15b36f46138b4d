//! What the network map shows of the machine it runs on: the host's name,
//! its interfaces, its name servers and its gateway, read out of what the
//! host found on the system.

use vstd::prelude::*;
use vstd::string::{StrSliceExecFns, StringExecFns};
use crate::text::texts;

verus! {

/// The most name servers that are shown.
pub const MAX_DNS_SERVERS: usize = 3;

/// The local network as the network map shows it.
#[derive(Debug, Clone)]
pub struct LocalNetworkInfo {
    pub hostname: String,
    pub interfaces: Vec<String>,
    pub dns_servers: Vec<String>,
    pub gateway: Option<String>,
}

/// The local network as plain values.
pub struct LocalNetworkView {
    pub hostname: Seq<char>,
    pub interfaces: Seq<Seq<char>>,
    pub dns_servers: Seq<Seq<char>>,
    pub gateway: Option<Seq<char>>,
}

impl View for LocalNetworkInfo {
    type V = LocalNetworkView;

    open spec fn view(&self) -> LocalNetworkView {
        LocalNetworkView {
            hostname: self.hostname@,
            interfaces: texts(self.interfaces@),
            dns_servers: texts(self.dns_servers@),
            gateway: match self.gateway {
                Some(g) => Some(g@),
                None => None,
            },
        }
    }
}

/// A character that separates words: the characters with the Unicode
/// property `White_Space`.
pub open spec fn spec_is_space(c: char) -> bool {
    ||| c == '\u{9}'
    ||| c == '\u{a}'
    ||| c == '\u{b}'
    ||| c == '\u{c}'
    ||| c == '\u{d}'
    ||| c == ' '
    ||| c == '\u{85}'
    ||| c == '\u{a0}'
    ||| c == '\u{1680}'
    ||| c == '\u{2000}'
    ||| c == '\u{2001}'
    ||| c == '\u{2002}'
    ||| c == '\u{2003}'
    ||| c == '\u{2004}'
    ||| c == '\u{2005}'
    ||| c == '\u{2006}'
    ||| c == '\u{2007}'
    ||| c == '\u{2008}'
    ||| c == '\u{2009}'
    ||| c == '\u{200a}'
    ||| c == '\u{2028}'
    ||| c == '\u{2029}'
    ||| c == '\u{202f}'
    ||| c == '\u{205f}'
    ||| c == '\u{3000}'
}

/// A character that separates pieces: a line feed where lines are wanted,
/// any space where words are.
pub open spec fn spec_separates(c: char, lines: bool) -> bool {
    if lines {
        c == '\u{a}'
    } else {
        spec_is_space(c)
    }
}

/// The piece collected so far, if it holds anything.
pub open spec fn spec_piece(current: Seq<char>) -> Seq<Seq<char>> {
    if current.len() > 0 {
        seq![current]
    } else {
        Seq::empty()
    }
}

/// The non-empty pieces of a text from position `i` on, the piece in
/// progress being `current`.
pub open spec fn spec_pieces_from(s: Seq<char>, i: int, current: Seq<char>, lines: bool) -> Seq<
    Seq<char>,
>
    decreases s.len() - i,
{
    if i < 0 || i >= s.len() {
        spec_piece(current)
    } else if spec_separates(s[i], lines) {
        spec_piece(current) + spec_pieces_from(s, i + 1, Seq::empty(), lines)
    } else {
        spec_pieces_from(s, i + 1, current.push(s[i]), lines)
    }
}

/// The non-empty pieces of a text, in order: its words where `lines` is
/// not set, its non-empty lines where it is.
pub open spec fn spec_pieces(s: Seq<char>, lines: bool) -> Seq<Seq<char>> {
    spec_pieces_from(s, 0, Seq::empty(), lines)
}

/// The words of a text.
pub open spec fn spec_words(s: Seq<char>) -> Seq<Seq<char>> {
    spec_pieces(s, false)
}

/// A text begins with a prefix.
pub open spec fn spec_starts_with(s: Seq<char>, prefix: Seq<char>) -> bool {
    s.len() >= prefix.len() && s.subrange(0, prefix.len() as int) == prefix
}

/// The name server that a line of the resolver's configuration names: the
/// second word of a line whose first word begins with `nameserver`.
pub open spec fn spec_name_server(line: Seq<char>) -> Option<Seq<char>> {
    let words = spec_words(line);
    if words.len() >= 2 && spec_starts_with(words[0], "nameserver"@) {
        Some(words[1])
    } else {
        None
    }
}

/// The name servers that the first `n` lines name, in order.
pub open spec fn spec_name_servers_upto(lines: Seq<Seq<char>>, n: int) -> Seq<Seq<char>>
    decreases n,
{
    if n <= 0 {
        Seq::empty()
    } else {
        match spec_name_server(lines[n - 1]) {
            Some(server) => spec_name_servers_upto(lines, n - 1).push(server),
            None => spec_name_servers_upto(lines, n - 1),
        }
    }
}

/// The first entries of a list, at most `limit` of them.
pub open spec fn spec_first(list: Seq<Seq<char>>, limit: int) -> Seq<Seq<char>> {
    if list.len() > limit {
        list.take(limit)
    } else {
        list
    }
}

/// The name servers of a resolver's configuration: those its lines name,
/// the first three of them.
pub open spec fn spec_dns_servers(content: Seq<char>) -> Seq<Seq<char>> {
    let lines = spec_pieces(content, true);
    spec_first(spec_name_servers_upto(lines, lines.len() as int), MAX_DNS_SERVERS as int)
}

/// The position of the first word at or after `from` that is `via`; the
/// number of words where there is none.
pub open spec fn spec_find_via(words: Seq<Seq<char>>, from: int) -> int
    decreases words.len() - from,
{
    if from < 0 || from >= words.len() {
        words.len() as int
    } else if words[from] == "via"@ {
        from
    } else {
        spec_find_via(words, from + 1)
    }
}

/// The gateway in the listing of the default route: the word after the
/// first `via`.
pub open spec fn spec_gateway(output: Seq<char>) -> Option<Seq<char>> {
    let words = spec_words(output);
    let found = spec_find_via(words, 0);
    if found + 1 < words.len() {
        Some(words[found + 1])
    } else {
        None
    }
}

/// An interface that is shown: one with a name, the loopback excepted.
pub open spec fn spec_is_shown(name: Seq<char>) -> bool {
    name.len() > 0 && name != "lo"@
}

/// The interfaces among the first `n` names that are shown, in order.
pub open spec fn spec_shown_upto(names: Seq<Seq<char>>, n: int) -> Seq<Seq<char>>
    decreases n,
{
    if n <= 0 {
        Seq::empty()
    } else if spec_is_shown(names[n - 1]) {
        spec_shown_upto(names, n - 1).push(names[n - 1])
    } else {
        spec_shown_upto(names, n - 1)
    }
}

/// The local network from what the host found: the host's name or
/// `localhost`; the shown interfaces or `eth0` where they could not be
/// listed; the name servers of the resolver's configuration or `8.8.8.8`
/// where it could not be read; the gateway of the default route, if the
/// route could be listed and names one.
pub open spec fn spec_discover(
    hostname: Option<Seq<char>>,
    interface_names: Option<Seq<Seq<char>>>,
    resolv_conf: Option<Seq<char>>,
    default_route: Option<Seq<char>>,
) -> LocalNetworkView {
    LocalNetworkView {
        hostname: match hostname {
            Some(name) => name,
            None => "localhost"@,
        },
        interfaces: match interface_names {
            Some(names) => spec_shown_upto(names, names.len() as int),
            None => seq!["eth0"@],
        },
        dns_servers: match resolv_conf {
            Some(content) => spec_dns_servers(content),
            None => seq!["8.8.8.8"@],
        },
        gateway: match default_route {
            Some(output) => spec_gateway(output),
            None => None,
        },
    }
}

/// Whether a character separates words.
pub fn is_space(c: char) -> (space: bool)
    ensures
        space == spec_is_space(c),
{
    c == '\u{9}' || c == '\u{a}' || c == '\u{b}' || c == '\u{c}' || c == '\u{d}' || c == ' ' || c
        == '\u{85}' || c == '\u{a0}' || c == '\u{1680}' || c == '\u{2000}' || c == '\u{2001}' || c
        == '\u{2002}' || c == '\u{2003}' || c == '\u{2004}' || c == '\u{2005}' || c == '\u{2006}'
        || c == '\u{2007}' || c == '\u{2008}' || c == '\u{2009}' || c == '\u{200a}' || c
        == '\u{2028}' || c == '\u{2029}' || c == '\u{202f}' || c == '\u{205f}' || c == '\u{3000}'
}

/// The non-empty pieces of a text: its words, or its non-empty lines.
pub fn pieces(s: &str, lines: bool) -> (found: Vec<String>)
    ensures
        texts(found@) == spec_pieces(s@, lines),
{
    let len = s.unicode_len();
    let mut found: Vec<String> = Vec::new();
    let mut start: usize = 0;
    let mut i: usize = 0;
    proof {
        assert(texts(found@) =~= Seq::<Seq<char>>::empty());
        assert(s@.subrange(0, 0) =~= Seq::<char>::empty());
        assert(Seq::<Seq<char>>::empty() + spec_pieces(s@, lines) =~= spec_pieces(s@, lines));
    }
    while i < len
        invariant
            start <= i <= len,
            len == s@.len(),
            texts(found@) + spec_pieces_from(
                s@,
                i as int,
                s@.subrange(start as int, i as int),
                lines,
            ) == spec_pieces(s@, lines),
        decreases len - i,
    {
        let c = s.get_char(i);
        let separates = if lines {
            c == '\u{a}'
        } else {
            is_space(c)
        };
        let ghost current = s@.subrange(start as int, i as int);
        let ghost before = texts(found@);
        if separates {
            if start < i {
                found.push(String::from_str(s.substring_char(start, i)));
                proof {
                    assert(texts(found@) =~= before.push(current));
                }
            }
            start = i + 1;
            proof {
                assert(s@.subrange(start as int, i as int + 1) =~= Seq::<char>::empty());
                assert(texts(found@) + spec_pieces_from(s@, i as int + 1, Seq::empty(), lines)
                    =~= before + (spec_piece(current) + spec_pieces_from(
                    s@,
                    i as int + 1,
                    Seq::empty(),
                    lines,
                )));
            }
        } else {
            proof {
                assert(s@.subrange(start as int, i as int + 1) =~= current.push(s@[i as int]));
            }
        }
        i = i + 1;
    }
    let ghost current = s@.subrange(start as int, i as int);
    let ghost before = texts(found@);
    if start < i {
        found.push(String::from_str(s.substring_char(start, i)));
        proof {
            assert(texts(found@) =~= before.push(current));
        }
    }
    proof {
        assert(texts(found@) =~= before + spec_piece(current));
    }
    found
}

/// Whether a text begins with a prefix.
pub fn starts_with(s: &str, prefix: &str) -> (begins: bool)
    ensures
        begins == spec_starts_with(s@, prefix@),
{
    let len = prefix.unicode_len();
    if s.unicode_len() < len {
        return false;
    }
    let mut i: usize = 0;
    while i < len
        invariant
            i <= len,
            len == prefix@.len(),
            len <= s@.len(),
            s@.subrange(0, i as int) == prefix@.subrange(0, i as int),
        decreases len - i,
    {
        if s.get_char(i) != prefix.get_char(i) {
            proof {
                if s@.subrange(0, len as int) == prefix@ {
                    assert(s@.subrange(0, len as int)[i as int] == prefix@[i as int]);
                }
            }
            return false;
        }
        proof {
            assert(s@.subrange(0, i as int + 1) =~= s@.subrange(0, i as int).push(s@[i as int]));
            assert(prefix@.subrange(0, i as int + 1) =~= prefix@.subrange(0, i as int).push(
                prefix@[i as int],
            ));
        }
        i = i + 1;
    }
    proof {
        assert(prefix@.subrange(0, len as int) =~= prefix@);
    }
    true
}

/// The name servers of a resolver's configuration, the first three.
pub fn parse_dns_servers(content: &str) -> (servers: Vec<String>)
    ensures
        texts(servers@) == spec_dns_servers(content@),
{
    let lines = pieces(content, true);
    let mut servers: Vec<String> = Vec::new();
    let mut i: usize = 0;
    proof {
        assert(texts(servers@) =~= Seq::<Seq<char>>::empty());
    }
    while i < lines.len()
        invariant
            i <= lines@.len(),
            texts(servers@) == spec_first(
                spec_name_servers_upto(texts(lines@), i as int),
                MAX_DNS_SERVERS as int,
            ),
        decreases lines@.len() - i,
    {
        let ghost named = spec_name_servers_upto(texts(lines@), i as int);
        let ghost before = texts(servers@);
        let mut words = pieces(lines[i].as_str(), false);
        if words.len() >= 2 && starts_with(words[0].as_str(), "nameserver") {
            if servers.len() < MAX_DNS_SERVERS {
                let server = words.swap_remove(1);
                servers.push(server);
                proof {
                    assert(texts(servers@) =~= before.push(
                        spec_words(texts(lines@)[i as int])[1],
                    ));
                    assert(texts(servers@) =~= spec_first(
                        spec_name_servers_upto(texts(lines@), i as int + 1),
                        MAX_DNS_SERVERS as int,
                    ));
                }
            } else {
                proof {
                    assert(before =~= spec_first(
                        spec_name_servers_upto(texts(lines@), i as int + 1),
                        MAX_DNS_SERVERS as int,
                    ));
                }
            }
        }
        i = i + 1;
    }
    servers
}

/// The gateway in the listing of the default route.
pub fn parse_gateway(output: &str) -> (gateway: Option<String>)
    ensures
        (match gateway {
            Some(g) => Some(g@),
            None => None,
        }) == spec_gateway(output@),
{
    let mut words = pieces(output, false);
    let marker = String::from_str("via");
    let mut i: usize = 0;
    while i < words.len()
        invariant
            i <= words@.len(),
            marker@ == "via"@,
            texts(words@) == spec_words(output@),
            spec_find_via(texts(words@), 0) == spec_find_via(texts(words@), i as int),
        decreases words@.len() - i,
    {
        if words[i] == marker {
            if i + 1 < words.len() {
                let ghost wanted = texts(words@)[i as int + 1];
                let gateway = words.swap_remove(i + 1);
                assert(gateway@ == wanted);
                return Some(gateway);
            } else {
                return None;
            }
        }
        i = i + 1;
    }
    None
}

/// The interfaces of a list of names that are shown.
pub fn shown_interfaces(names: &Vec<String>) -> (shown: Vec<String>)
    ensures
        texts(shown@) == spec_shown_upto(texts(names@), names@.len() as int),
{
    let loopback = String::from_str("lo");
    let empty = String::new();
    let mut shown: Vec<String> = Vec::new();
    let mut i: usize = 0;
    proof {
        assert(texts(shown@) =~= Seq::<Seq<char>>::empty());
    }
    while i < names.len()
        invariant
            i <= names@.len(),
            loopback@ == "lo"@,
            empty@.len() == 0,
            texts(shown@) == spec_shown_upto(texts(names@), i as int),
        decreases names@.len() - i,
    {
        let ghost before = texts(shown@);
        let name = &names[i];
        proof {
            assert(name@.len() == 0 <==> name@ =~= empty@);
        }
        if !(*name == empty) && !(*name == loopback) {
            shown.push(name.clone());
            proof {
                assert(texts(shown@) =~= before.push(name@));
            }
        }
        i = i + 1;
    }
    shown
}

impl LocalNetworkInfo {
    /// The local network from what the host found on the system: the
    /// host's name, the names of the interfaces, the text of the resolver's
    /// configuration and the listing of the default route, each as far as
    /// it could be had.
    pub fn discover(
        hostname: Option<String>,
        interface_names: Option<Vec<String>>,
        resolv_conf: Option<String>,
        default_route: Option<String>,
    ) -> (info: LocalNetworkInfo)
        ensures
            info@ == spec_discover(
                match hostname {
                    Some(name) => Some(name@),
                    None => None,
                },
                match interface_names {
                    Some(names) => Some(texts(names@)),
                    None => None,
                },
                match resolv_conf {
                    Some(content) => Some(content@),
                    None => None,
                },
                match default_route {
                    Some(output) => Some(output@),
                    None => None,
                },
            ),
    {
        let hostname = match hostname {
            Some(name) => name,
            None => String::from_str("localhost"),
        };
        let interfaces = match interface_names {
            Some(names) => shown_interfaces(&names),
            None => {
                let mut fallback: Vec<String> = Vec::new();
                fallback.push(String::from_str("eth0"));
                assert(texts(fallback@) =~= seq!["eth0"@]);
                fallback
            },
        };
        let dns_servers = match resolv_conf {
            Some(content) => parse_dns_servers(content.as_str()),
            None => {
                let mut fallback: Vec<String> = Vec::new();
                fallback.push(String::from_str("8.8.8.8"));
                assert(texts(fallback@) =~= seq!["8.8.8.8"@]);
                fallback
            },
        };
        let gateway = match default_route {
            Some(output) => parse_gateway(output.as_str()),
            None => None,
        };
        LocalNetworkInfo { hostname, interfaces, dns_servers, gateway }
    }
}

} // verus!
