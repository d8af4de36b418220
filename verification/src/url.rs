use vstd::prelude::*;

use crate::document::Method;

verus! {

/// The first position at or after `from` where `c` occurs in `s`.
pub open spec fn find_from(s: Seq<char>, c: char, from: int) -> Option<int>
    decreases s.len() - from,
{
    if from < 0 || from >= s.len() {
        Option::None
    } else if s[from] == c {
        Option::Some(from)
    } else {
        find_from(s, c, from + 1)
    }
}

/// The path part of a server URL: everything from the first '/' at or
/// after position 8 (past the scheme), if there is one.
pub open spec fn server_path(server: Seq<char>) -> Option<Seq<char>> {
    match find_from(server, '/', 8) {
        Option::Some(i) => Option::Some(server.subrange(i, server.len() as int)),
        Option::None => Option::None,
    }
}

/// `s` with every leading copy of `p` removed.
pub open spec fn strip_prefix_repeated(s: Seq<char>, p: Seq<char>) -> Seq<char>
    decreases s.len(),
{
    if p.len() > 0 && p.len() <= s.len() && s.subrange(0, p.len() as int) == p {
        strip_prefix_repeated(s.subrange(p.len() as int, s.len() as int), p)
    } else {
        s
    }
}

/// A target that begins with ':' keeps only the part from its first
/// '/' on, dropping the port shorthand.
pub open spec fn drop_port_prefix(url: Seq<char>) -> Seq<char> {
    if url.len() > 0 && url[0] == ':' {
        match find_from(url, '/', 0) {
            Option::Some(i) => url.subrange(i, url.len() as int),
            Option::None => url,
        }
    } else {
        url
    }
}

/// Strips the first matching server's base path from the URL: servers
/// are tried in order, and the first whose path part is a prefix of
/// the URL has that path removed; the rest are not consulted.
pub open spec fn strip_server_prefix(url: Seq<char>, servers: Seq<Seq<char>>) -> Seq<char>
    decreases servers.len(),
{
    if servers.len() == 0 {
        url
    } else {
        match server_path(servers.first()) {
            Option::Some(p) => {
                if p.len() <= url.len() && url.subrange(0, p.len() as int) == p {
                    strip_prefix_repeated(url, p)
                } else {
                    strip_server_prefix(url, servers.drop_first())
                }
            },
            Option::None => strip_server_prefix(url, servers.drop_first()),
        }
    }
}

/// What `munge_url` returns: the URL without its port shorthand and
/// without the first matching server's base path.
pub open spec fn spec_munge_url(url: Seq<char>, servers: Seq<Seq<char>>) -> Seq<char> {
    strip_server_prefix(drop_port_prefix(url), servers)
}

/// Finds the first occurrence of `c` in `s` at or after `from`.
fn find_char_from(s: &str, c: char, from: usize) -> (r: Option<usize>)
    ensures
        match r {
            Option::Some(k) => find_from(s@, c, from as int) == Option::Some(k as int) && from
                <= k < s@.len() && s@[k as int] == c,
            Option::None => find_from(s@, c, from as int) is None,
        },
{
    let n = s.unicode_len();
    let mut j: usize = from;
    while j < n
        invariant
            from <= j,
            n == s@.len(),
            find_from(s@, c, from as int) == find_from(s@, c, j as int),
        decreases n - j,
    {
        if s.get_char(j) == c {
            return Option::Some(j);
        }
        j += 1;
    }
    Option::None
}

/// Whether `p` is a prefix of `s`, by characters.
fn starts_with_prefix(s: &str, p: &str) -> (r: bool)
    ensures
        r == (p@.len() <= s@.len() && s@.subrange(0, p@.len() as int) == p@),
{
    let n = p.unicode_len();
    let m = s.unicode_len();
    if n > m {
        return false;
    }
    let mut j: usize = 0;
    while j < n
        invariant
            j <= n,
            n == p@.len(),
            m == s@.len(),
            n <= m,
            forall|k: int| 0 <= k < j ==> s@[k] == p@[k],
        decreases n - j,
    {
        if s.get_char(j) != p.get_char(j) {
            proof {
                if s@.subrange(0, n as int) == p@ {
                    assert(s@.subrange(0, n as int)[j as int] == s@[j as int]);
                }
            }
            return false;
        }
        j += 1;
    }
    proof {
        assert(s@.subrange(0, n as int) =~= p@);
    }
    true
}

/// Whether two strings hold the same characters.
fn str_equal(a: &str, b: &str) -> (r: bool)
    ensures
        r == (a@ == b@),
{
    let n = a.unicode_len();
    let m = b.unicode_len();
    if n != m {
        return false;
    }
    proof {
        assert(a@.subrange(0, m as int) =~= a@);
    }
    let eq = starts_with_prefix(a, b);
    eq
}

/// `s` with every leading copy of `p` removed, as
/// `strip_prefix_repeated` states.
fn strip_prefix_repeated_exec(s: &str, p: &str) -> (r: String)
    requires
        p@.len() > 0,
    ensures
        r@ == strip_prefix_repeated(s@, p@),
    decreases s@.len(),
{
    let n = p.unicode_len();
    let m = s.unicode_len();
    if starts_with_prefix(s, p) {
        let rest = s.substring_char(n, m);
        strip_prefix_repeated_exec(rest, p)
    } else {
        s.to_owned()
    }
}

/// Normalizes a pasted target URL against the document's servers: a
/// leading `:port` shorthand is cut back to the first '/', and the
/// first server whose base path (its part from the first '/' past the
/// scheme) prefixes the URL has that base path stripped.
///
/// Positions are counted in characters; the caller keeps out a target
/// that starts with ':' but has no '/', and any server URL shorter
/// than 8 characters, inputs on which no answer is owed.
pub fn munge_url(url: &str, servers: &Vec<String>) -> (r: String)
    requires
        (url@.len() > 0 && url@[0] == ':') ==> find_from(url@, '/', 0) is Some,
        forall|i: int| 0 <= i < servers@.len() ==> (#[trigger] servers@[i])@.len() >= 8,
    ensures
        r@ == spec_munge_url(url@, servers@.map_values(|s: String| s@)),
{
    let ghost servers_v = servers@.map_values(|s: String| s@);
    let ulen = url.unicode_len();
    let cur: String;
    if ulen > 0 && url.get_char(0) == ':' {
        match find_char_from(url, '/', 0) {
            Option::Some(i) => {
                cur = url.substring_char(i, ulen).to_owned();
            },
            Option::None => {
                cur = url.to_owned();
            },
        }
    } else {
        cur = url.to_owned();
    }
    proof {
        assert(cur@ == drop_port_prefix(url@));
        assert(servers_v.skip(0int) =~= servers_v);
    }
    let mut i: usize = 0;
    while i < servers.len()
        invariant
            i <= servers.len(),
            servers_v == servers@.map_values(|s: String| s@),
            servers_v.len() == servers@.len(),
            cur@ == drop_port_prefix(url@),
            strip_server_prefix(cur@, servers_v) == strip_server_prefix(
                cur@,
                servers_v.skip(i as int),
            ),
        decreases servers.len() - i,
    {
        let server = &servers[i];
        let slen = server.as_str().unicode_len();
        proof {
            assert(servers_v[i as int] == servers@[i as int]@);
            assert(servers_v.skip(i as int).first() == servers_v[i as int]);
            assert(servers_v.skip(i as int).drop_first() =~= servers_v.skip(i + 1int));
        }
        match find_char_from(server.as_str(), '/', 8) {
            Option::Some(k) => {
                let path = server.as_str().substring_char(k, slen);
                proof {
                    assert(server_path(servers_v[i as int]) == Option::Some(path@));
                }
                if starts_with_prefix(cur.as_str(), path) {
                    let stripped = strip_prefix_repeated_exec(cur.as_str(), path);
                    return stripped;
                }
            },
            Option::None => {
            },
        }
        i += 1;
    }
    proof {
        assert(servers_v.skip(servers@.len() as int) =~= Seq::<Seq<char>>::empty());
    }
    cur
}

/// Which method string names a supported HTTP method; any other text
/// is rejected so the caller can ask again.
pub open spec fn spec_parse_method(s: Seq<char>) -> Option<Method> {
    if s == "get"@ {
        Option::Some(Method::Get)
    } else if s == "post"@ {
        Option::Some(Method::Post)
    } else if s == "put"@ {
        Option::Some(Method::Put)
    } else if s == "delete"@ {
        Option::Some(Method::Delete)
    } else {
        Option::None
    }
}

/// Decides whether the text names one of the supported HTTP methods.
pub fn parse_method(s: &str) -> (r: Option<Method>)
    ensures
        r == spec_parse_method(s@),
{
    if str_equal(s, "get") {
        Option::Some(Method::Get)
    } else if str_equal(s, "post") {
        Option::Some(Method::Post)
    } else if str_equal(s, "put") {
        Option::Some(Method::Put)
    } else if str_equal(s, "delete") {
        Option::Some(Method::Delete)
    } else {
        Option::None
    }
}

/// The decision behind the first prompt: a target that begins with
/// '/' or ':' names a URL to insert an operation under, anything else
/// names a top-level schema.
pub open spec fn spec_target_is_url(s: Seq<char>) -> bool {
    s.len() > 0 && (s[0] == '/' || s[0] == ':')
}

/// Decides whether the pasted target names a URL or a schema name.
pub fn target_is_url(s: &str) -> (r: bool)
    ensures
        r == spec_target_is_url(s@),
{
    let n = s.unicode_len();
    if n == 0 {
        false
    } else {
        let c = s.get_char(0);
        c == '/' || c == ':'
    }
}

} // verus!
