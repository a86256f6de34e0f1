//! Addresses of xDS servers: which name a server's certificate is checked
//! against, which URI is dialed, and which addresses are unix domain sockets.

use vstd::prelude::*;

verus! {

/// Whether `part` stands in `text` from position `i` on.
pub open spec fn occurs_at(text: Seq<char>, part: Seq<char>, i: int) -> bool {
    0 <= i && i + part.len() <= text.len() && text.subrange(i, i + part.len()) == part
}

/// What stands before the last `mark` in `text`; `None` where `text` has none.
pub open spec fn before_last(text: Seq<char>, mark: char) -> Option<Seq<char>>
    decreases text.len(),
{
    if text.len() == 0 {
        None
    } else if text.last() == mark {
        Some(text.drop_last())
    } else {
        before_last(text.drop_last(), mark)
    }
}

/// Whether a character can stand in a scheme, as the `http` crate reads it.
pub open spec fn is_scheme_char(c: char) -> bool {
    'a' <= c <= 'z' || 'A' <= c <= 'Z' || '0' <= c <= '9' || c == '+' || c == '-' || c == '.' || c
        == '~'
}

/// Whether a text is a scheme: one or more characters that can stand in one.
pub open spec fn is_scheme(text: Seq<char>) -> bool {
    text.len() > 0 && forall|i: int| 0 <= i < text.len() ==> is_scheme_char(#[trigger] text[i])
}

/// How many characters that can stand in a scheme a text starts with.
pub open spec fn scheme_run(text: Seq<char>) -> nat
    decreases text.len(),
{
    if text.len() == 0 || !is_scheme_char(text[0]) {
        0
    } else {
        1 + scheme_run(text.skip(1))
    }
}

/// Whether an address starts with a scheme and `://`.
pub open spec fn has_scheme(address: Seq<char>) -> bool {
    scheme_run(address) > 0 && occurs_at(address, "://"@, scheme_run(address) as int)
}

/// An address without its scheme: what stands behind the scheme and its `://`,
/// or all of it where it does not start with a scheme. A `://` further on, in a
/// path, does not count.
pub open spec fn bare(address: Seq<char>) -> Seq<char> {
    if has_scheme(address) {
        address.skip(scheme_run(address) as int + 3)
    } else {
        address
    }
}

/// A text up to its last colon, or all of it where it has no colon.
pub open spec fn up_to_last_colon(text: Seq<char>) -> Seq<char> {
    match before_last(text, ':') {
        Some(head) => head,
        None => text,
    }
}

/// The name that a server's certificate has to carry under `google_default`:
/// the address without its scheme, and without its port. A path is kept, and
/// makes it no server's name.
pub open spec fn host(address: Seq<char>) -> Seq<char> {
    up_to_last_colon(bare(address))
}

/// The URI that is dialed under `google_default`: the address under `https`,
/// whatever scheme it names.
pub open spec fn https_uri(address: Seq<char>) -> Seq<char> {
    "https://"@ + bare(address)
}

/// Whether the scheme of an address is `https`, in letters of either case.
pub open spec fn is_https(address: Seq<char>) -> bool {
    &&& address.len() >= 8
    &&& address[0] == 'h' || address[0] == 'H'
    &&& address[1] == 't' || address[1] == 'T'
    &&& address[2] == 't' || address[2] == 'T'
    &&& address[3] == 'p' || address[3] == 'P'
    &&& address[4] == 's' || address[4] == 'S'
    &&& occurs_at(address, "://"@, 5)
}

/// `text` without `prefix`; `None` where `text` does not start with `prefix`.
pub open spec fn without_prefix(text: Seq<char>, prefix: Seq<char>) -> Option<Seq<char>> {
    if occurs_at(text, prefix, 0) {
        Some(text.skip(prefix.len() as int))
    } else {
        None
    }
}

/// The path of the unix domain socket that an address names, if it names one.
pub open spec fn unix_path(address: Seq<char>) -> Option<Seq<char>> {
    match without_prefix(address, "unix://"@) {
        Some(path) => Some(path),
        None => without_prefix(address, "unix:"@),
    }
}

/// The characters of a string.
fn characters(text: &str) -> (chars: Vec<char>)
    ensures
        chars@ == text@,
{
    let mut chars: Vec<char> = Vec::new();
    for c in it: text.chars()
        invariant
            it.seq() == text@,
            chars@ == text@.take(it.index() as int),
    {
        proof {
            assert(text@.take(it.index() as int).push(c) =~= text@.take(it.index() + 1));
        }
        chars.push(c);
    }
    proof {
        assert(text@.take(text@.len() as int) =~= text@);
    }
    chars
}

/// Tells whether a character can stand in a scheme, see [`is_scheme_char`].
fn may_stand_in_scheme(c: char) -> (found: bool)
    ensures
        found == is_scheme_char(c),
{
    ('a' <= c && c <= 'z') || ('A' <= c && c <= 'Z') || ('0' <= c && c <= '9') || c == '+' || c
        == '-' || c == '.' || c == '~'
}

/// Counts the characters up to the end of the scheme, see [`scheme_run`]; `None`
/// where the text does not start with a scheme and `://`.
fn scheme_end(chars: &Vec<char>) -> (end: Option<usize>)
    ensures
        end is Some <==> has_scheme(chars@),
        end matches Some(n) ==> n == scheme_run(chars@) && n + 3 <= chars@.len(),
{
    let mut n: usize = 0;
    proof {
        reveal_strlit("://");
        assert(chars@.skip(0) =~= chars@);
    }
    while n < chars.len() && may_stand_in_scheme(chars[n])
        invariant
            n <= chars@.len(),
            scheme_run(chars@) == n + scheme_run(chars@.skip(n as int)),
        decreases chars.len() - n,
    {
        proof {
            assert(chars@.skip(n as int).skip(1) =~= chars@.skip(n + 1));
        }
        n = n + 1;
    }
    if n > 0 && chars.len() - n >= 3 && chars[n] == ':' && chars[n + 1] == '/' && chars[n + 2]
        == '/' {
        proof {
            assert(chars@.subrange(n as int, n + 3) =~= "://"@);
        }
        Some(n)
    } else {
        proof {
            if occurs_at(chars@, "://"@, n as int) {
                let mark = chars@.subrange(n as int, n + 3);
                assert(mark[0] == chars@[n as int] && mark[1] == chars@[n + 1] && mark[2]
                    == chars@[n + 2]);
            }
        }
        None
    }
}

/// Tells whether an address starts with a scheme, see [`has_scheme`].
pub fn names_scheme(address: &str) -> (found: bool)
    ensures
        found == has_scheme(address@),
{
    let chars = characters(address);
    scheme_end(&chars).is_some()
}

/// The address without its scheme, see [`bare`].
pub fn bare_of(address: &str) -> (rest: String)
    ensures
        rest@ == bare(address@),
{
    let chars = characters(address);
    let len: usize = chars.len();
    match scheme_end(&chars) {
        Some(n) => {
            proof {
                assert(address@.skip(n + 3) =~= address@.subrange(n + 3, address@.len() as int));
            }
            address.substring_char(n + 3, len).to_owned()
        },
        None => address.to_owned(),
    }
}

/// A text up to its last colon, see [`up_to_last_colon`].
fn before_last_colon(text: &str) -> (head: String)
    ensures
        head@ == up_to_last_colon(text@),
{
    let chars = characters(text);
    let mut end: usize = chars.len();
    proof {
        assert(text@.take(end as int) =~= text@);
    }
    while end > 0
        invariant
            end <= chars@.len(),
            chars@ == text@,
            before_last(text@, ':') == before_last(text@.take(end as int), ':'),
        decreases end,
    {
        proof {
            assert(text@.take(end as int).drop_last() =~= text@.take(end - 1));
        }
        end = end - 1;
        if chars[end] == ':' {
            proof {
                assert(text@.subrange(0, end as int) =~= text@.take(end as int));
            }
            return text.substring_char(0, end).to_owned();
        }
    }
    text.to_owned()
}

/// Reads the host off an address, see [`host`].
pub fn host_of(address: &str) -> (name: String)
    ensures
        name@ == host(address@),
{
    before_last_colon(bare_of(address).as_str())
}

/// Forms the URI to dial under `google_default`, see [`https_uri`].
pub fn https_uri_of(address: &str) -> (uri: String)
    ensures
        uri@ == https_uri(address@),
{
    "https://".to_owned().concat(bare_of(address).as_str())
}

/// Tells whether the scheme of an address is `https`, see [`is_https`].
pub fn names_https(address: &str) -> (found: bool)
    ensures
        found == is_https(address@),
{
    let chars = characters(address);
    proof {
        reveal_strlit("://");
        let piece = address@.subrange(5, 8);
        if chars@.len() >= 8 {
            assert(piece[0] == address@[5] && piece[1] == address@[6] && piece[2] == address@[7]);
            if chars@[5] == ':' && chars@[6] == '/' && chars@[7] == '/' {
                assert(piece =~= "://"@);
            }
        }
    }
    chars.len() >= 8 && (chars[0] == 'h' || chars[0] == 'H') && (chars[1] == 't' || chars[1] == 'T')
        && (chars[2] == 't' || chars[2] == 'T') && (chars[3] == 'p' || chars[3] == 'P') && (chars[4]
        == 's' || chars[4] == 'S') && chars[5] == ':' && chars[6] == '/' && chars[7] == '/'
}

/// Tells whether an address is that of a unix domain socket, see [`unix_path`].
pub fn names_unix_socket(address: &str) -> (found: bool)
    ensures
        found == (unix_path(address@) is Some),
{
    let chars = characters(address);
    proof {
        reveal_strlit("unix:");
        reveal_strlit("unix://");
        let piece = address@.subrange(0, 5);
        if occurs_at(address@, "unix://"@, 0) {
            let longer = address@.subrange(0, 7);
            assert(piece =~= longer.subrange(0, 5));
            assert(piece =~= "unix:"@);
        }
        if chars@.len() >= 5 {
            assert(piece[0] == address@[0] && piece[1] == address@[1] && piece[2] == address@[2]
                && piece[3] == address@[3] && piece[4] == address@[4]);
            if chars@[0] == 'u' && chars@[1] == 'n' && chars@[2] == 'i' && chars@[3] == 'x'
                && chars@[4] == ':' {
                assert(piece =~= "unix:"@);
            }
        }
    }
    chars.len() >= 5 && chars[0] == 'u' && chars[1] == 'n' && chars[2] == 'i' && chars[3] == 'x'
        && chars[4] == ':'
}

} // verus!
