use vstd::prelude::*;

verus! {

/// A service identifier that names neither a path nor a unique bus name.
#[derive(Debug, Clone, PartialEq, Eq)]
pub struct AddressError {
    /// The identifier as it was given.
    pub service: String,
}

/// `i` is the position of the first `c` in `s`.
pub open spec fn is_first(s: Seq<char>, c: char, i: int) -> bool {
    0 <= i < s.len() && s[i] == c && forall|j: int| 0 <= j < i ==> s[j] != c
}

/// The position of the first `c` in `s`; meaningful where `s` contains `c`.
pub open spec fn first_of(s: Seq<char>, c: char) -> int {
    choose|i: int| is_first(s, c, i)
}

/// The object path used by items that announce no path of their own.
pub open spec fn default_path() -> Seq<char> {
    "/StatusNotifierItem"@
}

/// The second field of `s` split at `:`: the text between the first `:` and
/// the next one, or the end.
pub open spec fn second_colon_field(s: Seq<char>) -> Seq<char> {
    let rest = s.subrange(first_of(s, ':') + 1, s.len() as int);
    if rest.contains(':') {
        rest.subrange(0, first_of(rest, ':'))
    } else {
        rest
    }
}

/// The bus address and object path that a service identifier stands for:
/// split at the first `/`, which stays at the front of the path; else a
/// unique bus name read from the second `:`-separated field, with the default
/// path; else nothing.
pub open spec fn resolved(s: Seq<char>) -> Option<(Seq<char>, Seq<char>)> {
    if s.contains('/') {
        let i = first_of(s, '/');
        Some((s.subrange(0, i), s.subrange(i, s.len() as int)))
    } else if s.contains(':') {
        Some((second_colon_field(s), default_path()))
    } else {
        None
    }
}

proof fn first_is_unique(s: Seq<char>, c: char, i: int)
    requires
        is_first(s, c, i),
    ensures
        first_of(s, c) == i,
{
    let k = first_of(s, c);
    assert(is_first(s, c, k));
    if k < i {
        assert(s[k] != c);
    } else if i < k {
        assert(s[i] != c);
    }
}

proof fn first_found_from(s: Seq<char>, c: char, i: int, k: int)
    requires
        0 <= i <= k < s.len(),
        s[k] == c,
        forall|j: int| 0 <= j < i ==> s[j] != c,
    ensures
        is_first(s, c, first_of(s, c)),
    decreases k - i,
{
    if s[i] == c {
        assert(is_first(s, c, i));
    } else {
        first_found_from(s, c, i + 1, k);
    }
}

proof fn first_exists(s: Seq<char>, c: char)
    requires
        s.contains(c),
    ensures
        is_first(s, c, first_of(s, c)),
{
    let k = choose|k: int| 0 <= k < s.len() && s[k] == c;
    first_found_from(s, c, 0, k);
}

/// An identifier with a `/` is split at its first `/`: the address holds no
/// `/`, the path begins with that `/`, and the two together give back the
/// identifier.
pub proof fn slash_split(s: Seq<char>)
    requires
        s.contains('/'),
    ensures
        resolved(s) is Some,
        !resolved(s)->Some_0.0.contains('/'),
        resolved(s)->Some_0.1.len() > 0,
        resolved(s)->Some_0.1[0] == '/',
        resolved(s)->Some_0.0 + resolved(s)->Some_0.1 == s,
{
    first_exists(s, '/');
    let i = first_of(s, '/');
    assert(s.subrange(0, i) + s.subrange(i, s.len() as int) =~= s);
}

/// An identifier with a `:` and no `/` resolves to the default path and to
/// the text that follows its first `:`, up to the next `:` or the end.
pub proof fn colon_split(s: Seq<char>)
    requires
        s.contains(':'),
        !s.contains('/'),
    ensures
        resolved(s) is Some,
        resolved(s)->Some_0.1 == "/StatusNotifierItem"@,
        ({
            let i = first_of(s, ':');
            let a = resolved(s)->Some_0.0;
            &&& is_first(s, ':', i)
            &&& i + 1 + a.len() <= s.len()
            &&& a == s.subrange(i + 1, i + 1 + a.len())
            &&& !a.contains(':')
            &&& (i + 1 + a.len() == s.len() || s[i + 1 + a.len()] == ':')
        }),
{
    first_exists(s, ':');
    let i = first_of(s, ':');
    let rest = s.subrange(i + 1, s.len() as int);
    if rest.contains(':') {
        first_exists(rest, ':');
        let k = first_of(rest, ':');
        let a = rest.subrange(0, k);
        assert(a =~= s.subrange(i + 1, i + 1 + k));
        assert(s[i + 1 + k] == rest[k]);
        assert(!a.contains(':')) by {
            if a.contains(':') {
                let j = choose|j: int| 0 <= j < a.len() && a[j] == ':';
                assert(rest[j] == ':');
            }
        }
    } else {
        assert(rest =~= s.subrange(i + 1, i + 1 + rest.len()));
    }
}

/// The position of the first `c` in `s` at or after `from`, or the length of
/// `s` where there is none.
fn find_char(s: &str, c: char, from: usize) -> (r: usize)
    requires
        from <= s@.len(),
    ensures
        from <= r <= s@.len(),
        forall|j: int| from <= j < r ==> s@[j] != c,
        r < s@.len() ==> s@[r as int] == c,
{
    let n = s.unicode_len();
    let mut i = from;
    while i < n
        invariant
            n == s@.len(),
            from <= i <= n,
            forall|j: int| from <= j < i ==> s@[j] != c,
        decreases n - i,
    {
        if s.get_char(i) == c {
            return i;
        }
        i = i + 1;
    }
    i
}

/// Splits a service identifier such as `:1.50/org/ayatana/NotificationItem/nm_applet`
/// into its bus address and object path.
///
/// An identifier with a `/` is split at the first one, which begins the path.
/// One without a `/` but with a `:` is a unique bus name: its second
/// `:`-separated field is the address, and the path is `/StatusNotifierItem`.
/// Any other identifier is refused.
pub fn split_service_name(service: &str) -> (r: Result<(String, String), AddressError>)
    ensures
        match r {
            Ok((addr, path)) => resolved(service@) == Some((addr@, path@)),
            Err(e) => resolved(service@) is None && e.service@ == service@,
        },
        r is Ok ==> r->Ok_0.1@.len() > 0 && r->Ok_0.1@[0] == '/',
{
    let n = service.unicode_len();
    let slash = find_char(service, '/', 0);
    if slash < n {
        proof {
            first_is_unique(service@, '/', slash as int);
        }
        let addr = String::from_str(service.substring_char(0, slash));
        let path = String::from_str(service.substring_char(slash, n));
        return Ok((addr, path));
    }
    assert(!service@.contains('/'));
    let colon = find_char(service, ':', 0);
    if colon < n {
        proof {
            first_is_unique(service@, ':', colon as int);
        }
        let end = find_char(service, ':', colon + 1);
        let rest = Ghost(service@.subrange(colon + 1, n as int));
        let field = String::from_str(service.substring_char(colon + 1, end));
        proof {
            if end < n {
                assert(rest@[end - colon - 1] == ':');
                assert(rest@.contains(':'));
                first_is_unique(rest@, ':', end - colon - 1);
                assert(field@ =~= rest@.subrange(0, end - colon - 1));
            } else {
                assert forall|j: int| 0 <= j < rest@.len() implies rest@[j] != ':' by {
                    assert(rest@[j] == service@[colon + 1 + j]);
                }
                assert(!rest@.contains(':'));
                assert(field@ =~= rest@);
            }
        }
        let path = String::from_str("/StatusNotifierItem");
        proof {
            reveal_strlit("/StatusNotifierItem");
        }
        return Ok((field, path));
    }
    assert(!service@.contains(':'));
    Err(AddressError { service: String::from_str(service) })
}

} // verus!
