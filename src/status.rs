use vstd::prelude::*;

verus! {

/// Recognised values of the `Status` property of a status notifier item.
#[derive(Debug, Clone, Copy, PartialEq, Eq, Structural)]
pub enum Status {
    /// The item conveys nothing important; hosts may hide it.
    Passive,
    /// The item is active and should be shown to the user.
    Active,
    /// The item carries important information and asks for the user's attention.
    NeedsAttention,
}

/// A status string that names none of the three recognised values.
#[derive(Debug, Clone, PartialEq, Eq, Structural)]
#[non_exhaustive]
pub struct ParseStatusError;

/// The status a string names, matched exactly: no case folding, no trimming.
pub open spec fn status_named(s: Seq<char>) -> Option<Status> {
    if s == "Passive"@ {
        Some(Status::Passive)
    } else if s == "Active"@ {
        Some(Status::Active)
    } else if s == "NeedsAttention"@ {
        Some(Status::NeedsAttention)
    } else {
        None
    }
}

/// Whether two strings hold the same characters.
fn same_chars(a: &str, b: &str) -> (r: bool)
    ensures
        r == (a@ == b@),
{
    let n = a.unicode_len();
    if n != b.unicode_len() {
        return false;
    }
    let mut i: usize = 0;
    while i < n
        invariant
            n == a@.len(),
            n == b@.len(),
            i <= n,
            a@.subrange(0, i as int) == b@.subrange(0, i as int),
        decreases n - i,
    {
        if a.get_char(i) != b.get_char(i) {
            assert(a@[i as int] != b@[i as int]);
            return false;
        }
        assert(a@.subrange(0, i + 1) == a@.subrange(0, i as int).push(a@[i as int]));
        assert(b@.subrange(0, i + 1) == b@.subrange(0, i as int).push(b@[i as int]));
        i = i + 1;
    }
    assert(a@ == a@.subrange(0, n as int));
    assert(b@ == b@.subrange(0, n as int));
    true
}

impl Status {
    /// Parses a status string; only the three exact names are accepted.
    pub fn parse(s: &str) -> (r: Result<Status, ParseStatusError>)
        ensures
            r == (match status_named(s@) {
                Some(st) => Ok::<Status, ParseStatusError>(st),
                None => Err(ParseStatusError),
            }),
    {
        if same_chars(s, "Passive") {
            Ok(Status::Passive)
        } else if same_chars(s, "Active") {
            Ok(Status::Active)
        } else if same_chars(s, "NeedsAttention") {
            Ok(Status::NeedsAttention)
        } else {
            Err(ParseStatusError)
        }
    }
}

impl std::str::FromStr for Status {
    type Err = ParseStatusError;

    fn from_str(s: &str) -> (r: Result<Status, ParseStatusError>)
        ensures
            r == (match status_named(s@) {
                Some(st) => Ok::<Status, ParseStatusError>(st),
                None => Err(ParseStatusError),
            }),
    {
        Status::parse(s)
    }
}

} // verus!
