//! The orientation of the document's writing mode.
use vstd::prelude::*;

verus! {

/// Whether text flows horizontally, or is rotated to flow vertically (the
/// "vertical-*" and "sideways-*" writing modes).
#[derive(Debug, Clone, Copy, PartialEq, Eq, Structural, PartialOrd, Ord)]
pub enum Orientation {
    Horizontal,
    Vertical,
}

impl Default for Orientation {
    fn default() -> (r: Orientation)
        ensures
            r == Orientation::Horizontal,
    {
        Orientation::Horizontal
    }
}

pub open spec fn starts_with(s: Seq<char>, prefix: Seq<char>) -> bool {
    prefix.len() <= s.len() && s.subrange(0, prefix.len() as int) == prefix
}

/// The orientation that a `writing-mode` value names, if it names one.
pub open spec fn parsed_writing_mode(s: Seq<char>) -> Option<Orientation> {
    if starts_with(s, "vertical"@) || starts_with(s, "sideways"@) {
        Some(Orientation::Vertical)
    } else if starts_with(s, "horizontal"@) {
        Some(Orientation::Horizontal)
    } else {
        None
    }
}

/// The orientation of a `writing-mode` value, horizontal where the value
/// names none.
pub open spec fn orientation_of(s: Seq<char>) -> Orientation {
    match parsed_writing_mode(s) {
        Some(o) => o,
        None => Orientation::Horizontal,
    }
}

fn has_prefix(s: &str, prefix: &str) -> (r: bool)
    ensures
        r == starts_with(s@, prefix@),
{
    let n = prefix.unicode_len();
    let len = s.unicode_len();
    if n > len {
        return false;
    }
    let mut i: usize = 0;
    while i < n
        invariant
            i <= n,
            n == prefix@.len(),
            len == s@.len(),
            n <= len,
            forall|j: int| 0 <= j < i ==> s@[j] == prefix@[j],
        decreases n - i,
    {
        if s.get_char(i) != prefix.get_char(i) {
            assert(s@.subrange(0, n as int)[i as int] != prefix@[i as int]);
            return false;
        }
        i = i + 1;
    }
    assert(s@.subrange(0, n as int) =~= prefix@);
    true
}

impl Orientation {
    /// Reads a `writing-mode` style value by its prefix.
    pub fn parse_writing_mode(writing_mode: &str) -> (r: Result<Orientation, ()>)
        ensures
            r is Ok <==> parsed_writing_mode(writing_mode@) is Some,
            r is Ok ==> parsed_writing_mode(writing_mode@) == Some(r->Ok_0),
    {
        if has_prefix(writing_mode, "vertical") || has_prefix(writing_mode, "sideways") {
            Ok(Orientation::Vertical)
        } else if has_prefix(writing_mode, "horizontal") {
            Ok(Orientation::Horizontal)
        } else {
            Err(())
        }
    }
}

impl std::str::FromStr for Orientation {
    type Err = ();

    /// Reads a `writing-mode` style value by its prefix.
    fn from_str(writing_mode: &str) -> (r: Result<Orientation, ()>)
        ensures
            r is Ok <==> parsed_writing_mode(writing_mode@) is Some,
            r is Ok ==> parsed_writing_mode(writing_mode@) == Some(r->Ok_0),
    {
        Orientation::parse_writing_mode(writing_mode)
    }
}

/// The orientation of a `writing-mode` style value; a value that names none
/// (empty, unknown) gives `Horizontal`.
pub fn detect_orientation(writing_mode: &str) -> (r: Orientation)
    ensures
        r == orientation_of(writing_mode@),
        starts_with(writing_mode@, "vertical"@) || starts_with(writing_mode@, "sideways"@)
            ==> r == Orientation::Vertical,
{
    match Orientation::parse_writing_mode(writing_mode) {
        Ok(o) => o,
        Err(()) => Orientation::Horizontal,
    }
}

} // verus!
