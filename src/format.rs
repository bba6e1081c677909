//! The output format of the statistics.
use vstd::prelude::*;

verus! {

/// How the statistics are printed.
#[derive(Debug, Clone, Copy, PartialEq, Eq, Structural)]
pub enum Format {
    Json,
    Text,
}

/// The format that a name selects: JSON where its first character is `j` in
/// either case, text otherwise (an empty name included).
pub open spec fn format_of(s: Seq<char>) -> Format {
    if s.len() > 0 && (s[0] == 'j' || s[0] == 'J') {
        Format::Json
    } else {
        Format::Text
    }
}

impl<'a> From<&'a str> for Format {
    fn from(s: &'a str) -> (r: Format)
        ensures
            r == format_of(s@),
    {
        if s.unicode_len() == 0 {
            return Format::Text;
        }
        let c = s.get_char(0);
        if c == 'j' || c == 'J' {
            Format::Json
        } else {
            Format::Text
        }
    }
}

impl<'a> vstd::std_specs::convert::FromSpecImpl<&'a str> for Format {
    open spec fn obeys_from_spec() -> bool {
        true
    }

    open spec fn from_spec(s: &'a str) -> Format {
        format_of(s@)
    }
}

} // verus!
