use vstd::prelude::*;

verus! {

/// The character placed between a name and its prefix or suffix.
#[derive(Debug, Clone, Copy, PartialEq, Eq, Structural)]
pub enum SeparatorSymbol {
    Underscore,
    Hyphen,
}

impl SeparatorSymbol {
    /// The separator character.
    pub open spec fn spec_char(self) -> char {
        match self {
            SeparatorSymbol::Underscore => '_',
            SeparatorSymbol::Hyphen => '-',
        }
    }

    /// The separator character, as `Display` would print it.
    pub fn as_char(self) -> (res: char)
        ensures
            res == self.spec_char(),
    {
        match self {
            SeparatorSymbol::Underscore => '_',
            SeparatorSymbol::Hyphen => '-',
        }
    }
}

} // verus!
