use vstd::prelude::*;

use crate::models::SeparatorSymbol;

verus! {

/// The view of an optional string.
pub open spec fn opt_str_view(o: Option<String>) -> Option<Seq<char>> {
    match o {
        Some(s) => Some(s@),
        None => None,
    }
}

/// The view of an optional string slice.
pub open spec fn opt_ref_view(o: Option<&str>) -> Option<Seq<char>> {
    match o {
        Some(s) => Some(s@),
        None => None,
    }
}

/// An optional prefix and suffix around a resource's base name, each with an
/// optional separator.
#[derive(Debug, Clone)]
pub struct ResourceNamingOptions {
    prefix: Option<String>,
    suffix: Option<String>,
    prefix_separator: Option<SeparatorSymbol>,
    suffix_separator: Option<SeparatorSymbol>,
}

impl ResourceNamingOptions {
    /// The prefix, if any.
    pub closed spec fn spec_prefix(&self) -> Option<Seq<char>> {
        opt_str_view(self.prefix)
    }

    /// The suffix, if any.
    pub closed spec fn spec_suffix(&self) -> Option<Seq<char>> {
        opt_str_view(self.suffix)
    }

    /// The separator written after the prefix, if any.
    pub closed spec fn spec_prefix_separator(&self) -> Option<SeparatorSymbol> {
        self.prefix_separator
    }

    /// The separator written before the suffix, if any.
    pub closed spec fn spec_suffix_separator(&self) -> Option<SeparatorSymbol> {
        self.suffix_separator
    }

    pub fn new(
        prefix: Option<&str>,
        suffix: Option<&str>,
        prefix_separator: Option<SeparatorSymbol>,
        suffix_separator: Option<SeparatorSymbol>,
    ) -> (res: Self)
        ensures
            res.spec_prefix() == opt_ref_view(prefix),
            res.spec_suffix() == opt_ref_view(suffix),
            res.spec_prefix_separator() == prefix_separator,
            res.spec_suffix_separator() == suffix_separator,
    {
        let prefix = match prefix {
            Some(p) => Some(p.to_owned()),
            None => None,
        };
        let suffix = match suffix {
            Some(s) => Some(s.to_owned()),
            None => None,
        };
        ResourceNamingOptions { prefix, suffix, prefix_separator, suffix_separator }
    }

    pub fn prefix(&self) -> (res: Option<&str>)
        ensures
            opt_ref_view(res) == self.spec_prefix(),
    {
        match &self.prefix {
            Some(p) => Some(p.as_str()),
            None => None,
        }
    }

    pub fn suffix(&self) -> (res: Option<&str>)
        ensures
            opt_ref_view(res) == self.spec_suffix(),
    {
        match &self.suffix {
            Some(s) => Some(s.as_str()),
            None => None,
        }
    }

    pub fn prefix_separator(&self) -> (res: Option<&SeparatorSymbol>)
        ensures
            match res {
                Some(s) => self.spec_prefix_separator() == Some(*s),
                None => self.spec_prefix_separator() is None,
            },
    {
        match &self.prefix_separator {
            Some(s) => Some(s),
            None => None,
        }
    }

    pub fn suffix_separator(&self) -> (res: Option<&SeparatorSymbol>)
        ensures
            match res {
                Some(s) => self.spec_suffix_separator() == Some(*s),
                None => self.spec_suffix_separator() is None,
            },
    {
        match &self.suffix_separator {
            Some(s) => Some(s),
            None => None,
        }
    }
}

} // verus!
