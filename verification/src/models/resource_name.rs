use vstd::prelude::*;
use vstd::string::*;

use crate::errors::{ResourceErrors, ResourceNameError};
use crate::models::{ResourceNamingOptions, ResourceType, SeparatorSymbol};
use crate::text::byte_len;
use crate::trusted::{all_name_chars, compile_pattern, pattern_is_match};

verus! {

/// The pattern that every AWS topic and queue name must match.
pub const AWS_NAME_PATTERN: &'static str = "^[a-zA-Z0-9_-]+$";

/// The separator character, or nothing.
pub open spec fn separator_part(sep: Option<SeparatorSymbol>) -> Seq<char> {
    match sep {
        Some(s) => seq![s.spec_char()],
        None => Seq::empty(),
    }
}

/// The full name built from a base name and naming options: the prefix and
/// its separator, the base name, then the separator of the suffix and the
/// suffix. A separator is written only where its prefix or suffix is given.
pub open spec fn compose_name(
    base: Seq<char>,
    prefix: Option<Seq<char>>,
    suffix: Option<Seq<char>>,
    prefix_separator: Option<SeparatorSymbol>,
    suffix_separator: Option<SeparatorSymbol>,
) -> Seq<char> {
    let head = match prefix {
        Some(p) => p + separator_part(prefix_separator),
        None => Seq::empty(),
    };
    let tail = match suffix {
        Some(s) => separator_part(suffix_separator) + s,
        None => Seq::empty(),
    };
    head + base + tail
}

/// How a full name is put together, part by part:
/// - with no prefix and no suffix it is the base name, whatever the separators;
/// - a prefix `p` goes in front, followed by its separator's character when
///   one is given, and the suffix side is untouched by it;
/// - a suffix `s` goes at the end, preceded by its separator's character when
///   one is given, and the prefix side is untouched by it;
/// - a separator whose prefix or suffix is absent writes nothing.
pub proof fn lemma_compose_name_parts(
    base: Seq<char>,
    prefix: Option<Seq<char>>,
    suffix: Option<Seq<char>>,
    prefix_separator: Option<SeparatorSymbol>,
    suffix_separator: Option<SeparatorSymbol>,
)
    ensures
        compose_name(base, None, None, prefix_separator, suffix_separator) == base,
        prefix is None ==> compose_name(base, prefix, suffix, prefix_separator, suffix_separator)
            == compose_name(base, None, suffix, None, suffix_separator),
        suffix is None ==> compose_name(base, prefix, suffix, prefix_separator, suffix_separator)
            == compose_name(base, prefix, None, prefix_separator, None),
        prefix matches Some(p) ==> compose_name(
            base,
            prefix,
            suffix,
            prefix_separator,
            suffix_separator,
        ) == match prefix_separator {
            Some(c) => p + seq![c.spec_char()],
            None => p,
        } + compose_name(base, None, suffix, None, suffix_separator),
        suffix matches Some(x) ==> compose_name(
            base,
            prefix,
            suffix,
            prefix_separator,
            suffix_separator,
        ) == compose_name(base, prefix, None, prefix_separator, None) + match suffix_separator {
            Some(c) => seq![c.spec_char()] + x,
            None => x,
        },
{
    assert(Seq::<char>::empty() + base + Seq::<char>::empty() =~= base);
    let head = match prefix {
        Some(p) => p + separator_part(prefix_separator),
        None => Seq::<char>::empty(),
    };
    let tail = match suffix {
        Some(x) => separator_part(suffix_separator) + x,
        None => Seq::<char>::empty(),
    };
    assert(head + base + Seq::<char>::empty() =~= head + base);
    assert(Seq::<char>::empty() + base + tail =~= base + tail);
    assert(head + base + tail =~= head + (base + tail));
    assert(separator_part(None) =~= Seq::<char>::empty());
    if let Some(p) = prefix {
        assert(p + Seq::<char>::empty() =~= p);
    }
    if let Some(x) = suffix {
        assert(Seq::<char>::empty() + x =~= x);
    }
}

/// The full name that a base name gets under the given naming options.
pub open spec fn compose_with_options(base: Seq<char>, options: ResourceNamingOptions) -> Seq<char> {
    compose_name(
        base,
        options.spec_prefix(),
        options.spec_suffix(),
        options.spec_prefix_separator(),
        options.spec_suffix_separator(),
    )
}

/// The longest name AWS accepts for the resource type: 256 characters for
/// a topic, 80 for a queue.
pub open spec fn max_name_len(t: ResourceType) -> nat {
    match t {
        ResourceType::Topic => 256,
        ResourceType::Queue => 80,
    }
}

/// The outcome of checking `name` against the length limit `max_len`, given
/// whether it matches the name pattern: empty names first, then names longer
/// than `max_len` bytes, then names that do not match.
pub open spec fn name_check_passes(name: Seq<char>, max_len: nat, matched: bool) -> bool {
    name.len() > 0 && byte_len(name) <= max_len && matched
}

/// What checking `name` against `max_len` and the pattern answer `matched`
/// returns: `Ok` exactly when `name_check_passes`, else the first failure.
pub open spec fn name_check_result(
    name: Seq<char>,
    max_len: nat,
    matched: bool,
    res: Result<(), ResourceNameError>,
) -> bool {
    &&& res is Ok <==> name_check_passes(name, max_len, matched)
    &&& name.len() == 0 ==> res == Err::<(), ResourceNameError>(ResourceNameError::Empty)
    &&& name.len() > 0 && byte_len(name) > max_len ==> match res {
        Err(ResourceNameError::TooLong { name: n, max: m }) => n@ == name && m as nat == max_len,
        _ => false,
    }
    &&& name.len() > 0 && byte_len(name) <= max_len && !matched ==> match res {
        Err(ResourceNameError::InvalidPattern { name: n }) => n@ == name,
        _ => false,
    }
}

/// A validated name of a topic or queue: a base name, the kind of resource
/// it names, and the naming options that decorate it.
#[derive(Debug, Clone)]
pub struct ResourceName {
    base_name: String,
    resource_type: ResourceType,
    naming_options: ResourceNamingOptions,
}

impl ResourceName {
    /// The base name.
    pub closed spec fn spec_base_name(&self) -> Seq<char> {
        self.base_name@
    }

    /// The kind of resource named.
    pub closed spec fn spec_resource_type(&self) -> ResourceType {
        self.resource_type
    }

    /// The naming options.
    pub closed spec fn spec_naming_options(&self) -> ResourceNamingOptions {
        self.naming_options
    }

    /// The full name: the base name decorated by the naming options.
    pub open spec fn spec_full_name(&self) -> Seq<char> {
        compose_with_options(self.spec_base_name(), self.spec_naming_options())
    }

    /// Builds and validates a resource name. The full name must be nonempty,
    /// at most `max_name_len` bytes long and match `AWS_NAME_PATTERN`; the
    /// first of these that fails gives the error.
    pub fn new(
        base_name: &str,
        resource_type: ResourceType,
        naming_options: ResourceNamingOptions,
    ) -> (res: Result<Self, ResourceNameError>)
        ensures
            ({
                let name = compose_with_options(base_name@, naming_options);
                let max = max_name_len(resource_type);
                &&& name_check_result(
                    name,
                    max,
                    all_name_chars(name),
                    match res {
                        Ok(_) => Ok(()),
                        Err(e) => Err(e),
                    },
                )
                &&& res matches Ok(r) ==> r.spec_base_name() == base_name@ && r.spec_resource_type()
                    == resource_type && r.spec_naming_options() == naming_options
            }),
    {
        let resource_name = ResourceName {
            base_name: base_name.to_owned(),
            resource_type,
            naming_options,
        };
        let name = resource_name.to_string();
        let max_len: usize = match resource_name.resource_type {
            ResourceType::Topic => 256,
            ResourceType::Queue => 80,
        };
        match Self::validate_aws_resource_name(name.as_str(), max_len) {
            Ok(()) => Ok(resource_name),
            Err(e) => Err(e),
        }
    }

    /// Checks a full name against the length limit and `AWS_NAME_PATTERN`.
    pub fn validate_aws_resource_name(name: &str, max_len: usize) -> (res: Result<
        (),
        ResourceNameError,
    >)
        ensures
            name_check_result(name@, max_len as nat, all_name_chars(name@), res),
    {
        let matched = match compile_pattern(AWS_NAME_PATTERN) {
            Ok(pattern) => pattern_is_match(&pattern, name),
            Err(_) => false,
        };
        Self::check_name(name, max_len, matched)
    }

    /// Checks a full name against the length limit, given whether it matches
    /// the name pattern.
    pub fn check_name(name: &str, max_len: usize, matched: bool) -> (res: Result<
        (),
        ResourceNameError,
    >)
        ensures
            name_check_result(name@, max_len as nat, matched, res),
    {
        if name.is_empty() {
            return Err(ResourceNameError::Empty);
        }
        if name.as_bytes().len() > max_len {
            return Err(ResourceNameError::TooLong { name: name.to_owned(), max: max_len });
        }
        if !matched {
            return Err(ResourceNameError::InvalidPattern { name: name.to_owned() });
        }
        Ok(())
    }

    /// The full name, as `Display` prints it: the prefix and its separator,
    /// the base name, then the separator of the suffix and the suffix.
    pub fn to_string(&self) -> (res: String)
        ensures
            res@ == self.spec_full_name(),
    {
        let mut s = String::new();
        match self.naming_options.prefix() {
            Some(p) => {
                s.append(p);
                match self.naming_options.prefix_separator() {
                    Some(sep) => s.push(sep.as_char()),
                    None => {},
                }
            },
            None => {},
        }
        s.append(self.base_name.as_str());
        match self.naming_options.suffix() {
            Some(x) => {
                match self.naming_options.suffix_separator() {
                    Some(sep) => s.push(sep.as_char()),
                    None => {},
                }
                s.append(x);
            },
            None => {},
        }
        proof {
            let o = self.naming_options;
            assert(s@ =~= compose_name(
                self.base_name@,
                o.spec_prefix(),
                o.spec_suffix(),
                o.spec_prefix_separator(),
                o.spec_suffix_separator(),
            ));
        }
        s
    }

    /// `Ok` when the name is of the `target` type, else an error that names
    /// both types.
    pub fn validate_resource_type(&self, target_resource_type: ResourceType) -> (res: Result<
        (),
        ResourceErrors,
    >)
        ensures
            res is Ok <==> self.spec_resource_type() == target_resource_type,
            match res {
                Err(ResourceErrors::InvalidResourceType { name, required_type, invalid_type }) =>
                    name@ == self.spec_full_name() && required_type == target_resource_type
                        && invalid_type == self.spec_resource_type(),
                Ok(_) => true,
            },
    {
        if self.resource_type == target_resource_type {
            Ok(())
        } else {
            Err(
                ResourceErrors::InvalidResourceType {
                    name: self.to_string(),
                    required_type: target_resource_type,
                    invalid_type: self.resource_type,
                },
            )
        }
    }

    /// The kind of resource named.
    pub fn resource_type(&self) -> (res: ResourceType)
        ensures
            res == self.spec_resource_type(),
    {
        self.resource_type
    }
}

} // verus!
