use vstd::prelude::*;
use crate::cedar::{parse_type_name, parsed_type_name};
use crate::error::ConversionError;
use crate::names::{contains_separator, has_separator, join_components, join_with_separator, lemma_views_push, string_views};

verus! {

/// Some component holds the separator.
pub open spec fn any_has_separator(parts: Seq<Seq<char>>) -> bool {
    exists|k: int| 0 <= k < parts.len() && has_separator(#[trigger] parts[k])
}

/// What building a type name from its components yields: nothing where a
/// component holds the separator, else what parsing the joined text yields.
pub open spec fn components_type_name(namespace: Seq<Seq<char>>, basename: Seq<char>) -> Option<
    (Seq<Seq<char>>, Seq<char>),
> {
    if any_has_separator(namespace.push(basename)) {
        None
    } else {
        parsed_type_name(join_components(namespace.push(basename)))
    }
}

/// A validated qualified type name: namespace components and a base name.
#[derive(Debug, Clone, PartialEq, Eq)]
pub struct TypeName {
    namespace: Vec<String>,
    basename: String,
}

impl View for TypeName {
    type V = (Seq<Seq<char>>, Seq<char>);

    closed spec fn view(&self) -> Self::V {
        (string_views(self.namespace@), self.basename@)
    }
}

impl TypeName {
    /// The value is what the parser yields for its own canonical text, and
    /// none of its components holds the separator.
    pub open spec fn wf(&self) -> bool {
        &&& !any_has_separator(self@.0.push(self@.1))
        &&& parsed_type_name(join_components(self@.0.push(self@.1))) == Some(self@)
    }

    /// Parses `src` as a type name in normalized form.
    pub fn parse(src: &str) -> (r: Option<TypeName>)
        ensures
            match r {
                Some(t) => {
                    &&& parsed_type_name(src@) == Some(t@)
                    &&& join_components(t@.0.push(t@.1)) == src@
                    &&& t.wf()
                },
                None => parsed_type_name(src@) is None,
            },
    {
        match parse_type_name(src) {
            Some(p) => {
                let t = TypeName { namespace: p.0, basename: p.1 };
                proof {
                    let parts = t@.0.push(t@.1);
                    assert forall|k: int| 0 <= k < parts.len() implies !has_separator(#[trigger] parts[k]) by {
                        if k < t@.0.len() {
                            assert(parts[k] == t.namespace@[k]@);
                        }
                    }
                }
                Some(t)
            },
            None => None,
        }
    }

    /// Builds a type name from its components: fails where a component holds
    /// the separator, else parses the components joined by the separator.
    pub fn from_components(namespace: &Vec<String>, basename: &str) -> (r: Result<TypeName, ConversionError>)
        ensures
            match r {
                Ok(t) => components_type_name(string_views(namespace@), basename@) == Some(t@) && t.wf(),
                Err(e) => components_type_name(string_views(namespace@), basename@) is None && e is Parse,
            },
    {
        let ghost parts = string_views(namespace@).push(basename@);
        let mut full: Vec<String> = Vec::new();
        let mut i: usize = 0;
        while i < namespace.len()
            invariant
                i <= namespace@.len(),
                parts == string_views(namespace@).push(basename@),
                string_views(full@) == parts.subrange(0, i as int),
                forall|k: int| 0 <= k < i ==> !has_separator(#[trigger] parts[k]),
            decreases namespace@.len() - i,
        {
            let part = namespace[i].as_str();
            if contains_separator(part) {
                proof {
                    assert(has_separator(parts[i as int]));
                }
                return Err(ConversionError::Parse(String::from_str("components of the type name cannot contain colons")));
            }
            let owned = String::from_str(part);
            proof {
                lemma_views_push(full@, owned);
                assert(parts.subrange(0, i as int + 1) =~= parts.subrange(0, i as int).push(owned@));
            }
            full.push(owned);
            i = i + 1;
        }
        if contains_separator(basename) {
            proof {
                assert(has_separator(parts[parts.len() - 1]));
            }
            return Err(ConversionError::Parse(String::from_str("components of the type name cannot contain colons")));
        }
        let owned = String::from_str(basename);
        proof {
            lemma_views_push(full@, owned);
            assert(parts.subrange(0, i as int) =~= string_views(namespace@));
        }
        full.push(owned);
        proof {
            assert(string_views(full@) =~= parts);
            assert(!any_has_separator(parts));
        }
        let joined = join_with_separator(&full);
        match TypeName::parse(joined.as_str()) {
            Some(t) => Ok(t),
            None => Err(ConversionError::Parse(String::from_str("invalid entity type name"))),
        }
    }

    /// The namespace components, outermost first.
    pub fn namespace_components(&self) -> (r: Vec<String>)
        ensures
            string_views(r@) == self@.0,
    {
        let mut out: Vec<String> = Vec::new();
        let mut i: usize = 0;
        while i < self.namespace.len()
            invariant
                i <= self.namespace@.len(),
                string_views(out@) == string_views(self.namespace@).subrange(0, i as int),
            decreases self.namespace@.len() - i,
        {
            let part = self.namespace[i].clone();
            proof {
                lemma_views_push(out@, part);
                assert(string_views(self.namespace@).subrange(0, i as int + 1) =~= string_views(
                    self.namespace@,
                ).subrange(0, i as int).push(part@));
            }
            out.push(part);
            i = i + 1;
        }
        proof {
            assert(string_views(self.namespace@).subrange(0, i as int) =~= string_views(self.namespace@));
        }
        out
    }

    /// A copy of this value.
    pub fn duplicate(&self) -> (r: TypeName)
        ensures
            r@ == self@,
    {
        TypeName { namespace: self.namespace_components(), basename: self.basename() }
    }

    /// The base name.
    pub fn basename(&self) -> (r: String)
        ensures
            r@ == self@.1,
    {
        self.basename.clone()
    }

    /// The canonical text: the components joined by the separator.
    pub fn to_string_repr(&self) -> (r: String)
        ensures
            r@ == join_components(self@.0.push(self@.1)),
    {
        let mut full = self.namespace_components();
        let base = self.basename();
        proof {
            lemma_views_push(full@, base);
        }
        full.push(base);
        proof {
            assert(string_views(full@) =~= self@.0.push(self@.1));
        }
        join_with_separator(&full)
    }
}

/// Decoding the fields of an object that was built from separator-free
/// components yields what parsing their canonical text yields directly.
pub proof fn lemma_components_round_trip(namespace: Seq<Seq<char>>, basename: Seq<char>)
    requires
        !any_has_separator(namespace.push(basename)),
    ensures
        components_type_name(namespace, basename) == parsed_type_name(join_components(namespace.push(basename))),
{
}

/// Building a type name again from the components of a valid one yields that
/// same value.
pub proof fn lemma_components_of_valid(t: TypeName)
    requires
        t.wf(),
    ensures
        components_type_name(t@.0, t@.1) == Some(t@),
{
}

/// Any component that holds the separator makes construction fail.
pub proof fn lemma_separator_rejected(namespace: Seq<Seq<char>>, basename: Seq<char>, k: int)
    requires
        0 <= k <= namespace.len(),
        has_separator(namespace.push(basename)[k]),
    ensures
        components_type_name(namespace, basename) is None,
{
}

} // verus!
