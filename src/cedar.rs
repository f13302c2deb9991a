use std::str::FromStr;
use vstd::prelude::*;
use crate::names::{has_separator, join_components, string_views};

verus! {

/// A character that may start an identifier.
pub open spec fn is_ident_start(c: char) -> bool {
    c == '_' || ('a' as u32 <= c as u32 && c as u32 <= 'z' as u32) || ('A' as u32 <= c as u32 && c as u32
        <= 'Z' as u32)
}

/// A character that may continue an identifier.
pub open spec fn is_ident_char(c: char) -> bool {
    is_ident_start(c) || ('0' as u32 <= c as u32 && c as u32 <= '9' as u32)
}

/// An identifier: a start character followed by identifier characters.
pub open spec fn is_identifier(s: Seq<char>) -> bool {
    &&& s.len() > 0
    &&& is_ident_start(s[0])
    &&& forall|i: int| 1 <= i < s.len() ==> is_ident_char(#[trigger] s[i])
}

/// The words that no component of a type name may be.
pub open spec fn is_reserved(s: Seq<char>) -> bool {
    ||| s == "true"@
    ||| s == "false"@
    ||| s == "if"@
    ||| s == "then"@
    ||| s == "else"@
    ||| s == "in"@
    ||| s == "is"@
    ||| s == "like"@
    ||| s == "has"@
    ||| s == "__cedar"@
}

/// A component that a type name may have.
pub open spec fn valid_component(s: Seq<char>) -> bool {
    is_identifier(s) && !is_reserved(s)
}

/// The pieces of `s` between occurrences of the separator, read left to right.
pub open spec fn split_components(s: Seq<char>) -> Seq<Seq<char>>
    decreases s.len(),
{
    if s.len() == 0 {
        seq![Seq::<char>::empty()]
    } else if s.len() >= 2 && s[0] == ':' && s[1] == ':' {
        seq![Seq::<char>::empty()] + split_components(s.subrange(2, s.len() as int))
    } else {
        let rest = split_components(s.subrange(1, s.len() as int));
        rest.update(0, seq![s[0]] + rest[0])
    }
}

/// What Cedar's `EntityTypeName` parser makes of a string: where every piece
/// between separators is a valid component, the namespace (all pieces but the
/// last) and the base name (the last); otherwise nothing.
pub open spec fn parsed_type_name(s: Seq<char>) -> Option<(Seq<Seq<char>>, Seq<char>)> {
    let parts = split_components(s);
    if forall|k: int| 0 <= k < parts.len() ==> valid_component(#[trigger] parts[k]) {
        Some((parts.drop_last(), parts.last()))
    } else {
        None
    }
}

/// The raw (unescaped) identifier of the entity reference that Cedar's
/// `EntityUid` parser reads from a string, or nothing where it rejects it.
pub uninterp spec fn parsed_uid_id(s: Seq<char>) -> Option<Seq<char>>;

/// Cedar's escaped form of a raw entity identifier.
pub uninterp spec fn escaped_id(raw: Seq<char>) -> Seq<char>;

/// The text that follows the type in a printed entity reference.
pub open spec fn id_suffix(raw_id: Seq<char>) -> Seq<char> {
    seq![':', ':', '"'] + escaped_id(raw_id) + seq!['"']
}

/// Relies on `cedar_policy::EntityTypeName::from_str`, with `basename` and
/// `namespace_components` to read the result. The parser accepts a string that
/// matches `[_a-zA-Z][_a-zA-Z0-9]*(::[_a-zA-Z][_a-zA-Z0-9]*)*` and none of whose
/// pieces is a reserved word, and splits it on the separator: the parts join
/// back to the input and none of them holds the separator.
#[verifier::external_body]
pub(crate) fn parse_type_name(s: &str) -> (r: Option<(Vec<String>, String)>)
    ensures
        match r {
            Some(p) => {
                &&& parsed_type_name(s@) == Some((string_views(p.0@), p.1@))
                &&& join_components(string_views(p.0@).push(p.1@)) == s@
                &&& !has_separator(p.1@)
                &&& forall|k: int| 0 <= k < p.0@.len() ==> !has_separator(#[trigger] p.0@[k]@)
            },
            None => parsed_type_name(s@) is None,
        },
{
    match cedar_policy::EntityTypeName::from_str(s) {
        Ok(t) => Some((t.namespace_components().map(String::from).collect(), t.basename().to_string())),
        Err(_) => None,
    }
}

/// Relies on `cedar_policy::EntityUid::from_str`, with `id` to read the
/// result. The parser accepts only the normalized form, which is the text that
/// Cedar prints for the parsed value: the type's name, then the separator and
/// the escaped identifier in double quotes. The type's name is made of
/// identifiers that are not reserved words, joined by the separator, so the
/// `EntityTypeName` parser accepts that text.
#[verifier::external_body]
pub(crate) fn parse_entity_uid(s: &str) -> (r: Option<String>)
    ensures
        match r {
            Some(id) => {
                &&& parsed_uid_id(s@) == Some(id@)
                &&& s@.len() >= id_suffix(id@).len()
                &&& s@.subrange(s@.len() - id_suffix(id@).len(), s@.len() as int) == id_suffix(id@)
                &&& parsed_type_name(s@.subrange(0, s@.len() - id_suffix(id@).len())) is Some
            },
            None => parsed_uid_id(s@) is None,
        },
{
    match cedar_policy::EntityUid::from_str(s) {
        Ok(u) => Some(u.id().unescaped().to_string()),
        Err(_) => None,
    }
}

/// Relies on `cedar_policy::EntityId::escaped`, which depends on the raw
/// identifier alone.
#[verifier::external_body]
pub(crate) fn escape_id(raw: &str) -> (r: String)
    ensures
        r@ == escaped_id(raw@),
{
    cedar_policy::EntityId::new(raw).escaped().to_string()
}

} // verus!
