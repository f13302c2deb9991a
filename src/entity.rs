use vstd::prelude::*;
use crate::cedar::{escape_id, escaped_id, id_suffix, parse_entity_uid, parsed_type_name, parsed_uid_id};
use crate::names::join_components;
use crate::qualified::TypeName;

verus! {

/// An entity identifier: any string, kept raw.
#[derive(Debug, Clone, PartialEq, Eq)]
pub struct EntityIdentifier {
    raw: String,
}

impl View for EntityIdentifier {
    type V = Seq<char>;

    closed spec fn view(&self) -> Seq<char> {
        self.raw@
    }
}

impl EntityIdentifier {
    /// Wraps a raw string; any string is an identifier.
    pub fn new(raw: &str) -> (r: EntityIdentifier)
        ensures
            r@ == raw@,
    {
        EntityIdentifier { raw: String::from_str(raw) }
    }

    /// The raw string.
    pub fn unescaped(&self) -> (r: String)
        ensures
            r@ == self@,
    {
        self.raw.clone()
    }

    /// The escaped form, as Cedar prints an identifier.
    pub fn escaped(&self) -> (r: String)
        ensures
            r@ == escaped_id(self@),
    {
        escape_id(self.raw.as_str())
    }
}

/// What parsing a string as an entity reference yields: nothing where Cedar's
/// entity parser rejects it; else the type, as the type-name parser reads the
/// text before the quoted escaped identifier, and the raw identifier.
pub open spec fn parsed_uid(s: Seq<char>) -> Option<((Seq<Seq<char>>, Seq<char>), Seq<char>)> {
    match parsed_uid_id(s) {
        Some(id) => if id_suffix(id).len() <= s.len() {
            match parsed_type_name(s.subrange(0, s.len() - id_suffix(id).len())) {
                Some(t) => Some((t, id)),
                None => None,
            }
        } else {
            None
        },
        None => None,
    }
}

/// An entity reference: a type name and an identifier.
#[derive(Debug, Clone, PartialEq, Eq)]
pub struct EntityUidValue {
    entity_type: TypeName,
    id: EntityIdentifier,
}

impl View for EntityUidValue {
    type V = ((Seq<Seq<char>>, Seq<char>), Seq<char>);

    closed spec fn view(&self) -> Self::V {
        (self.entity_type@, self.id@)
    }
}

impl EntityUidValue {
    /// The type name is a valid one.
    pub closed spec fn wf(&self) -> bool {
        self.entity_type.wf()
    }

    /// Pairs a type name with an identifier.
    pub fn new(entity_type: TypeName, id: EntityIdentifier) -> (r: EntityUidValue)
        requires
            entity_type.wf(),
        ensures
            r@ == (entity_type@, id@),
            r.wf(),
    {
        EntityUidValue { entity_type, id }
    }

    /// Parses `src` as an entity reference in normalized form.
    pub fn parse(src: &str) -> (r: Option<EntityUidValue>)
        ensures
            match r {
                Some(u) => {
                    &&& parsed_uid(src@) == Some(u@)
                    &&& parsed_uid_id(src@) == Some(u@.1)
                    &&& src@ == join_components(u@.0.0.push(u@.0.1)) + id_suffix(u@.1)
                    &&& u.wf()
                },
                None => parsed_uid_id(src@) is None,
            },
    {
        match parse_entity_uid(src) {
            Some(raw) => {
                let esc = escape_id(raw.as_str());
                let n = src.unicode_len();
                let m = esc.unicode_len();
                assert(id_suffix(raw@).len() == m + 4);
                let type_text = src.substring_char(0, n - (m + 4));
                proof {
                    assert(src@ =~= type_text@ + id_suffix(raw@));
                }
                match TypeName::parse(type_text) {
                    Some(t) => Some(EntityUidValue { entity_type: t, id: EntityIdentifier { raw } }),
                    None => None,
                }
            },
            None => None,
        }
    }

    /// The type name.
    pub fn entity_type(&self) -> (r: TypeName)
        requires
            self.wf(),
        ensures
            r@ == self@.0,
            r.wf(),
    {
        self.entity_type.duplicate()
    }

    /// The identifier.
    pub fn id(&self) -> (r: EntityIdentifier)
        ensures
            r@ == self@.1,
    {
        EntityIdentifier { raw: self.id.raw.clone() }
    }

    /// The canonical text: the type name, the separator, and the escaped
    /// identifier in double quotes.
    pub fn to_string_repr(&self) -> (r: String)
        ensures
            r@ == join_components(self@.0.0.push(self@.0.1)) + id_suffix(self@.1),
    {
        let mut out = self.entity_type.to_string_repr();
        out.append("::\"");
        let esc = self.id.escaped();
        out.append(esc.as_str());
        out.append("\"");
        proof {
            reveal_strlit("::\"");
            reveal_strlit("\"");
        }
        out
    }
}

/// Where Cedar reads back the identifier from the canonical text of a valid
/// entity reference, parsing that text yields the same reference.
pub proof fn lemma_uid_text_round_trip(u: EntityUidValue)
    requires
        u.wf(),
        parsed_uid_id(join_components(u@.0.0.push(u@.0.1)) + id_suffix(u@.1)) == Some(u@.1),
    ensures
        parsed_uid(join_components(u@.0.0.push(u@.0.1)) + id_suffix(u@.1)) == Some(u@),
{
    let head = join_components(u@.0.0.push(u@.0.1));
    let s = head + id_suffix(u@.1);
    assert(s.subrange(0, s.len() - id_suffix(u@.1).len()) =~= head);
}

} // verus!
