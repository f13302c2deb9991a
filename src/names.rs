use vstd::prelude::*;

verus! {

/// The separator that joins the components of a qualified name.
pub open spec fn separator() -> Seq<char> {
    seq![':', ':']
}

/// The separator starts at position `i` of `s`.
pub open spec fn separator_at(s: Seq<char>, i: int) -> bool {
    0 <= i < s.len() - 1 && s[i] == ':' && s[i + 1] == ':'
}

/// `s` contains the two-colon separator somewhere.
pub open spec fn has_separator(s: Seq<char>) -> bool {
    exists|i: int| #[trigger] separator_at(s, i)
}

/// The components joined, in order, by the separator.
pub open spec fn join_components(parts: Seq<Seq<char>>) -> Seq<char>
    decreases parts.len(),
{
    if parts.len() == 0 {
        Seq::empty()
    } else if parts.len() == 1 {
        parts[0]
    } else {
        join_components(parts.drop_last()) + separator() + parts.last()
    }
}

/// The views of a vector of strings.
pub open spec fn string_views(v: Seq<String>) -> Seq<Seq<char>> {
    v.map_values(|s: String| s@)
}

/// Pushing a string pushes its view.
pub proof fn lemma_views_push(s: Seq<String>, x: String)
    ensures
        string_views(s.push(x)) == string_views(s).push(x@),
{
    assert(string_views(s.push(x)) =~= string_views(s).push(x@));
}

/// Whether `s` contains the two-colon separator.
pub fn contains_separator(s: &str) -> (r: bool)
    ensures
        r == has_separator(s@),
{
    let n = s.unicode_len();
    if n < 2 {
        assert forall|j: int| !separator_at(s@, j) by {}
        return false;
    }
    let mut i: usize = 0;
    while i + 1 < n
        invariant
            n == s@.len(),
            n >= 2,
            i + 1 <= n,
            forall|j: int| 0 <= j < i ==> !#[trigger] separator_at(s@, j),
        decreases n - i,
    {
        if s.get_char(i) == ':' && s.get_char(i + 1) == ':' {
            assert(separator_at(s@, i as int));
            return true;
        }
        i = i + 1;
    }
    assert forall|j: int| !separator_at(s@, j) by {
        if 0 <= j < i {
        }
    }
    false
}

/// Joins the components with the separator.
pub fn join_with_separator(parts: &Vec<String>) -> (r: String)
    ensures
        r@ == join_components(string_views(parts@)),
{
    let mut out = String::new();
    let mut i: usize = 0;
    while i < parts.len()
        invariant
            i <= parts@.len(),
            out@ == join_components(string_views(parts@.subrange(0, i as int))),
        decreases parts@.len() - i,
    {
        proof {
            let next = parts@.subrange(0, i as int + 1);
            assert(next.drop_last() == parts@.subrange(0, i as int));
            assert(string_views(next).drop_last() =~= string_views(next.drop_last()));
            assert(string_views(next).last() == parts@[i as int]@);
            reveal_strlit("::");
            assert("::"@ =~= separator());
        }
        if i > 0 {
            out.append("::");
        }
        out.append(parts[i].as_str());
        i = i + 1;
    }
    proof {
        assert(parts@.subrange(0, parts@.len() as int) == parts@);
    }
    out
}

} // verus!
