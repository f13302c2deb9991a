use vstd::prelude::*;
use crate::error::ConversionError;

verus! {

/// The managed-side classes that typed wrappers stand for.
#[derive(Debug, Clone, Copy, PartialEq, Eq)]
pub enum ManagedClass {
    JavaString,
    EntityTypeName,
    EntityIdentifier,
    EntityUid,
    Policy,
    FormatterConfig,
}

/// The accessor methods that decoding calls on a managed object.
#[derive(Debug, Clone, Copy, PartialEq, Eq)]
pub enum Accessor {
    GetNamespace,
    GetBaseName,
    GetId,
    GetLineWidth,
    GetIndentWidth,
}

/// The fully qualified name that both sides of the boundary agree on.
pub open spec fn class_path(c: ManagedClass) -> Seq<char> {
    match c {
        ManagedClass::JavaString => "java/lang/String"@,
        ManagedClass::EntityTypeName => "com/cedarpolicy/value/EntityTypeName"@,
        ManagedClass::EntityIdentifier => "com/cedarpolicy/value/EntityIdentifier"@,
        ManagedClass::EntityUid => "com/cedarpolicy/value/EntityUID"@,
        ManagedClass::Policy => "com/cedarpolicy/model/policy/Policy"@,
        ManagedClass::FormatterConfig => "com/cedarpolicy/model/formatter/Config"@,
    }
}

/// The accessors that decoding a class calls, in the order it calls them.
pub open spec fn accessors_of(c: ManagedClass) -> Seq<Accessor> {
    match c {
        ManagedClass::EntityTypeName => seq![Accessor::GetNamespace, Accessor::GetBaseName],
        ManagedClass::EntityIdentifier => seq![Accessor::GetId],
        ManagedClass::FormatterConfig => seq![Accessor::GetLineWidth, Accessor::GetIndentWidth],
        _ => Seq::empty(),
    }
}

impl ManagedClass {
    /// The class's fully qualified name.
    pub fn class_name(&self) -> (r: String)
        ensures
            r@ == class_path(*self),
    {
        match self {
            ManagedClass::JavaString => String::from_str("java/lang/String"),
            ManagedClass::EntityTypeName => String::from_str("com/cedarpolicy/value/EntityTypeName"),
            ManagedClass::EntityIdentifier => String::from_str("com/cedarpolicy/value/EntityIdentifier"),
            ManagedClass::EntityUid => String::from_str("com/cedarpolicy/value/EntityUID"),
            ManagedClass::Policy => String::from_str("com/cedarpolicy/model/policy/Policy"),
            ManagedClass::FormatterConfig => String::from_str("com/cedarpolicy/model/formatter/Config"),
        }
    }

    /// The accessors that decoding this class calls, in order.
    pub fn field_accessors(&self) -> (r: Vec<Accessor>)
        ensures
            r@ == accessors_of(*self),
    {
        match self {
            ManagedClass::EntityTypeName => vec![Accessor::GetNamespace, Accessor::GetBaseName],
            ManagedClass::EntityIdentifier => vec![Accessor::GetId],
            ManagedClass::FormatterConfig => vec![Accessor::GetLineWidth, Accessor::GetIndentWidth],
            _ => Vec::new(),
        }
    }
}

impl Accessor {
    /// The accessor's method name.
    pub fn method_name(&self) -> (r: String)
        ensures
            r@ == match *self {
                Accessor::GetNamespace => "getNamespace"@,
                Accessor::GetBaseName => "getBaseName"@,
                Accessor::GetId => "getId"@,
                Accessor::GetLineWidth => "getLineWidth"@,
                Accessor::GetIndentWidth => "getIndentWidth"@,
            },
    {
        match self {
            Accessor::GetNamespace => String::from_str("getNamespace"),
            Accessor::GetBaseName => String::from_str("getBaseName"),
            Accessor::GetId => String::from_str("getId"),
            Accessor::GetLineWidth => String::from_str("getLineWidth"),
            Accessor::GetIndentWidth => String::from_str("getIndentWidth"),
        }
    }

    /// The accessor's method signature.
    pub fn signature(&self) -> (r: String)
        ensures
            r@ == match *self {
                Accessor::GetNamespace => "()Ljava/util/List;"@,
                Accessor::GetBaseName => "()Ljava/lang/String;"@,
                Accessor::GetId => "()Ljava/lang/String;"@,
                Accessor::GetLineWidth => "()I"@,
                Accessor::GetIndentWidth => "()I"@,
            },
    {
        match self {
            Accessor::GetNamespace => String::from_str("()Ljava/util/List;"),
            Accessor::GetBaseName => String::from_str("()Ljava/lang/String;"),
            Accessor::GetId => String::from_str("()Ljava/lang/String;"),
            Accessor::GetLineWidth => String::from_str("()I"),
            Accessor::GetIndentWidth => String::from_str("()I"),
        }
    }
}

/// Whether two strings hold the same characters.
pub fn same_text(a: &str, b: &str) -> (r: bool)
    ensures
        r == (a@ == b@),
{
    let n = a.unicode_len();
    if n != b.unicode_len() {
        return false;
    }
    let mut i: usize = 0;
    while i < n
        invariant
            n == a@.len(),
            n == b@.len(),
            i <= n,
            a@.subrange(0, i as int) == b@.subrange(0, i as int),
        decreases n - i,
    {
        if a.get_char(i) != b.get_char(i) {
            return false;
        }
        proof {
            assert(a@.subrange(0, i as int + 1) =~= a@.subrange(0, i as int).push(a@[i as int]));
            assert(b@.subrange(0, i as int + 1) =~= b@.subrange(0, i as int).push(b@[i as int]));
        }
        i = i + 1;
    }
    proof {
        assert(a@ =~= a@.subrange(0, n as int));
        assert(b@ =~= b@.subrange(0, n as int));
    }
    true
}

/// The identity check of the cast protocol. A reference whose runtime class is
/// `actual` may be widened to a wrapper of `expected` only where the names are
/// equal; then the result lists the accessors to call, in order. Otherwise the
/// error names both classes, and no accessor is to be called.
pub fn check_class(expected: ManagedClass, actual: &str) -> (r: Result<Vec<Accessor>, ConversionError>)
    ensures
        r is Ok <==> actual@ == class_path(expected),
        match r {
            Ok(v) => v@ == accessors_of(expected),
            Err(ConversionError::ClassMismatch { expected: e, actual: a }) => e@ == class_path(expected)
                && a@ == actual@,
            Err(_) => false,
        },
{
    let name = expected.class_name();
    if same_text(name.as_str(), actual) {
        Ok(expected.field_accessors())
    } else {
        Err(ConversionError::ClassMismatch { expected: name, actual: String::from_str(actual) })
    }
}

} // verus!
