use vstd::prelude::*;
use crate::cedar::escaped_id;
use crate::classes::ManagedClass;
use crate::entity::{EntityIdentifier, EntityUidValue};
use crate::error::ConversionError;
use crate::names::{join_components, string_views};
use crate::qualified::{components_type_name, TypeName};

verus! {

/// A typed wrapper around a managed object of one class: a reference may be
/// widened to it only after its runtime class is found to be that class.
pub trait Object<H>: Sized {
    /// The class a reference must have to be widened to this wrapper.
    fn managed_class() -> ManagedClass;

    /// The managed object.
    fn object(&self) -> &H;
}

/// Typed wrapper of a managed `EntityTypeName` object: the handle `H` and the
/// validated native value.
pub struct JEntityTypeName<H> {
    obj: H,
    value: TypeName,
}

impl<H> View for JEntityTypeName<H> {
    type V = (Seq<Seq<char>>, Seq<char>);

    closed spec fn view(&self) -> Self::V {
        self.value@
    }
}

impl<H> JEntityTypeName<H> {
    /// The managed object this wrapper stands for.
    pub closed spec fn handle(&self) -> H {
        self.obj
    }

    /// The native value is a valid type name.
    pub closed spec fn wf(&self) -> bool {
        self.value.wf()
    }

    /// Pairs a newly allocated managed object with the value it was built from.
    pub fn new(obj: H, value: TypeName) -> (r: Self)
        requires
            value.wf(),
        ensures
            r@ == value@,
            r.handle() == obj,
            r.wf(),
    {
        JEntityTypeName { obj, value }
    }

    /// Decodes a managed object of the right class from its fields, with the
    /// validation that construction uses.
    pub fn cast(obj: H, namespace: &Vec<String>, basename: &str) -> (r: Result<Self, ConversionError>)
        ensures
            match r {
                Ok(w) => components_type_name(string_views(namespace@), basename@) == Some(w@) && w.handle()
                    == obj && w.wf(),
                Err(e) => components_type_name(string_views(namespace@), basename@) is None && e is Parse,
            },
    {
        match TypeName::from_components(namespace, basename) {
            Ok(value) => Ok(JEntityTypeName { obj, value }),
            Err(e) => Err(e),
        }
    }

    /// Parses `src` as a type name: present where it is one, absent otherwise.
    pub fn parse(src: &str) -> (r: JOptional<TypeName>)
        ensures
            match r@ {
                Some(t) => {
                    &&& crate::cedar::parsed_type_name(src@) == Some(t@)
                    &&& join_components(t@.0.push(t@.1)) == src@
                    &&& t.wf()
                },
                None => crate::cedar::parsed_type_name(src@) is None,
            },
    {
        JOptional::from_optional(TypeName::parse(src))
    }

    /// The native value.
    pub fn get_rust_repr(&self) -> (r: TypeName)
        ensures
            r@ == self@,
            self.wf() ==> r.wf(),
    {
        self.value.duplicate()
    }

    /// The canonical text of the native value.
    pub fn get_string_repr(&self) -> (r: String)
        ensures
            r@ == join_components(self@.0.push(self@.1)),
    {
        self.value.to_string_repr()
    }

    /// The namespace components of the native value.
    pub fn get_namespace(&self) -> (r: Vec<String>)
        ensures
            string_views(r@) == self@.0,
    {
        self.value.namespace_components()
    }

    /// The base name of the native value.
    pub fn get_basename(&self) -> (r: String)
        ensures
            r@ == self@.1,
    {
        self.value.basename()
    }

    /// The managed object.
    pub fn as_ref(&self) -> (r: &H)
        ensures
            *r == self.handle(),
    {
        &self.obj
    }

    /// Gives up the wrapper for its managed object.
    pub fn into_object(self) -> (r: H)
        ensures
            r == self.handle(),
    {
        self.obj
    }
}

/// Which static factory of the managed optional class builds a value.
#[derive(Debug, Clone, Copy, PartialEq, Eq)]
pub enum OptionalFactory {
    Empty,
    Of,
}

/// A managed-side optional: absent, or present with a value, built by the
/// managed class's own factories and never by a null reference.
#[derive(Debug)]
pub struct JOptional<T> {
    value: Option<T>,
}

impl<T> View for JOptional<T> {
    type V = Option<T>;

    closed spec fn view(&self) -> Option<T> {
        self.value
    }
}

/// The factory that builds an optional with contents `v`.
pub open spec fn factory_for<T>(v: Option<T>) -> OptionalFactory {
    match v {
        Some(_) => OptionalFactory::Of,
        None => OptionalFactory::Empty,
    }
}

impl<T> JOptional<T> {
    /// The absent value.
    pub fn empty() -> (r: Self)
        ensures
            r@ is None,
    {
        JOptional { value: None }
    }

    /// The value holding `t`.
    pub fn of(t: T) -> (r: Self)
        ensures
            r@ == Some(t),
    {
        JOptional { value: Some(t) }
    }

    /// Absent for `None`, else holding the value: the same as `empty` and `of`.
    pub fn from_optional(t: Option<T>) -> (r: Self)
        ensures
            r@ == t,
    {
        match t {
            None => Self::empty(),
            Some(obj) => Self::of(obj),
        }
    }

    /// Whether a value is present.
    pub fn is_present(&self) -> (r: bool)
        ensures
            r == self@ is Some,
    {
        self.value.is_some()
    }

    /// The factory that builds this value on the managed side.
    pub fn factory(&self) -> (r: OptionalFactory)
        ensures
            r == factory_for(self@),
    {
        match &self.value {
            Some(_) => OptionalFactory::Of,
            None => OptionalFactory::Empty,
        }
    }

    /// The contents.
    pub fn into_option(self) -> (r: Option<T>)
        ensures
            r == self@,
    {
        self.value
    }
}

impl OptionalFactory {
    /// The factory's method name on the managed optional class.
    pub fn method_name(&self) -> (r: String)
        ensures
            r@ == match *self {
                OptionalFactory::Empty => "empty"@,
                OptionalFactory::Of => "of"@,
            },
    {
        match self {
            OptionalFactory::Empty => String::from_str("empty"),
            OptionalFactory::Of => String::from_str("of"),
        }
    }

    /// The factory's method signature.
    pub fn signature(&self) -> (r: String)
        ensures
            r@ == match *self {
                OptionalFactory::Empty => "()Ljava/util/Optional;"@,
                OptionalFactory::Of => "(Ljava/lang/Object;)Ljava/util/Optional;"@,
            },
    {
        match self {
            OptionalFactory::Empty => String::from_str("()Ljava/util/Optional;"),
            OptionalFactory::Of => String::from_str("(Ljava/lang/Object;)Ljava/util/Optional;"),
        }
    }
}

/// Bridging a native option is the same as calling `empty` for `None` and `of`
/// for `Some(w)`: the same contents, and the same managed factory.
pub proof fn lemma_optional_bridge<T>(v: Option<T>, bridged: JOptional<T>, direct: JOptional<T>)
    requires
        bridged@ == v,
        match v {
            None => direct@ is None,
            Some(w) => direct@ == Some(w),
        },
    ensures
        bridged@ == direct@,
        factory_for(bridged@) == factory_for(direct@),
{
}

/// Typed wrapper of a managed `EntityIdentifier` object.
pub struct JEntityId<H> {
    obj: H,
    id: EntityIdentifier,
}

impl<H> View for JEntityId<H> {
    type V = Seq<char>;

    closed spec fn view(&self) -> Seq<char> {
        self.id@
    }
}

/// The string form of an identifier: its escaped text.
pub open spec fn id_repr(raw: Seq<char>) -> Seq<char> {
    escaped_id(raw)
}

impl<H> JEntityId<H> {
    /// The managed object this wrapper stands for.
    pub closed spec fn handle(&self) -> H {
        self.obj
    }

    /// Pairs a newly allocated managed object with the raw string it was built
    /// from; any string is an identifier.
    pub fn new(obj: H, raw: &str) -> (r: Self)
        ensures
            r@ == raw@,
            r.handle() == obj,
    {
        JEntityId { obj, id: EntityIdentifier::new(raw) }
    }

    /// Decodes a managed object of the right class from its `id` field.
    pub fn cast(obj: H, id_field: &str) -> (r: Self)
        ensures
            r@ == id_field@,
            r.handle() == obj,
    {
        JEntityId { obj, id: EntityIdentifier::new(id_field) }
    }

    /// The native value.
    pub fn get_rust_repr(&self) -> (r: EntityIdentifier)
        ensures
            r@ == self@,
    {
        EntityIdentifier::new(self.id.unescaped().as_str())
    }

    /// The escaped text of the identifier.
    pub fn get_string_repr(&self) -> (r: String)
        ensures
            r@ == id_repr(self@),
    {
        self.id.escaped()
    }

    /// The managed object.
    pub fn as_ref(&self) -> (r: &H)
        ensures
            *r == self.handle(),
    {
        &self.obj
    }
}

/// Escaping is a function of the identifier alone: a wrapper decoded from a
/// constructed one's field has the same string form.
pub proof fn lemma_identifier_repr_stable<H>(constructed: JEntityId<H>, decoded: JEntityId<H>)
    requires
        decoded@ == constructed@,
    ensures
        id_repr(decoded@) == id_repr(constructed@),
{
}

/// Typed wrapper of a managed `EntityUID` object, opaque once cast.
pub struct JEntityUID<H> {
    obj: H,
}

impl<H> JEntityUID<H> {
    /// The managed object this wrapper stands for.
    pub closed spec fn handle(&self) -> H {
        self.obj
    }

    /// Pairs the managed object built from a type name and an identifier.
    pub fn new(obj: H) -> (r: Self)
        ensures
            r.handle() == obj,
    {
        JEntityUID { obj }
    }

    /// Wraps a managed object of the right class.
    pub fn cast(obj: H) -> (r: Self)
        ensures
            r.handle() == obj,
    {
        JEntityUID { obj }
    }

    /// Parses `src` as an entity reference: present where it is one, absent
    /// otherwise.
    pub fn parse(src: &str) -> (r: JOptional<EntityUidValue>)
        ensures
            match r@ {
                Some(u) => {
                    &&& crate::entity::parsed_uid(src@) == Some(u@)
                    &&& crate::cedar::parsed_uid_id(src@) == Some(u@.1)
                    &&& src@ == join_components(u@.0.0.push(u@.0.1)) + crate::cedar::id_suffix(u@.1)
                    &&& u.wf()
                },
                None => crate::cedar::parsed_uid_id(src@) is None,
            },
    {
        JOptional::from_optional(EntityUidValue::parse(src))
    }

    /// The managed object.
    pub fn as_ref(&self) -> (r: &H)
        ensures
            *r == self.handle(),
    {
        &self.obj
    }
    /// Gives up the wrapper for its managed object.
    pub fn into_object(self) -> (r: H)
        ensures
            r == self.handle(),
    {
        self.obj
    }
}

/// Typed wrapper of a managed `Policy` object.
pub struct JPolicy<H> {
    obj: H,
}

impl<H> JPolicy<H> {
    /// The managed object this wrapper stands for.
    pub closed spec fn handle(&self) -> H {
        self.obj
    }

    /// Pairs a newly allocated managed policy object.
    pub fn new(obj: H) -> (r: Self)
        ensures
            r.handle() == obj,
    {
        JPolicy { obj }
    }

    /// Wraps a managed object of the right class.
    pub fn cast(obj: H) -> (r: Self)
        ensures
            r.handle() == obj,
    {
        JPolicy { obj }
    }

    /// The managed object.
    pub fn as_ref(&self) -> (r: &H)
        ensures
            *r == self.handle(),
    {
        &self.obj
    }
}

/// Typed wrapper of a managed formatter configuration.
pub struct JFormatterConfig<H> {
    obj: H,
    line_width: usize,
    indent_width: isize,
}

impl<H> JFormatterConfig<H> {
    /// The managed object this wrapper stands for.
    pub closed spec fn handle(&self) -> H {
        self.obj
    }

    /// The line width.
    pub closed spec fn spec_line_width(&self) -> int {
        self.line_width as int
    }

    /// The indentation width.
    pub closed spec fn spec_indent_width(&self) -> int {
        self.indent_width as int
    }

    /// Decodes a managed object of the right class from its two widths. A
    /// negative line width is refused.
    pub fn cast(obj: H, line_width: i32, indent_width: i32) -> (r: Result<Self, ConversionError>)
        ensures
            r is Ok <==> line_width >= 0,
            match r {
                Ok(c) => c.spec_line_width() == line_width && c.spec_indent_width() == indent_width && c.handle()
                    == obj,
                Err(e) => e is Parse,
            },
    {
        if line_width < 0 {
            return Err(ConversionError::Parse(String::from_str("line width must not be negative")));
        }
        Ok(JFormatterConfig { obj, line_width: line_width as usize, indent_width: indent_width as isize })
    }

    /// The line width.
    pub fn line_width(&self) -> (r: usize)
        ensures
            r == self.spec_line_width(),
    {
        self.line_width
    }

    /// The indentation width.
    pub fn indent_width(&self) -> (r: isize)
        ensures
            r == self.spec_indent_width(),
    {
        self.indent_width
    }

    /// The managed object.
    pub fn as_ref(&self) -> (r: &H)
        ensures
            *r == self.handle(),
    {
        &self.obj
    }
}

impl<H> Object<H> for JEntityTypeName<H> {
    fn managed_class() -> ManagedClass {
        ManagedClass::EntityTypeName
    }

    fn object(&self) -> &H {
        &self.obj
    }
}

impl<H> Object<H> for JEntityId<H> {
    fn managed_class() -> ManagedClass {
        ManagedClass::EntityIdentifier
    }

    fn object(&self) -> &H {
        &self.obj
    }
}

impl<H> Object<H> for JEntityUID<H> {
    fn managed_class() -> ManagedClass {
        ManagedClass::EntityUid
    }

    fn object(&self) -> &H {
        &self.obj
    }
}

impl<H> Object<H> for JPolicy<H> {
    fn managed_class() -> ManagedClass {
        ManagedClass::Policy
    }

    fn object(&self) -> &H {
        &self.obj
    }
}

impl<H> Object<H> for JFormatterConfig<H> {
    fn managed_class() -> ManagedClass {
        ManagedClass::FormatterConfig
    }

    fn object(&self) -> &H {
        &self.obj
    }
}

} // verus!
