//! The type model: kind classification, qualifier queries, spelling,
//! and structural equality scoped to one parse session.

use vstd::prelude::*;
use crate::cursor::Cursor;

verus! {

/// The classification tag of a type, mapped at the boundary from the
/// front-end's raw numeric kind codes.
///
/// The mapping is closed over the codes this layer cares about; every
/// other code is carried through unchanged in `Other`, reserved for
/// forward compatibility with codes the front-end may add.
#[derive(Clone, Copy, PartialEq, Eq, Structural, Debug)]
pub enum TypeKind {
    /// The invalid type, reported for invalid or absent handles.
    Invalid,
    /// A type whose specific kind is not exposed by the front-end.
    Unexposed,
    Void,
    Bool,
    CharU,
    UChar,
    UShort,
    UInt,
    ULong,
    ULongLong,
    CharS,
    SChar,
    Short,
    Int,
    Long,
    LongLong,
    Pointer,
    LValueReference,
    RValueReference,
    Record,
    Enum,
    Typedef,
    /// A function type declared without a prototype.
    FunctionNoProto,
    /// A function type declared with a prototype.
    FunctionProto,
    ConstantArray,
    IncompleteArray,
    /// A type deduced from its initializer.
    Auto,
    Elaborated,
    /// Any other raw kind code, carried through unchanged.
    Other(u32),
}

/// The classification of a raw kind code from the front-end's encoding.
pub open spec fn spec_kind_of_code(code: u32) -> TypeKind {
    if code == 0 {
        TypeKind::Invalid
    } else if code == 1 {
        TypeKind::Unexposed
    } else if code == 2 {
        TypeKind::Void
    } else if code == 3 {
        TypeKind::Bool
    } else if code == 4 {
        TypeKind::CharU
    } else if code == 5 {
        TypeKind::UChar
    } else if code == 8 {
        TypeKind::UShort
    } else if code == 9 {
        TypeKind::UInt
    } else if code == 10 {
        TypeKind::ULong
    } else if code == 11 {
        TypeKind::ULongLong
    } else if code == 13 {
        TypeKind::CharS
    } else if code == 14 {
        TypeKind::SChar
    } else if code == 16 {
        TypeKind::Short
    } else if code == 17 {
        TypeKind::Int
    } else if code == 18 {
        TypeKind::Long
    } else if code == 19 {
        TypeKind::LongLong
    } else if code == 101 {
        TypeKind::Pointer
    } else if code == 103 {
        TypeKind::LValueReference
    } else if code == 104 {
        TypeKind::RValueReference
    } else if code == 105 {
        TypeKind::Record
    } else if code == 106 {
        TypeKind::Enum
    } else if code == 107 {
        TypeKind::Typedef
    } else if code == 110 {
        TypeKind::FunctionNoProto
    } else if code == 111 {
        TypeKind::FunctionProto
    } else if code == 112 {
        TypeKind::ConstantArray
    } else if code == 114 {
        TypeKind::IncompleteArray
    } else if code == 118 {
        TypeKind::Auto
    } else if code == 119 {
        TypeKind::Elaborated
    } else {
        TypeKind::Other(code)
    }
}

/// Whether `k` classifies a function type.
pub open spec fn spec_is_function_kind(k: TypeKind) -> bool {
    k == TypeKind::FunctionNoProto || k == TypeKind::FunctionProto
}

/// Map a raw kind code from the front-end into the closed classification.
pub fn type_kind_from_code(code: u32) -> (k: TypeKind)
    ensures
        k == spec_kind_of_code(code),
{
    if code == 0 {
        TypeKind::Invalid
    } else if code == 1 {
        TypeKind::Unexposed
    } else if code == 2 {
        TypeKind::Void
    } else if code == 3 {
        TypeKind::Bool
    } else if code == 4 {
        TypeKind::CharU
    } else if code == 5 {
        TypeKind::UChar
    } else if code == 8 {
        TypeKind::UShort
    } else if code == 9 {
        TypeKind::UInt
    } else if code == 10 {
        TypeKind::ULong
    } else if code == 11 {
        TypeKind::ULongLong
    } else if code == 13 {
        TypeKind::CharS
    } else if code == 14 {
        TypeKind::SChar
    } else if code == 16 {
        TypeKind::Short
    } else if code == 17 {
        TypeKind::Int
    } else if code == 18 {
        TypeKind::Long
    } else if code == 19 {
        TypeKind::LongLong
    } else if code == 101 {
        TypeKind::Pointer
    } else if code == 103 {
        TypeKind::LValueReference
    } else if code == 104 {
        TypeKind::RValueReference
    } else if code == 105 {
        TypeKind::Record
    } else if code == 106 {
        TypeKind::Enum
    } else if code == 107 {
        TypeKind::Typedef
    } else if code == 110 {
        TypeKind::FunctionNoProto
    } else if code == 111 {
        TypeKind::FunctionProto
    } else if code == 112 {
        TypeKind::ConstantArray
    } else if code == 114 {
        TypeKind::IncompleteArray
    } else if code == 118 {
        TypeKind::Auto
    } else if code == 119 {
        TypeKind::Elaborated
    } else {
        TypeKind::Other(code)
    }
}

/// A copyable, immutable value identifying a type as resolved by the
/// front-end for one parse session.
///
/// A `Type` holds, as plain values, everything this layer reads of the
/// resolved type: its kind, the qualifier flags of this exact type level
/// (not looked through aliases), the variadic and plain-old-data flags,
/// its pretty-printed spelling, its declaring node, and its identity
/// within its parse session. The unverified shell gathers these facts
/// from the front-end once, when the handle is first seen, and seals
/// them here.
///
/// `eq_class` is the identity of the resolved type within its session:
/// the shell assigns the same number exactly to handles that the
/// front-end reports as the same resolved type, so equality of `Type`
/// values is structural equality per the semantic model, not handle
/// identity, and is meaningful only within one session.
#[derive(Debug)]
pub struct Type {
    session: u64,
    eq_class: u64,
    kind: TypeKind,
    const_qual: bool,
    volatile_qual: bool,
    restrict_qual: bool,
    variadic: bool,
    pod: bool,
    deduction_failed: bool,
    spelling: String,
    decl: Cursor,
}

impl Type {
    /// Everything a well-formed `Type` guarantees by construction: the
    /// variadic flag is set only on function types, the invalid type
    /// spells as the empty string, only the auto-deduction kind can
    /// carry a failed deduction, and the declaring node belongs to the
    /// type's own parse session.
    #[verifier::type_invariant]
    spec fn wf(self) -> bool {
        &&& self.variadic ==> spec_is_function_kind(self.kind)
        &&& self.kind == TypeKind::Invalid ==> self.spelling@ == Seq::<char>::empty()
        &&& self.deduction_failed ==> self.kind == TypeKind::Auto
        &&& self.decl.spec_session() == self.session
    }

    /// The parse session this type was resolved in.
    pub closed spec fn spec_session(self) -> u64 {
        self.session
    }

    /// The identity of the resolved type within its session.
    pub closed spec fn spec_eq_class(self) -> u64 {
        self.eq_class
    }

    /// This type's classification tag.
    pub closed spec fn spec_kind(self) -> TypeKind {
        self.kind
    }

    /// Whether this exact type level carries `const`.
    pub closed spec fn spec_is_const(self) -> bool {
        self.const_qual
    }

    /// Whether this exact type level carries `volatile`.
    pub closed spec fn spec_is_volatile(self) -> bool {
        self.volatile_qual
    }

    /// Whether this exact type level carries `restrict`.
    pub closed spec fn spec_is_restrict(self) -> bool {
        self.restrict_qual
    }

    /// Whether this is a variadic function type.
    pub closed spec fn spec_is_variadic(self) -> bool {
        self.variadic
    }

    /// Whether this is a plain-old-data type.
    pub closed spec fn spec_is_pod(self) -> bool {
        self.pod
    }

    /// Whether auto-deduction failed for this type.
    pub closed spec fn spec_deduction_failed(self) -> bool {
        self.deduction_failed
    }

    /// This type's pretty-printed spelling.
    pub closed spec fn spec_spelling(self) -> Seq<char> {
        self.spelling@
    }

    /// The node that declared this type.
    pub closed spec fn spec_declaration(self) -> Cursor {
        self.decl
    }

    /// Seal the facts the front-end reports of one resolved type.
    ///
    /// `session` identifies the parse session, `eq_class` the resolved
    /// type within it (equal numbers exactly for types the front-end
    /// resolves as the same). `kind_code` is the raw kind code; the raw
    /// `variadic`, `deduction_failed`, and `spelling` reports are
    /// normalized here: the front-end defines the variadic query to hold
    /// only of function types and the deduction query only of the
    /// auto-deduction kind, and an invalid type has no spelling.
    pub fn new(
        session: u64,
        eq_class: u64,
        kind_code: u32,
        const_qual: bool,
        volatile_qual: bool,
        restrict_qual: bool,
        variadic: bool,
        pod: bool,
        deduction_failed: bool,
        spelling: String,
        decl_node: u64,
    ) -> (t: Type)
        ensures
            t.spec_session() == session,
            t.spec_eq_class() == eq_class,
            t.spec_kind() == spec_kind_of_code(kind_code),
            t.spec_is_const() == const_qual,
            t.spec_is_volatile() == volatile_qual,
            t.spec_is_restrict() == restrict_qual,
            t.spec_is_variadic() == (variadic && spec_is_function_kind(spec_kind_of_code(kind_code))),
            t.spec_is_pod() == pod,
            t.spec_deduction_failed() == (deduction_failed && spec_kind_of_code(kind_code)
                == TypeKind::Auto),
            t.spec_kind() != TypeKind::Invalid ==> t.spec_spelling() == spelling@,
            t.spec_declaration().spec_session() == session,
            t.spec_declaration().spec_node() == decl_node,
    {
        let kind = type_kind_from_code(kind_code);
        let is_function = kind == TypeKind::FunctionNoProto || kind == TypeKind::FunctionProto;
        let invalid = kind == TypeKind::Invalid;
        let is_auto = kind == TypeKind::Auto;
        Type {
            session,
            eq_class,
            kind,
            const_qual,
            volatile_qual,
            restrict_qual,
            variadic: variadic && is_function,
            pod,
            deduction_failed: deduction_failed && is_auto,
            spelling: if invalid {
                String::new()
            } else {
                spelling
            },
            decl: Cursor::new(session, decl_node),
        }
    }

    /// This type's classification tag. Never fails; an invalid handle
    /// has the defined tag `Invalid`.
    pub fn kind(&self) -> (k: TypeKind)
        ensures
            k == self.spec_kind(),
    {
        self.kind
    }

    /// The AST node that declared this type, a value bound to the same
    /// parse session as the type itself.
    pub fn declaration(&self) -> (c: Cursor)
        ensures
            c == self.spec_declaration(),
            c.spec_session() == self.spec_session(),
    {
        proof {
            use_type_invariant(self);
        }
        self.decl
    }

    /// Pretty-print this type using the rules of the language of the
    /// translation unit it came from.
    ///
    /// If the type is invalid, the empty string is returned — a defined
    /// result, not an error.
    pub fn spelling(&self) -> (s: String)
        ensures
            s@ == self.spec_spelling(),
            self.spec_kind() == TypeKind::Invalid ==> s@ == Seq::<char>::empty(),
    {
        proof {
            use_type_invariant(self);
        }
        self.spelling.clone()
    }

    /// Whether this `Type` has the `const` qualifier set, without
    /// looking through typedefs that may have added `const` at a
    /// different level.
    pub fn is_const(&self) -> (r: bool)
        ensures
            r == self.spec_is_const(),
    {
        self.const_qual
    }

    /// Whether this `Type` has the `volatile` qualifier set, without
    /// looking through typedefs that may have added `volatile` at a
    /// different level.
    pub fn is_volatile(&self) -> (r: bool)
        ensures
            r == self.spec_is_volatile(),
    {
        self.volatile_qual
    }

    /// Whether this `Type` has the `restrict` qualifier set, without
    /// looking through typedefs that may have added `restrict` at a
    /// different level.
    pub fn is_restrict(&self) -> (r: bool)
        ensures
            r == self.spec_is_restrict(),
    {
        self.restrict_qual
    }

    /// Is this type a variadic function type? True only for function
    /// types declared with a trailing ellipsis parameter.
    pub fn is_variadic(&self) -> (r: bool)
        ensures
            r == self.spec_is_variadic(),
            r ==> spec_is_function_kind(self.spec_kind()),
    {
        proof {
            use_type_invariant(self);
        }
        self.variadic
    }

    /// Is this type a plain-old-data type?
    pub fn is_pod(&self) -> (r: bool)
        ensures
            r == self.spec_is_pod(),
    {
        self.pod
    }

    /// Whether auto-deduction failed for this type. Only meaningful —
    /// and only callable — when the kind is the auto-deduction kind;
    /// asking it of any other type is a programming error.
    pub fn is_non_deductible_auto_type(&self) -> (r: bool)
        requires
            self.spec_kind() == TypeKind::Auto,
        ensures
            r == self.spec_deduction_failed(),
    {
        self.deduction_failed
    }

    /// Structural equality of resolved types, scoped to one parse
    /// session: true exactly when both types come from the same session
    /// and the front-end resolved them as the same type. Distinct
    /// handles denoting the same resolved type compare equal; handle
    /// identity plays no part.
    pub fn types_equal(&self, other: &Type) -> (r: bool)
        ensures
            r == spec_types_equal(*self, *other),
    {
        self.session == other.session && self.eq_class == other.eq_class
    }
}

/// Structural equality of resolved types: same parse session, same
/// resolved-type identity.
pub open spec fn spec_types_equal(a: Type, b: Type) -> bool {
    a.spec_session() == b.spec_session() && a.spec_eq_class() == b.spec_eq_class()
}

impl PartialEq for Type {
    fn eq(&self, other: &Self) -> (r: bool) {
        self.types_equal(other)
    }
}

impl Eq for Type {}

impl vstd::std_specs::cmp::PartialEqSpecImpl for Type {
    open spec fn obeys_eq_spec() -> bool {
        true
    }

    open spec fn eq_spec(&self, other: &Type) -> bool {
        spec_types_equal(*self, *other)
    }
}

/// Structural type equality is an equivalence relation: for all `Type`
/// values `a`, `b`, `c` it is reflexive, symmetric, and transitive.
pub proof fn lemma_types_equal_equivalence(a: Type, b: Type, c: Type)
    ensures
        spec_types_equal(a, a),
        spec_types_equal(a, b) ==> spec_types_equal(b, a),
        spec_types_equal(a, b) && spec_types_equal(b, c) ==> spec_types_equal(a, c),
{
}

} // verus!
