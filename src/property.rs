//! Property kinds: the built-in primitive kinds plus one kind that carries a
//! lazily evaluated value of the host's self type.
use vstd::prelude::*;

verus! {

/// The built-in primitive property algebra, as this kernel consumes it:
/// each value names its type and may be viewed as one of the base types.
pub trait CoreTemplatePropertyVar: Sized {
    /// Lazy boolean property.
    type Boolean;
    /// Lazy integer property.
    type Integer;
    /// Lazy plain-text property.
    type PlainText;
    /// Renderable template.
    type Template;
    /// Lazy ordering property.
    type Ordering;

    fn type_label(&self) -> &'static str;

    fn try_into_boolean(self) -> Option<Self::Boolean>;

    fn try_into_integer(self) -> Option<Self::Integer>;

    fn try_into_plain_text(self) -> Option<Self::PlainText>;

    fn try_into_template(self) -> Option<Self::Template>;

    fn try_into_eq(self, other: Self) -> Option<Self::Boolean>;

    fn try_into_cmp(self, other: Self) -> Option<Self::Ordering>;
}

/// A property of the generic language: either a built-in primitive property
/// (`Core`) or a lazy producer of the self value (`Self_`).
pub enum GenericTemplatePropertyKind<P, L> {
    Core(P),
    Self_(L),
}

/// Name under which the self type is known to diagnostics and to keyword
/// lookup.
pub open spec fn self_type_label() -> Seq<char> {
    seq!['S', 'e', 'l', 'f']
}

impl<P: CoreTemplatePropertyVar, L> GenericTemplatePropertyKind<P, L> {
    /// Wraps a built-in property.
    pub fn wrap_core(property: P) -> (r: Self)
        ensures
            r == GenericTemplatePropertyKind::<P, L>::Core(property),
    {
        GenericTemplatePropertyKind::Core(property)
    }

    /// Wraps a lazy producer of the self value.
    pub fn wrap_self(property: L) -> (r: Self)
        ensures
            r == GenericTemplatePropertyKind::<P, L>::Self_(property),
    {
        GenericTemplatePropertyKind::Self_(property)
    }

    pub fn type_label(&self) -> (r: &'static str)
        ensures
            match self {
                GenericTemplatePropertyKind::Core(p) => call_ensures(P::type_label, (p,), r),
                GenericTemplatePropertyKind::Self_(_) => r@ == self_type_label(),
            },
    {
        match self {
            GenericTemplatePropertyKind::Core(property) => property.type_label(),
            GenericTemplatePropertyKind::Self_(_) => {
                proof {
                    reveal_strlit("Self");
                }
                "Self"
            },
        }
    }

    pub fn try_into_boolean(self) -> (r: Option<P::Boolean>)
        ensures
            match self {
                GenericTemplatePropertyKind::Core(p) => call_ensures(P::try_into_boolean, (p,), r),
                GenericTemplatePropertyKind::Self_(_) => r is None,
            },
    {
        match self {
            GenericTemplatePropertyKind::Core(property) => property.try_into_boolean(),
            GenericTemplatePropertyKind::Self_(_) => None,
        }
    }

    pub fn try_into_integer(self) -> (r: Option<P::Integer>)
        ensures
            match self {
                GenericTemplatePropertyKind::Core(p) => call_ensures(P::try_into_integer, (p,), r),
                GenericTemplatePropertyKind::Self_(_) => r is None,
            },
    {
        match self {
            GenericTemplatePropertyKind::Core(property) => property.try_into_integer(),
            GenericTemplatePropertyKind::Self_(_) => None,
        }
    }

    pub fn try_into_plain_text(self) -> (r: Option<P::PlainText>)
        ensures
            match self {
                GenericTemplatePropertyKind::Core(p) => call_ensures(
                    P::try_into_plain_text,
                    (p,),
                    r,
                ),
                GenericTemplatePropertyKind::Self_(_) => r is None,
            },
    {
        match self {
            GenericTemplatePropertyKind::Core(property) => property.try_into_plain_text(),
            GenericTemplatePropertyKind::Self_(_) => None,
        }
    }

    pub fn try_into_template(self) -> (r: Option<P::Template>)
        ensures
            match self {
                GenericTemplatePropertyKind::Core(p) => call_ensures(
                    P::try_into_template,
                    (p,),
                    r,
                ),
                GenericTemplatePropertyKind::Self_(_) => r is None,
            },
    {
        match self {
            GenericTemplatePropertyKind::Core(property) => property.try_into_template(),
            GenericTemplatePropertyKind::Self_(_) => None,
        }
    }

    /// Equality operand: defined by the built-in algebra on two built-in
    /// properties, unsupported whenever a self value takes part.
    pub fn try_into_eq(self, other: Self) -> (r: Option<P::Boolean>)
        ensures
            match (self, other) {
                (
                    GenericTemplatePropertyKind::Core(lhs),
                    GenericTemplatePropertyKind::Core(rhs),
                ) => call_ensures(P::try_into_eq, (lhs, rhs), r),
                (GenericTemplatePropertyKind::Core(_), GenericTemplatePropertyKind::Self_(_)) => r is None,
                (GenericTemplatePropertyKind::Self_(_), GenericTemplatePropertyKind::Core(_)) => r is None,
                (GenericTemplatePropertyKind::Self_(_), GenericTemplatePropertyKind::Self_(_)) => r is None,
            },
    {
        match (self, other) {
            (GenericTemplatePropertyKind::Core(lhs), GenericTemplatePropertyKind::Core(rhs)) => {
                lhs.try_into_eq(rhs)
            },
            (GenericTemplatePropertyKind::Core(_), GenericTemplatePropertyKind::Self_(_)) => None,
            (GenericTemplatePropertyKind::Self_(_), GenericTemplatePropertyKind::Core(_)) => None,
            (GenericTemplatePropertyKind::Self_(_), GenericTemplatePropertyKind::Self_(_)) => None,
        }
    }

    /// Ordering operand: defined by the built-in algebra on two built-in
    /// properties, unsupported whenever a self value takes part.
    pub fn try_into_cmp(self, other: Self) -> (r: Option<P::Ordering>)
        ensures
            match (self, other) {
                (
                    GenericTemplatePropertyKind::Core(lhs),
                    GenericTemplatePropertyKind::Core(rhs),
                ) => call_ensures(P::try_into_cmp, (lhs, rhs), r),
                (GenericTemplatePropertyKind::Core(_), GenericTemplatePropertyKind::Self_(_)) => r is None,
                (GenericTemplatePropertyKind::Self_(_), GenericTemplatePropertyKind::Core(_)) => r is None,
                (GenericTemplatePropertyKind::Self_(_), GenericTemplatePropertyKind::Self_(_)) => r is None,
            },
    {
        match (self, other) {
            (GenericTemplatePropertyKind::Core(lhs), GenericTemplatePropertyKind::Core(rhs)) => {
                lhs.try_into_cmp(rhs)
            },
            (GenericTemplatePropertyKind::Core(_), GenericTemplatePropertyKind::Self_(_)) => None,
            (GenericTemplatePropertyKind::Self_(_), GenericTemplatePropertyKind::Core(_)) => None,
            (GenericTemplatePropertyKind::Self_(_), GenericTemplatePropertyKind::Self_(_)) => None,
        }
    }
}

} // verus!
