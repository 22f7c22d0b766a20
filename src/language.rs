//! The language environment: owns the settings, the built-in function table
//! and the keyword registry, and resolves function and method calls.
use vstd::prelude::*;

use crate::keywords::GenericTemplateBuildKeywordFnMap;
use crate::parser::FunctionCallNode;
use crate::parser::TemplateParseError;
use crate::property::self_type_label;
use crate::property::CoreTemplatePropertyVar;
use crate::property::GenericTemplatePropertyKind;

verus! {

/// The built-in function and method tables of the primitive algebra, as
/// this kernel consumes them.
pub trait CoreTemplateBuildFnTable: Sized {
    /// The built-in property kind.
    type Property: CoreTemplatePropertyVar;
    /// The lazy producer of the self value.
    type SelfProperty;
    /// Context threaded through the build, never examined here.
    type BuildContext;
    /// Argument node of a call.
    type Arg;

    /// The table of built-in functions and methods.
    fn builtin() -> Self;

    fn build_function(
        &self,
        build_ctx: &Self::BuildContext,
        function: &FunctionCallNode<Self::Arg>,
    ) -> Result<GenericTemplatePropertyKind<Self::Property, Self::SelfProperty>, TemplateParseError>;

    fn build_method(
        &self,
        build_ctx: &Self::BuildContext,
        property: Self::Property,
        function: &FunctionCallNode<Self::Arg>,
    ) -> Result<GenericTemplatePropertyKind<Self::Property, Self::SelfProperty>, TemplateParseError>;
}

/// Symbol table of the functions and methods of the language.
struct GenericTemplateBuildFnTable<T, K> {
    core: T,
    keywords: GenericTemplateBuildKeywordFnMap<K>,
}

/// General-purpose template language over the built-in property kinds plus
/// the self type. Keywords, registered by name, extract properties from the
/// self value; they are reached as methods without arguments on it.
pub struct GenericTemplateLanguage<St, T, K> {
    settings: St,
    build_fn_table: GenericTemplateBuildFnTable<T, K>,
}

impl<St: Clone, T: CoreTemplateBuildFnTable, K> GenericTemplateLanguage<St, T, K> where
    K: Fn(T::SelfProperty) -> Result<
        GenericTemplatePropertyKind<T::Property, T::SelfProperty>,
        TemplateParseError,
    >,
 {
    pub closed spec fn wf(&self) -> bool {
        self.build_fn_table.keywords.wf()
    }

    pub closed spec fn settings_value(&self) -> St {
        self.settings
    }

    pub closed spec fn core_table(&self) -> T {
        self.build_fn_table.core
    }

    pub closed spec fn keyword_map(&self) -> Map<Seq<char>, K> {
        self.build_fn_table.keywords@
    }

    /// Every registered build function accepts every lazy self value.
    pub open spec fn keywords_total(&self) -> bool {
        forall|n: Seq<char>, l: T::SelfProperty|
            self.keyword_map().contains_key(n) ==> #[trigger] self.keyword_map()[n].requires((l,))
    }

    /// `r` is a possible result of resolving the free function call
    /// `function`.
    pub open spec fn builds_function(
        &self,
        build_ctx: &T::BuildContext,
        function: &FunctionCallNode<T::Arg>,
        r: Result<GenericTemplatePropertyKind<T::Property, T::SelfProperty>, TemplateParseError>,
    ) -> bool {
        call_ensures(T::build_function, (&self.core_table(), build_ctx, function), r)
    }

    /// `r` is a possible result of resolving the method call `function` on
    /// `property`.
    pub open spec fn builds_method(
        &self,
        build_ctx: &T::BuildContext,
        property: GenericTemplatePropertyKind<T::Property, T::SelfProperty>,
        function: &FunctionCallNode<T::Arg>,
        r: Result<GenericTemplatePropertyKind<T::Property, T::SelfProperty>, TemplateParseError>,
    ) -> bool {
        match property {
            GenericTemplatePropertyKind::Core(p) => call_ensures(
                T::build_method,
                (&self.core_table(), build_ctx, p, function),
                r,
            ),
            GenericTemplatePropertyKind::Self_(l) => {
                if function.args@.len() != 0 {
                    r is Err && r->Err_0.is_unexpected_arguments(
                        function.name@,
                        function.args@.len(),
                    )
                } else if !self.keyword_map().contains_key(function.name@) {
                    r is Err && r->Err_0.is_no_such_method(self_type_label(), function.name@)
                } else {
                    self.keyword_map()[function.name@].ensures((l,), r)
                }
            },
        }
    }

    /// Sets up the environment with no keywords; `add_keyword` registers
    /// them.
    pub fn new(settings: &St) -> (r: Self)
        ensures
            r.wf(),
            r.keyword_map() == Map::<Seq<char>, K>::empty(),
            call_ensures(T::builtin, (), r.core_table()),
            cloned(*settings, r.settings_value()),
    {
        Self::with_keywords(GenericTemplateBuildKeywordFnMap::new(), settings)
    }

    /// Sets up the environment with the given keyword table.
    pub fn with_keywords(keywords: GenericTemplateBuildKeywordFnMap<K>, settings: &St) -> (r: Self)
        requires
            keywords.wf(),
        ensures
            r.wf(),
            r.keyword_map() == keywords@,
            call_ensures(T::builtin, (), r.core_table()),
            cloned(*settings, r.settings_value()),
    {
        GenericTemplateLanguage {
            settings: settings.clone(),
            build_fn_table: GenericTemplateBuildFnTable { core: T::builtin(), keywords },
        }
    }

    /// Registers a build function from the self value to a property under
    /// `name`, replacing any earlier one of that name.
    pub fn add_keyword(&mut self, name: &str, build: K)
        requires
            old(self).wf(),
        ensures
            final(self).wf(),
            final(self).keyword_map() == old(self).keyword_map().insert(name@, build),
            final(self).core_table() == old(self).core_table(),
            final(self).settings_value() == old(self).settings_value(),
    {
        self.build_fn_table.keywords.insert(name.to_owned(), build);
    }

    pub fn settings(&self) -> (r: &St)
        ensures
            *r == self.settings_value(),
    {
        &self.settings
    }

    /// Resolves a free function call. Only the built-in table is consulted:
    /// keywords are methods of the self value, never free functions.
    pub fn build_function(
        &self,
        build_ctx: &T::BuildContext,
        function: &FunctionCallNode<T::Arg>,
    ) -> (r: Result<GenericTemplatePropertyKind<T::Property, T::SelfProperty>, TemplateParseError>)
        ensures
            self.builds_function(build_ctx, function, r),
    {
        self.build_fn_table.core.build_function(build_ctx, function)
    }

    /// Resolves a method call. On a built-in property the built-in table
    /// decides. On the self value the call must carry no arguments and name a
    /// registered keyword, whose build function then gives the result.
    pub fn build_method(
        &self,
        build_ctx: &T::BuildContext,
        property: GenericTemplatePropertyKind<T::Property, T::SelfProperty>,
        function: &FunctionCallNode<T::Arg>,
    ) -> (r: Result<GenericTemplatePropertyKind<T::Property, T::SelfProperty>, TemplateParseError>)
        requires
            self.wf(),
            self.keywords_total(),
        ensures
            self.builds_method(build_ctx, property, function, r),
    {
        let type_label = property.type_label();
        match property {
            GenericTemplatePropertyKind::Core(property) => {
                self.build_fn_table.core.build_method(build_ctx, property, function)
            },
            GenericTemplatePropertyKind::Self_(property) => {
                match function.expect_no_arguments() {
                    Ok(()) => {},
                    Err(e) => {
                        return Err(e);
                    },
                }
                match self.build_fn_table.keywords.get(&function.name) {
                    Some(build) => {
                        assert(self.keyword_map()[function.name@].requires((property,)));
                        build(property)
                    },
                    None => Err(
                        TemplateParseError::NoSuchMethod {
                            type_label: type_label.to_owned(),
                            name: function.name.clone(),
                        },
                    ),
                }
            },
        }
    }

    /// A free function call resolves the same way whatever keywords are
    /// registered, even one named like the function: only the built-in table
    /// decides it.
    pub proof fn lemma_keyword_isolation(
        a: &Self,
        b: &Self,
        build_ctx: &T::BuildContext,
        function: &FunctionCallNode<T::Arg>,
        r: Result<GenericTemplatePropertyKind<T::Property, T::SelfProperty>, TemplateParseError>,
    )
        requires
            a.core_table() == b.core_table(),
        ensures
            a.builds_function(build_ctx, function, r) <==> b.builds_function(
                build_ctx,
                function,
                r,
            ),
    {
    }

    /// A registered keyword called with arguments on the self value fails
    /// with the unexpected-arguments error; called without, it gives exactly
    /// what its build function gives.
    pub proof fn lemma_keyword_arity(
        lang: &Self,
        build_ctx: &T::BuildContext,
        l: T::SelfProperty,
        function: &FunctionCallNode<T::Arg>,
        r: Result<GenericTemplatePropertyKind<T::Property, T::SelfProperty>, TemplateParseError>,
    )
        requires
            lang.keyword_map().contains_key(function.name@),
        ensures
            function.args@.len() > 0 ==> (lang.builds_method(
                build_ctx,
                GenericTemplatePropertyKind::Self_(l),
                function,
                r,
            ) <==> (r is Err && r->Err_0.is_unexpected_arguments(
                function.name@,
                function.args@.len(),
            ))),
            function.args@.len() == 0 ==> (lang.builds_method(
                build_ctx,
                GenericTemplatePropertyKind::Self_(l),
                function,
                r,
            ) <==> lang.keyword_map()[function.name@].ensures((l,), r)),
    {
    }

    /// Registering a name twice leaves one build function for it, the later:
    /// a call of that keyword gives exactly what the later build function gives.
    pub proof fn lemma_keyword_override(
        lang: &Self,
        earlier: Map<Seq<char>, K>,
        first: K,
        second: K,
        build_ctx: &T::BuildContext,
        l: T::SelfProperty,
        function: &FunctionCallNode<T::Arg>,
        r: Result<GenericTemplatePropertyKind<T::Property, T::SelfProperty>, TemplateParseError>,
    )
        requires
            lang.keyword_map() == earlier.insert(function.name@, first).insert(
                function.name@,
                second,
            ),
            function.args@.len() == 0,
        ensures
            lang.keyword_map() == earlier.insert(function.name@, second),
            lang.builds_method(build_ctx, GenericTemplatePropertyKind::Self_(l), function, r)
                <==> second.ensures((l,), r),
    {
        assert(lang.keyword_map() =~= earlier.insert(function.name@, second));
    }

    /// A method call on the self value that names no registered keyword
    /// fails with the no-such-method error for the self type and that name.
    pub proof fn lemma_unknown_keyword(
        lang: &Self,
        build_ctx: &T::BuildContext,
        l: T::SelfProperty,
        function: &FunctionCallNode<T::Arg>,
        r: Result<GenericTemplatePropertyKind<T::Property, T::SelfProperty>, TemplateParseError>,
    )
        requires
            !lang.keyword_map().contains_key(function.name@),
            function.args@.len() == 0,
        ensures
            lang.builds_method(build_ctx, GenericTemplatePropertyKind::Self_(l), function, r)
                <==> (r is Err && r->Err_0.is_no_such_method(self_type_label(), function.name@)),
    {
    }

    /// A method call on a wrapped built-in property resolves exactly as the
    /// built-in table resolves it on the unwrapped property.
    pub proof fn lemma_core_delegation(
        lang: &Self,
        build_ctx: &T::BuildContext,
        p: T::Property,
        function: &FunctionCallNode<T::Arg>,
        r: Result<GenericTemplatePropertyKind<T::Property, T::SelfProperty>, TemplateParseError>,
    )
        ensures
            lang.builds_method(build_ctx, GenericTemplatePropertyKind::Core(p), function, r)
                <==> call_ensures(T::build_method, (&lang.core_table(), build_ctx, p, function), r),
    {
    }
}

} // verus!
