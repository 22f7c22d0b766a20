//! Call nodes handed over by the expression parser, and parse errors.
use vstd::prelude::*;

verus! {

/// A function or method call in the expression tree: the callee's name and
/// its argument nodes.
pub struct FunctionCallNode<A> {
    pub name: String,
    pub args: Vec<A>,
}

/// An error found while building the expression graph.
#[derive(Debug, PartialEq, Eq)]
pub enum TemplateParseError {
    /// No free function of this name exists.
    NoSuchFunction { name: String },
    /// The receiver's type has no method (keyword) of this name.
    NoSuchMethod { type_label: String, name: String },
    /// The call carries arguments where none are accepted.
    UnexpectedArguments { name: String, count: usize },
}

impl TemplateParseError {
    pub open spec fn is_no_such_function(&self, name: Seq<char>) -> bool {
        match self {
            TemplateParseError::NoSuchFunction { name: n } => n@ == name,
            _ => false,
        }
    }

    pub open spec fn is_no_such_method(&self, type_label: Seq<char>, name: Seq<char>) -> bool {
        match self {
            TemplateParseError::NoSuchMethod { type_label: t, name: n } => t@ == type_label && n@
                == name,
            _ => false,
        }
    }

    pub open spec fn is_unexpected_arguments(&self, name: Seq<char>, count: nat) -> bool {
        match self {
            TemplateParseError::UnexpectedArguments { name: n, count: c } => n@ == name && c
                == count,
            _ => false,
        }
    }
}

impl<A> FunctionCallNode<A> {
    pub fn new(name: String, args: Vec<A>) -> (r: Self)
        ensures
            r.name@ == name@,
            r.args@ == args@,
    {
        FunctionCallNode { name, args }
    }

    /// Succeeds on a call without arguments; otherwise names the call and
    /// the number of arguments it carries.
    pub fn expect_no_arguments(&self) -> (r: Result<(), TemplateParseError>)
        ensures
            r is Ok <==> self.args@.len() == 0,
            r is Err ==> r->Err_0.is_unexpected_arguments(self.name@, self.args@.len()),
    {
        let count = self.args.len();
        if count == 0 {
            Ok(())
        } else {
            Err(TemplateParseError::UnexpectedArguments { name: self.name.clone(), count })
        }
    }
}

} // verus!
