//! C#: method invocations and field accesses, with `this` for a receiver
//! left implicit.

use crate::lang::syntax::SyntaxTree;
use crate::lang::{owned, source_or_unknown, text_or_unknown, UNKNOWN};
use vstd::prelude::*;

verus! {

/// The query that finds classes and interfaces.
pub const CLASS_QUERY: &'static str = r#"
[
  (class_declaration 
    name: (identifier) @name)
  (interface_declaration 
    name: (identifier) @name)
] @definition.class
"#;

/// The query that finds methods and constructors.
pub const FUNCTION_DECLARATION_QUERY: &'static str = r#"
[
    (method_declaration
        name: (identifier) @name
        parameters: (_) @parameters)
    (constructor_declaration
        name: (identifier) @name
        parameters: (_) @parameters)
] @definition.function
"#;

/// The query that finds field declarations.
pub const FIELD_QUERY: &'static str = r#"
(field_declaration
    declarator: (variable_declarator
        name: (identifier) @name)) @field
"#;

pub const NAME: &'static str = "c#";
pub const SELF: &'static str = "this";
pub const BINARY: &'static str = "binary_expression";
pub const BLOCK: &'static str = "block";
pub const BREAK: &'static str = "break_statement";
pub const CATCH: &'static str = "catch_clause";
pub const CASE: &'static str = "switch_block_statement_group";
pub const LINE_COMMENT: &'static str = "line_comment";
pub const BLOCK_COMMENT: &'static str = "block_comment";
pub const CONTINUE: &'static str = "continue_statement";
pub const DO: &'static str = "do_statement";
pub const FIELD_ACCESS: &'static str = "field_access";
pub const FIELD_DECLARATION: &'static str = "field_declaration";
pub const FOR_IN: &'static str = "enhanced_for_statement";
pub const FOR: &'static str = "for_statement";
pub const METHOD_DECLARATION: &'static str = "method_declaration";
pub const METHOD_INVOCATION: &'static str = "method_invocation";
pub const IDENTIFIER: &'static str = "identifier";
pub const IF: &'static str = "if_statement";
pub const LAMBDA: &'static str = "lambda_expression";
pub const PROGRAM: &'static str = "program";
pub const RETURN: &'static str = "return_statement";
pub const STRING: &'static str = "string_literal";
pub const SWITCH: &'static str = "switch_expression";
pub const TEMPLATE_STRING: &'static str = "template_expression";
pub const TERNARY: &'static str = "ternary_expression";
pub const TRY: &'static str = "try_statement";
pub const TRY_WITH_RESOURCES: &'static str = "try_with_resources_statement";
pub const WHILE: &'static str = "while_statement";
pub const AND: &'static str = "&&";
pub const OR: &'static str = "||";

/// The C# language: the sources of its queries.
#[derive(Debug)]
pub struct CSharp {
    pub class_query: String,
    pub function_declaration_query: String,
    pub field_query: String,
}

/// The member that node `n` accesses: its `name`, else its `field`.
pub open spec fn member_of(t: SyntaxTree, n: int) -> Option<int> {
    match t.field_of(n, "name"@) {
        Some(x) => Some(x),
        None => t.field_of(n, "field"@),
    }
}

/// The receiver and member of the access `n`: the inner field for a nested
/// access, `this` when the object is left implicit.
pub open spec fn field_identifiers_of(t: SyntaxTree, n: int) -> (Seq<char>, Seq<char>) {
    match (t.field_of(n, "object"@), member_of(t, n)) {
        (Some(obj), Some(prop)) => if t.kind_of(obj) == FIELD_ACCESS@ {
            (text_or_unknown(t, t.field_of(obj, "field"@)), t.text_of(prop))
        } else {
            (t.text_of(obj), t.text_of(prop))
        },
        (None, Some(prop)) => (SELF@, t.text_of(prop)),
        _ => (UNKNOWN@, UNKNOWN@),
    }
}

/// The receiver and name of the method invocation `n`.
pub open spec fn call_identifiers_of(t: SyntaxTree, n: int) -> (Option<Seq<char>>, Seq<char>) {
    if t.kind_of(n) == METHOD_INVOCATION@ {
        (Some(field_identifiers_of(t, n).0), field_identifiers_of(t, n).1)
    } else {
        (Some(UNKNOWN@), UNKNOWN@)
    }
}

impl CSharp {
    /// The language's name.
    pub fn name(&self) -> (r: &'static str)
        ensures
            r == NAME,
    {
        NAME
    }

    /// Whether node `n` is the label of a jump.
    pub fn is_jump_label(&self, t: &SyntaxTree, n: usize) -> (r: bool)
        requires
            t.has(n as int),
        ensures
            r == (t.kind_of(n as int) == IDENTIFIER@),
    {
        t.is_kind(n, IDENTIFIER)
    }

    /// The receiver and name of the call `n`.
    pub fn call_identifiers(&self, t: &SyntaxTree, n: usize) -> (r: (Option<String>, String))
        requires
            t.wf(),
            t.has(n as int),
        ensures
            r.0 matches Some(s) && s@ == call_identifiers_of(*t, n as int).0->0,
            r.1@ == call_identifiers_of(*t, n as int).1,
    {
        if t.is_kind(n, METHOD_INVOCATION) {
            let (receiver, object) = self.field_identifiers(t, n);
            (Some(receiver), object)
        } else {
            (Some(owned(UNKNOWN)), owned(UNKNOWN))
        }
    }

    /// The receiver and member of the access `n`.
    pub fn field_identifiers(&self, t: &SyntaxTree, n: usize) -> (r: (String, String))
        requires
            t.wf(),
            t.has(n as int),
        ensures
            r.0@ == field_identifiers_of(*t, n as int).0,
            r.1@ == field_identifiers_of(*t, n as int).1,
    {
        let object = t.child_by_field_name(n, "object");
        let property = match t.child_by_field_name(n, "name") {
            Some(x) => Some(x),
            None => t.child_by_field_name(n, "field"),
        };
        match (object, property) {
            (Some(obj), Some(prop)) => {
                if t.is_kind(obj, FIELD_ACCESS) {
                    (source_or_unknown(t, t.child_by_field_name(obj, "field")), owned(t.text(prop)))
                } else {
                    (owned(t.text(obj)), owned(t.text(prop)))
                }
            },
            (None, Some(prop)) => (owned(SELF), owned(t.text(prop))),
            _ => (owned(UNKNOWN), owned(UNKNOWN)),
        }
    }
}

impl Default for CSharp {
    fn default() -> (r: Self)
        ensures
            r.class_query@ == CLASS_QUERY@,
            r.function_declaration_query@ == FUNCTION_DECLARATION_QUERY@,
            r.field_query@ == FIELD_QUERY@,
    {
        CSharp {
            class_query: owned(CLASS_QUERY),
            function_declaration_query: owned(FUNCTION_DECLARATION_QUERY),
            field_query: owned(FIELD_QUERY),
        }
    }
}

} // verus!
