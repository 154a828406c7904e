//! C++: calls through objects, field accesses and the names that function
//! declarators bury.

use crate::lang::c::{innermost, innermost_declarator};
use crate::lang::syntax::SyntaxTree;
use crate::lang::{owned, UNKNOWN};
use vstd::prelude::*;

verus! {

/// The query that finds classes and structs with a body.
pub const CLASS_QUERY: &'static str = r#"
[
    (class_specifier
        name: (type_identifier) @name
        body: (_))
    (struct_specifier
        name: (type_identifier) @name
        body: (_))
] @definition.class
"#;

/// The query that finds function definitions, through pointer and
/// reference declarators.
pub const FUNCTION_DECLARATION_QUERY: &'static str = r#"
[
    (function_definition
        declarator: (function_declarator
            declarator: (_) @name
            parameters: (_) @parameters))
    (function_definition
        declarator: (pointer_declarator
            declarator: (function_declarator
                declarator: (_) @name
                parameters: (_) @parameters)))
    (function_definition
        declarator: (reference_declarator
            (function_declarator
                declarator: (_) @name
                parameters: (_) @parameters)))
] @definition.function
"#;

/// The query that finds field declarations.
pub const FIELD_QUERY: &'static str = r#"
(field_declaration
    declarator: (_) @name) @field
"#;

pub const NAME: &'static str = "cpp";
pub const SELF: &'static str = "this";

pub const IF: &'static str = "if_statement";
pub const FOR: &'static str = "for_statement";
pub const FOR_RANGE_LOOP: &'static str = "for_range_loop";
pub const WHILE: &'static str = "while_statement";
pub const DO: &'static str = "do_statement";
pub const SWITCH: &'static str = "switch_statement";
pub const CASE: &'static str = "case_statement";
pub const BREAK: &'static str = "break_statement";
pub const CONTINUE: &'static str = "continue_statement";
pub const RETURN: &'static str = "return_statement";
pub const GOTO: &'static str = "goto_statement";
pub const BINARY: &'static str = "binary_expression";
pub const CONDITIONAL: &'static str = "conditional_expression";
pub const CALL: &'static str = "call_expression";
pub const FUNCTION_DEFINITION: &'static str = "function_definition";
pub const FIELD_DECLARATION: &'static str = "field_declaration";
pub const COMPOUND_STATEMENT: &'static str = "compound_statement";
pub const TRANSLATION_UNIT: &'static str = "translation_unit";
pub const STRING_LITERAL: &'static str = "string_literal";
pub const RAW_STRING: &'static str = "raw_string_literal";
pub const COMMENT: &'static str = "comment";
pub const AND: &'static str = "&&";
pub const OR: &'static str = "||";
pub const FIELD_EXPRESSION: &'static str = "field_expression";
pub const LAMBDA: &'static str = "lambda_expression";
pub const TRY: &'static str = "try_statement";
pub const CATCH: &'static str = "catch_clause";
pub const ELSE_CLAUSE: &'static str = "else_clause";

/// The C++ language: the sources of its queries.
#[derive(Debug)]
pub struct Cpp {
    pub class_query: String,
    pub function_declaration_query: String,
    pub field_query: String,
}

/// Whether node `n`, when it is a field access, has both its object and
/// its field.
pub open spec fn complete_field_access(t: SyntaxTree, n: int) -> bool {
    t.kind_of(n) == FIELD_EXPRESSION@ ==> (t.field_of(n, "argument"@) is Some && t.field_of(n, "field"@)
        is Some)
}

/// Whether node `n`, when it is a call, has a function, and a complete one
/// when that is a field access.
pub open spec fn complete_call(t: SyntaxTree, n: int) -> bool {
    t.kind_of(n) == CALL@ ==> (t.field_of(n, "function"@) matches Some(f) && complete_field_access(t, f))
}

/// The receiver and field of the field access `n`.
pub open spec fn field_identifiers_of(t: SyntaxTree, n: int) -> (Seq<char>, Seq<char>) {
    if t.kind_of(n) == FIELD_EXPRESSION@ {
        (t.text_of(t.field_of(n, "argument"@)->0), t.text_of(t.field_of(n, "field"@)->0))
    } else {
        (UNKNOWN@, UNKNOWN@)
    }
}

/// The receiver and name of the call `n`: `this` for a plain function.
pub open spec fn call_identifiers_of(t: SyntaxTree, n: int) -> (Option<Seq<char>>, Seq<char>) {
    if t.kind_of(n) == CALL@ {
        let f = t.field_of(n, "function"@)->0;
        if t.kind_of(f) == FIELD_EXPRESSION@ {
            (Some(t.text_of(t.field_of(f, "argument"@)->0)), t.text_of(t.field_of(f, "field"@)->0))
        } else {
            (Some(SELF@), t.text_of(f))
        }
    } else {
        (Some(UNKNOWN@), UNKNOWN@)
    }
}

impl Cpp {
    /// The language's name.
    pub fn name(&self) -> (r: &'static str)
        ensures
            r == NAME,
    {
        NAME
    }

    /// The node that names the function defined by `n`: the innermost of
    /// its declarators.
    pub fn function_name_node(&self, t: &SyntaxTree, n: usize) -> (r: usize)
        requires
            t.wf(),
            t.has(n as int),
            t.field_of(n as int, "declarator"@) is Some,
        ensures
            r as int == innermost_declarator(*t, t.field_of(n as int, "declarator"@)->0),
            t.has(r as int),
    {
        match t.child_by_field_name(n, "declarator") {
            Some(d) => innermost(t, d),
            None => n,
        }
    }

    /// The receiver and name of the call `n`.
    pub fn call_identifiers(&self, t: &SyntaxTree, n: usize) -> (r: (Option<String>, String))
        requires
            t.wf(),
            t.has(n as int),
            complete_call(*t, n as int),
        ensures
            ({
                let (receiver, name) = call_identifiers_of(*t, n as int);
                &&& r.1@ == name
                &&& match receiver {
                    Some(x) => r.0 matches Some(s) && s@ == x,
                    None => r.0 is None,
                }
            }),
    {
        if t.is_kind(n, CALL) {
            let f = match t.child_by_field_name(n, "function") {
                Some(f) => f,
                None => n,
            };
            if t.is_kind(f, FIELD_EXPRESSION) {
                let (object, method) = self.field_identifiers(t, f);
                (Some(object), method)
            } else {
                (Some(owned(SELF)), owned(t.text(f)))
            }
        } else {
            (Some(owned(UNKNOWN)), owned(UNKNOWN))
        }
    }

    /// The receiver and field of the field access `n`.
    pub fn field_identifiers(&self, t: &SyntaxTree, n: usize) -> (r: (String, String))
        requires
            t.wf(),
            t.has(n as int),
            complete_field_access(*t, n as int),
        ensures
            r.0@ == field_identifiers_of(*t, n as int).0,
            r.1@ == field_identifiers_of(*t, n as int).1,
    {
        if t.is_kind(n, FIELD_EXPRESSION) {
            match (t.child_by_field_name(n, "argument"), t.child_by_field_name(n, "field")) {
                (Some(object), Some(field)) => (owned(t.text(object)), owned(t.text(field))),
                _ => (owned(UNKNOWN), owned(UNKNOWN)),
            }
        } else {
            (owned(UNKNOWN), owned(UNKNOWN))
        }
    }
}

impl Default for Cpp {
    fn default() -> (r: Self)
        ensures
            r.class_query@ == CLASS_QUERY@,
            r.function_declaration_query@ == FUNCTION_DECLARATION_QUERY@,
            r.field_query@ == FIELD_QUERY@,
    {
        Cpp {
            class_query: owned(CLASS_QUERY),
            function_declaration_query: owned(FUNCTION_DECLARATION_QUERY),
            field_query: owned(FIELD_QUERY),
        }
    }
}

} // verus!
