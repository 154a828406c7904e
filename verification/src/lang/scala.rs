//! Scala: calls, field accesses and the names of definitions.

use crate::lang::syntax::SyntaxTree;
use crate::lang::{owned, source_or_unknown, text_or_unknown, UNKNOWN};
use vstd::prelude::*;

verus! {

/// The query that finds classes, objects, traits and enums.
pub const CLASS_QUERY: &'static str = r#"
[
    (class_definition
        name: (identifier) @name)
    (object_definition
        name: (identifier) @name)
    (trait_definition
        name: (identifier) @name)
    (enum_definition
        name: (identifier) @name)
] @definition.class
"#;

/// The query that finds function definitions and declarations.
pub const FUNCTION_DECLARATION_QUERY: &'static str = r#"
[
    (function_definition
        name: (identifier) @name
        parameters: (parameters) @parameters)
    (function_definition
        name: (identifier) @name)
    (function_declaration
        name: (identifier) @name
        parameters: (parameters) @parameters)
    (function_declaration
        name: (identifier) @name)
] @definition.function
"#;

/// The query that finds class parameters and values.
pub const FIELD_QUERY: &'static str = r#"
[
    (class_parameter
        name: (identifier) @name) @field
    (val_definition
        pattern: (identifier) @name) @field
    (var_definition
        pattern: (identifier) @name) @field
    (val_declaration
        name: (identifier) @name) @field
    (var_declaration
        name: (identifier) @name) @field
]
"#;

pub const NAME: &'static str = "scala";
pub const THIS: &'static str = "this";

pub const COMPILATION_UNIT: &'static str = "compilation_unit";

pub const IF: &'static str = "if_expression";
pub const MATCH: &'static str = "match_expression";
pub const CASE_CLAUSE: &'static str = "case_clause";
pub const FOR: &'static str = "for_expression";
pub const WHILE: &'static str = "while_expression";
pub const DO_WHILE: &'static str = "do_while_expression";
pub const TRY: &'static str = "try_expression";
pub const CATCH: &'static str = "catch_clause";
pub const RETURN: &'static str = "return_expression";
pub const THROW: &'static str = "throw_expression";

pub const INFIX: &'static str = "infix_expression";
pub const FIELD_EXPRESSION: &'static str = "field_expression";
pub const CALL: &'static str = "call_expression";
pub const FUNCTION_DEFINITION: &'static str = "function_definition";
pub const LAMBDA: &'static str = "lambda_expression";

pub const COMMENT: &'static str = "comment";
pub const BLOCK_COMMENT: &'static str = "block_comment";
pub const STRING: &'static str = "string";
pub const INTERPOLATED_STRING: &'static str = "interpolated_string_expression";
pub const BLOCK: &'static str = "block";

pub const IDENTIFIER: &'static str = "identifier";

pub const AND: &'static str = "&&";
pub const OR: &'static str = "||";

/// The Scala language: the sources of its queries.
#[derive(Debug)]
pub struct Scala {
    pub class_query: String,
    pub function_declaration_query: String,
    pub field_query: String,
}

/// The receiver and field of the field access `n`.
pub open spec fn field_identifiers_of(t: SyntaxTree, n: int) -> (Seq<char>, Seq<char>) {
    if t.kind_of(n) == FIELD_EXPRESSION@ {
        (text_or_unknown(t, t.field_of(n, "value"@)), text_or_unknown(t, t.field_of(n, "field"@)))
    } else {
        (UNKNOWN@, UNKNOWN@)
    }
}

/// The receiver and name of the call `n`: empty for a plain function.
pub open spec fn call_identifiers_of(t: SyntaxTree, n: int) -> (Seq<char>, Seq<char>) {
    match t.field_of(n, "function"@) {
        Some(f) => if t.kind_of(f) == FIELD_EXPRESSION@ {
            field_identifiers_of(t, f)
        } else if t.kind_of(f) == IDENTIFIER@ {
            (seq![], t.text_of(f))
        } else {
            (UNKNOWN@, t.text_of(f))
        },
        None => (UNKNOWN@, UNKNOWN@),
    }
}

/// The node that names the definition `n`: its `name`, else its first
/// child.
pub open spec fn function_name_node_of(t: SyntaxTree, n: int) -> int {
    match t.field_of(n, "name"@) {
        Some(x) => x,
        None => t.nodes@[n].children@[0] as int,
    }
}

impl Scala {
    /// The language's name.
    pub fn name(&self) -> (r: &'static str)
        ensures
            r == NAME,
    {
        NAME
    }

    /// The receiver and name of the call `n`.
    pub fn call_identifiers(&self, t: &SyntaxTree, n: usize) -> (r: (Option<String>, String))
        requires
            t.wf(),
            t.has(n as int),
        ensures
            r.0 matches Some(s) && s@ == call_identifiers_of(*t, n as int).0,
            r.1@ == call_identifiers_of(*t, n as int).1,
    {
        match t.child_by_field_name(n, "function") {
            Some(f) => {
                if t.is_kind(f, FIELD_EXPRESSION) {
                    let (receiver, object) = self.field_identifiers(t, f);
                    (Some(receiver), object)
                } else if t.is_kind(f, IDENTIFIER) {
                    (Some(String::new()), owned(t.text(f)))
                } else {
                    (Some(owned(UNKNOWN)), owned(t.text(f)))
                }
            },
            None => (Some(owned(UNKNOWN)), owned(UNKNOWN)),
        }
    }

    /// The receiver and field of the field access `n`.
    pub fn field_identifiers(&self, t: &SyntaxTree, n: usize) -> (r: (String, String))
        requires
            t.wf(),
            t.has(n as int),
        ensures
            r.0@ == field_identifiers_of(*t, n as int).0,
            r.1@ == field_identifiers_of(*t, n as int).1,
    {
        if t.is_kind(n, FIELD_EXPRESSION) {
            (
                source_or_unknown(t, t.child_by_field_name(n, "value")),
                source_or_unknown(t, t.child_by_field_name(n, "field")),
            )
        } else {
            (owned(UNKNOWN), owned(UNKNOWN))
        }
    }

    /// The node that names the definition `n`, which has a name or a child.
    pub fn function_name_node(&self, t: &SyntaxTree, n: usize) -> (r: usize)
        requires
            t.wf(),
            t.has(n as int),
            t.field_of(n as int, "name"@) is Some || t.nodes@[n as int].children@.len() > 0,
        ensures
            r as int == function_name_node_of(*t, n as int),
            t.has(r as int),
    {
        match t.child_by_field_name(n, "name") {
            Some(x) => x,
            None => {
                proof {
                    assert(t.node_wf(n as int));
                }
                t.nodes[n].children[0]
            },
        }
    }
}

impl Default for Scala {
    fn default() -> (r: Self)
        ensures
            r.class_query@ == CLASS_QUERY@,
            r.function_declaration_query@ == FUNCTION_DECLARATION_QUERY@,
            r.field_query@ == FIELD_QUERY@,
    {
        Scala {
            class_query: owned(CLASS_QUERY),
            function_declaration_query: owned(FUNCTION_DECLARATION_QUERY),
            field_query: owned(FIELD_QUERY),
        }
    }
}

} // verus!
