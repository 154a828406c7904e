//! C: calls, field accesses and the names that function declarators
//! bury.

use crate::lang::syntax::SyntaxTree;
use crate::lang::{owned, source_or_unknown, text_or_unknown, UNKNOWN};
use vstd::prelude::*;

verus! {

/// The query that finds structs with a body.
pub const CLASS_QUERY: &'static str = r#"
(struct_specifier
    name: (type_identifier) @name
    body: (field_declaration_list)) @definition.class
"#;

/// The query that finds function definitions.
pub const FUNCTION_DECLARATION_QUERY: &'static str = r#"
(function_definition
    declarator: (function_declarator
        declarator: (identifier) @name
        parameters: (parameter_list) @parameters)) @definition.function
"#;

/// The query that finds the fields of structs.
pub const FIELD_QUERY: &'static str = r#"
(struct_specifier
    body: (field_declaration_list
        (field_declaration) @name)) @field
"#;

pub const NAME: &'static str = "c";

pub const IF: &'static str = "if_statement";
pub const FOR: &'static str = "for_statement";
pub const WHILE: &'static str = "while_statement";
pub const DO: &'static str = "do_statement";
pub const SWITCH: &'static str = "switch_statement";
pub const CASE: &'static str = "case_statement";
pub const BREAK: &'static str = "break_statement";
pub const CONTINUE: &'static str = "continue_statement";
pub const RETURN: &'static str = "return_statement";
pub const GOTO: &'static str = "goto_statement";
pub const BINARY: &'static str = "binary_expression";
pub const CONDITIONAL: &'static str = "conditional_expression";
pub const CALL: &'static str = "call_expression";
pub const FUNCTION_DEFINITION: &'static str = "function_definition";
pub const FIELD_DECLARATION: &'static str = "field_declaration";
pub const COMPOUND_STATEMENT: &'static str = "compound_statement";
pub const TRANSLATION_UNIT: &'static str = "translation_unit";
pub const STRING_LITERAL: &'static str = "string_literal";
pub const COMMENT: &'static str = "comment";
pub const AND: &'static str = "&&";
pub const OR: &'static str = "||";
pub const FIELD_EXPRESSION: &'static str = "field_expression";
pub const IDENTIFIER: &'static str = "identifier";

/// The C language: the sources of its queries.
#[derive(Debug)]
pub struct C {
    pub class_query: String,
    pub function_declaration_query: String,
    pub field_query: String,
}

/// The innermost declarator reached from node `n` through `declarator`
/// fields.
pub open spec fn innermost_declarator(t: SyntaxTree, n: int) -> int
    decreases t.nodes@.len() - n,
{
    match t.field_of(n, "declarator"@) {
        Some(c) => if n < c < t.nodes@.len() {
            innermost_declarator(t, c)
        } else {
            n
        },
        None => n,
    }
}

/// The innermost declarator reached from node `n`.
pub fn innermost(t: &SyntaxTree, n: usize) -> (r: usize)
    requires
        t.wf(),
        t.has(n as int),
    ensures
        r as int == innermost_declarator(*t, n as int),
        t.has(r as int),
{
    let mut current = n;
    while true
        invariant
            t.wf(),
            t.has(current as int),
            innermost_declarator(*t, n as int) == innermost_declarator(*t, current as int),
        decreases t.nodes@.len() - current,
    {
        match t.child_by_field_name(current, "declarator") {
            Some(inner) => {
                current = inner;
            },
            None => {
                return current;
            },
        }
    }
    current
}

/// The receiver and field of the field access `n`: for a nested access the
/// inner field stands for the receiver.
pub open spec fn field_identifiers_of(t: SyntaxTree, n: int) -> (Seq<char>, Seq<char>) {
    match (t.field_of(n, "argument"@), t.field_of(n, "field"@)) {
        (Some(obj), Some(prop)) => if t.kind_of(obj) == FIELD_EXPRESSION@ {
            (text_or_unknown(t, t.field_of(obj, "field"@)), t.text_of(prop))
        } else {
            (t.text_of(obj), t.text_of(prop))
        },
        _ => (UNKNOWN@, UNKNOWN@),
    }
}

/// The receiver and name of the call `n`: none for a plain function, the
/// receiver of a call through a field.
pub open spec fn call_identifiers_of(t: SyntaxTree, n: int) -> (Option<Seq<char>>, Seq<char>) {
    match t.field_of(n, "function"@) {
        Some(f) => if t.kind_of(f) == IDENTIFIER@ {
            (None, t.text_of(f))
        } else if t.kind_of(f) == FIELD_EXPRESSION@ {
            let (receiver, field) = field_identifiers_of(t, f);
            (Some(receiver), field)
        } else {
            (Some(UNKNOWN@), UNKNOWN@)
        },
        None => (Some(UNKNOWN@), UNKNOWN@),
    }
}

impl C {
    /// The language's name.
    pub fn name(&self) -> (r: &'static str)
        ensures
            r == NAME,
    {
        NAME
    }

    /// The node that names the function defined by `n`: the innermost of
    /// its declarators.
    pub fn function_name_node(&self, t: &SyntaxTree, n: usize) -> (r: usize)
        requires
            t.wf(),
            t.has(n as int),
            t.field_of(n as int, "declarator"@) is Some,
        ensures
            r as int == innermost_declarator(*t, t.field_of(n as int, "declarator"@)->0),
            t.has(r as int),
    {
        match t.child_by_field_name(n, "declarator") {
            Some(d) => innermost(t, d),
            None => n,
        }
    }

    /// The receiver and name of the call `n`.
    pub fn call_identifiers(&self, t: &SyntaxTree, n: usize) -> (r: (Option<String>, String))
        requires
            t.wf(),
            t.has(n as int),
        ensures
            ({
                let (receiver, name) = call_identifiers_of(*t, n as int);
                &&& r.1@ == name
                &&& match receiver {
                    Some(x) => r.0 matches Some(s) && s@ == x,
                    None => r.0 is None,
                }
            }),
    {
        match t.child_by_field_name(n, "function") {
            Some(f) => {
                if t.is_kind(f, IDENTIFIER) {
                    (None, owned(t.text(f)))
                } else if t.is_kind(f, FIELD_EXPRESSION) {
                    let (receiver, field) = self.field_identifiers(t, f);
                    (Some(receiver), field)
                } else {
                    (Some(owned(UNKNOWN)), owned(UNKNOWN))
                }
            },
            None => (Some(owned(UNKNOWN)), owned(UNKNOWN)),
        }
    }

    /// The receiver and field of the field access `n`.
    pub fn field_identifiers(&self, t: &SyntaxTree, n: usize) -> (r: (String, String))
        requires
            t.wf(),
            t.has(n as int),
        ensures
            r.0@ == field_identifiers_of(*t, n as int).0,
            r.1@ == field_identifiers_of(*t, n as int).1,
    {
        match (t.child_by_field_name(n, "argument"), t.child_by_field_name(n, "field")) {
            (Some(obj), Some(prop)) => {
                if t.is_kind(obj, FIELD_EXPRESSION) {
                    (source_or_unknown(t, t.child_by_field_name(obj, "field")), owned(t.text(prop)))
                } else {
                    (owned(t.text(obj)), owned(t.text(prop)))
                }
            },
            _ => (owned(UNKNOWN), owned(UNKNOWN)),
        }
    }
}

impl Default for C {
    fn default() -> (r: Self)
        ensures
            r.class_query@ == CLASS_QUERY@,
            r.function_declaration_query@ == FUNCTION_DECLARATION_QUERY@,
            r.field_query@ == FIELD_QUERY@,
    {
        C {
            class_query: owned(CLASS_QUERY),
            function_declaration_query: owned(FUNCTION_DECLARATION_QUERY),
            field_query: owned(FIELD_QUERY),
        }
    }
}

} // verus!
