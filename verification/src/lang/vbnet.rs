//! Visual Basic .NET: invocations and member accesses, `Me` for a receiver
//! left implicit, constructors named `New`, and names compared without
//! regard to case.

use crate::lang::syntax::SyntaxTree;
use crate::lang::{owned, source_or_unknown, text_or_unknown, UNKNOWN};
use crate::text::{lowercase, to_lowercase};
use vstd::prelude::*;

verus! {

/// The query that finds classes and interfaces.
pub const CLASS_QUERY: &'static str = r#"
[
  (type_declaration
    (class_block
      name: (identifier) @name))
  (type_declaration
    (interface_block
      name: (identifier) @name))
] @definition.class
"#;

/// The query that finds methods and constructors.
pub const FUNCTION_DECLARATION_QUERY: &'static str = r#"
[
    (method_declaration
        name: (identifier) @name
        parameters: (parameter_list) @parameters)
    (constructor_declaration
        parameters: (parameter_list) @parameters)
] @definition.function
"#;

/// The query that finds member accesses.
pub const FIELD_QUERY: &'static str = r#"
(member_access
    object: (_) @name
    member: (identifier) @field_name) @field
"#;

pub const NAME: &'static str = "vbnet";
pub const SELF: &'static str = "Me";
pub const CONSTRUCTOR_NAME: &'static str = "New";
pub const EXPRESSION: &'static str = "expression";

pub const IF: &'static str = "if_statement";
pub const ELSEIF: &'static str = "elseif_clause";
pub const ELSE: &'static str = "else_clause";
pub const SELECT: &'static str = "select_case_statement";
pub const CASE: &'static str = "case_clause";
pub const FOR: &'static str = "for_statement";
pub const FOR_EACH: &'static str = "for_each_statement";
pub const WHILE: &'static str = "while_statement";
pub const DO: &'static str = "do_statement";
pub const TRY: &'static str = "try_statement";
pub const CATCH: &'static str = "catch_block";
pub const RETURN: &'static str = "return_statement";
pub const EXIT: &'static str = "exit_statement";
pub const CONTINUE: &'static str = "continue_statement";
pub const GOTO: &'static str = "goto_statement";
pub const BINARY: &'static str = "binary_expression";
pub const INVOCATION: &'static str = "invocation";
pub const MEMBER_ACCESS: &'static str = "member_access";
pub const LAMBDA: &'static str = "lambda_expression";
pub const COMMENT: &'static str = "comment";
pub const STRING: &'static str = "string_literal";
pub const INTERPOLATED_STRING: &'static str = "interpolated_string_expression";
pub const METHOD_DECLARATION: &'static str = "method_declaration";
pub const CONSTRUCTOR_DECLARATION: &'static str = "constructor_declaration";
pub const IDENTIFIER: &'static str = "identifier";

pub const AND_ALSO: &'static str = "AndAlso";
pub const OR_ELSE: &'static str = "OrElse";
pub const AND: &'static str = "And";
pub const OR: &'static str = "Or";

/// The VB.NET language: the sources of its queries.
#[derive(Debug)]
pub struct VBNet {
    pub class_query: String,
    pub function_declaration_query: String,
    pub field_query: String,
}

/// The node an object stands for: through `expression` wrappers, their
/// first named child.
pub open spec fn inner_identifier(t: SyntaxTree, n: int) -> int
    decreases t.nodes@.len() - n,
{
    let children = t.named_children_of(n);
    if t.kind_of(n) == EXPRESSION@ && children.len() > 0 && n < children[0] < t.nodes@.len() {
        inner_identifier(t, children[0])
    } else {
        n
    }
}

/// The receiver and member of the member access `n`: the inner member for
/// a nested access.
pub open spec fn field_identifiers_of(t: SyntaxTree, n: int) -> (Seq<char>, Seq<char>) {
    match (t.field_of(n, "object"@), t.field_of(n, "member"@)) {
        (Some(obj), Some(prop)) => if t.kind_of(obj) == MEMBER_ACCESS@ {
            (text_or_unknown(t, t.field_of(obj, "member"@)), t.text_of(prop))
        } else {
            (t.text_of(inner_identifier(t, obj)), t.text_of(prop))
        },
        _ => (UNKNOWN@, UNKNOWN@),
    }
}

/// The receiver and name of the invocation `n`: `Me` when the target is
/// not a member access.
pub open spec fn call_identifiers_of(t: SyntaxTree, n: int) -> (Seq<char>, Seq<char>) {
    if t.kind_of(n) == INVOCATION@ {
        match t.field_of(n, "target"@) {
            Some(g) => if t.kind_of(g) == MEMBER_ACCESS@ {
                field_identifiers_of(t, g)
            } else {
                (SELF@, t.text_of(g))
            },
            None => (UNKNOWN@, UNKNOWN@),
        }
    } else {
        (UNKNOWN@, UNKNOWN@)
    }
}

/// Whether the declaration `n` has the field its name is read from: the
/// parameters of a constructor, the name of anything else.
pub open spec fn has_name_field(t: SyntaxTree, n: int) -> bool {
    if t.kind_of(n) == CONSTRUCTOR_DECLARATION@ {
        t.field_of(n, "parameters"@) is Some
    } else {
        t.field_of(n, "name"@) is Some
    }
}

/// The node that stands for the name of the declaration `n`.
pub open spec fn function_name_node_of(t: SyntaxTree, n: int) -> int {
    if t.kind_of(n) == CONSTRUCTOR_DECLARATION@ {
        t.field_of(n, "parameters"@)->0
    } else {
        t.field_of(n, "name"@)->0
    }
}

/// The name of the declaration `n`: `New` for a constructor.
pub open spec fn function_name_of(t: SyntaxTree, n: int) -> Seq<char> {
    if t.kind_of(n) == CONSTRUCTOR_DECLARATION@ {
        CONSTRUCTOR_NAME@
    } else {
        t.text_of(t.field_of(n, "name"@)->0)
    }
}

/// The text of the node that object `n` stands for.
fn inner_identifier_source(t: &SyntaxTree, n: usize) -> (r: String)
    requires
        t.wf(),
        t.has(n as int),
    ensures
        r@ == t.text_of(inner_identifier(*t, n as int)),
{
    let mut current = n;
    while true
        invariant
            t.wf(),
            t.has(current as int),
            inner_identifier(*t, n as int) == inner_identifier(*t, current as int),
        decreases t.nodes@.len() - current,
    {
        if t.is_kind(current, EXPRESSION) {
            let children = t.named_children(current);
            proof {
                if children@.len() > 0 {
                    assert(children@.map_values(|c: usize| c as int)[0] == children@[0] as int);
                }
            }
            if children.len() > 0 {
                current = children[0];
            } else {
                return owned(t.text(current));
            }
        } else {
            return owned(t.text(current));
        }
    }
    owned(t.text(current))
}

impl VBNet {
    /// The language's name.
    pub fn name(&self) -> (r: &'static str)
        ensures
            r == NAME,
    {
        NAME
    }

    /// The node that stands for the name of the declaration `n`.
    pub fn function_name_node(&self, t: &SyntaxTree, n: usize) -> (r: usize)
        requires
            t.wf(),
            t.has(n as int),
            has_name_field(*t, n as int),
        ensures
            r as int == function_name_node_of(*t, n as int),
            t.has(r as int),
    {
        let field = if t.is_kind(n, CONSTRUCTOR_DECLARATION) {
            "parameters"
        } else {
            "name"
        };
        match t.child_by_field_name(n, field) {
            Some(x) => x,
            None => n,
        }
    }

    /// The name of the declaration `n`.
    pub fn function_name_from_node(&self, t: &SyntaxTree, n: usize) -> (r: String)
        requires
            t.wf(),
            t.has(n as int),
            t.kind_of(n as int) != CONSTRUCTOR_DECLARATION@ ==> t.field_of(n as int, "name"@) is Some,
        ensures
            r@ == function_name_of(*t, n as int),
    {
        if t.is_kind(n, CONSTRUCTOR_DECLARATION) {
            owned(CONSTRUCTOR_NAME)
        } else {
            match t.child_by_field_name(n, "name") {
                Some(x) => owned(t.text(x)),
                None => String::new(),
            }
        }
    }

    /// The receiver and name of the call `n`.
    pub fn call_identifiers(&self, t: &SyntaxTree, n: usize) -> (r: (Option<String>, String))
        requires
            t.wf(),
            t.has(n as int),
        ensures
            r.0 matches Some(s) && s@ == call_identifiers_of(*t, n as int).0,
            r.1@ == call_identifiers_of(*t, n as int).1,
    {
        if t.is_kind(n, INVOCATION) {
            match t.child_by_field_name(n, "target") {
                Some(g) => {
                    if t.is_kind(g, MEMBER_ACCESS) {
                        let (object, property) = self.field_identifiers(t, g);
                        (Some(object), property)
                    } else {
                        (Some(owned(SELF)), owned(t.text(g)))
                    }
                },
                None => (Some(owned(UNKNOWN)), owned(UNKNOWN)),
            }
        } else {
            (Some(owned(UNKNOWN)), owned(UNKNOWN))
        }
    }

    /// The receiver and member of the member access `n`.
    pub fn field_identifiers(&self, t: &SyntaxTree, n: usize) -> (r: (String, String))
        requires
            t.wf(),
            t.has(n as int),
        ensures
            r.0@ == field_identifiers_of(*t, n as int).0,
            r.1@ == field_identifiers_of(*t, n as int).1,
    {
        match (t.child_by_field_name(n, "object"), t.child_by_field_name(n, "member")) {
            (Some(obj), Some(prop)) => {
                if t.is_kind(obj, MEMBER_ACCESS) {
                    (source_or_unknown(t, t.child_by_field_name(obj, "member")), owned(t.text(prop)))
                } else {
                    (inner_identifier_source(t, obj), owned(t.text(prop)))
                }
            },
            _ => (owned(UNKNOWN), owned(UNKNOWN)),
        }
    }

    /// `name` as it is compared: in lower case.
    pub fn normalize_identifier(&self, name: &str) -> (r: String)
        ensures
            r@ == lowercase(name@),
    {
        to_lowercase(name)
    }
}

impl Default for VBNet {
    fn default() -> (r: Self)
        ensures
            r.class_query@ == CLASS_QUERY@,
            r.function_declaration_query@ == FUNCTION_DECLARATION_QUERY@,
            r.field_query@ == FIELD_QUERY@,
    {
        VBNet {
            class_query: owned(CLASS_QUERY),
            function_declaration_query: owned(FUNCTION_DECLARATION_QUERY),
            field_query: owned(FIELD_QUERY),
        }
    }
}

} // verus!
