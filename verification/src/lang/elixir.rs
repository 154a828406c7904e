//! Elixir: `def`, `if` and `case` are all calls, and `=`, `|>` and `&&`
//! all binary operators, so the kind a metric reads is resolved from the
//! source around each node.

use crate::lang::syntax::SyntaxTree;
use crate::lang::{owned, text_or_unknown, UNKNOWN};
use crate::text::{chars_equal, chars_of, str_eq, trim_end, trim_end_chars};
use vstd::prelude::*;

verus! {

/// The query that finds modules, protocols and implementations.
pub const CLASS_QUERY: &'static str = r#"
(call
  target: (identifier) @_definition
  (arguments (alias) @name)
  (#match? @_definition "^(defmodule|defprotocol|defimpl)$")) @definition.class
"#;

/// The query that finds function definitions, bare or guarded.
pub const FUNCTION_DECLARATION_QUERY: &'static str = r#"
[
  (call
    target: (identifier) @_definition
    (arguments
      (call target: (identifier) @name (arguments) @parameters))
    (#match? @_definition "^(def|defp|defmacro|defmacrop|defguard|defguardp)$"))
  (call
    target: (identifier) @_definition
    (arguments (identifier) @name)
    (#match? @_definition "^(def|defp|defmacro|defmacrop|defguard|defguardp)$"))
  (call
    target: (identifier) @_definition
    (arguments
      (binary_operator
        left: (call target: (identifier) @name (arguments) @parameters)))
    (#match? @_definition "^(def|defp|defmacro|defmacrop|defguard|defguardp)$"))
  (call
    target: (identifier) @_definition
    (arguments
      (binary_operator left: (identifier) @name))
    (#match? @_definition "^(def|defp|defmacro|defmacrop|defguard|defguardp)$"))
] @definition.function
"#;

/// The query that finds module attributes and struct fields.
pub const FIELD_QUERY: &'static str = r#"
[
  (unary_operator
    operator: "@"
    operand: (call target: (identifier) @name)
    (#not-match? @name "^(after_compile|before_compile|behaviour|behavior|callback|compile|deprecated|derive|describetag|dialyzer|doc|doctest|enforce_keys|external_resource|impl|macrocallback|moduledoc|moduletag|on_definition|on_load|opaque|optional_callbacks|since|spec|tag|type|typedoc|typep)$")) @field
  (call
    target: (identifier) @_defstruct
    (arguments
      (list [(atom) @name (keywords (pair key: (keyword) @name))]))
    (#eq? @_defstruct "defstruct")) @field
  (call
    target: (identifier) @_defstruct
    (arguments (keywords (pair key: (keyword) @name)))
    (#eq? @_defstruct "defstruct")) @field
]
"#;

pub const NAME: &'static str = "elixir";

pub const DEFINITION: &'static str = "__elixir_definition";
pub const DEFINITION_HEAD: &'static str = "__elixir_definition_head";
pub const CONDITIONAL: &'static str = "__elixir_conditional";
pub const BRANCH: &'static str = "__elixir_branch";
pub const COMPREHENSION: &'static str = "__elixir_comprehension";
pub const TRY: &'static str = "__elixir_try";
pub const BOOLEAN_BINARY: &'static str = "__elixir_boolean_binary";
pub const CASE_CLAUSE: &'static str = "__elixir_case_clause";
pub const STAB_CLAUSE: &'static str = "__elixir_stab_clause";
pub const ATTRIBUTE_NAME: &'static str = "__elixir_attribute_name";
pub const TYPE_DECLARATION: &'static str = "__elixir_type_declaration";
pub const KEYWORD_ELSE: &'static str = "__elixir_keyword_else";
pub const SECOND_CLAUSE_HEAD: &'static str = "__elixir_second_clause_head";
pub const LATER_CLAUSE_HEAD: &'static str = "__elixir_later_clause_head";

pub const SOURCE: &'static str = "source";
pub const CALL: &'static str = "call";
pub const BINARY_OPERATOR: &'static str = "binary_operator";
pub const UNARY_OPERATOR: &'static str = "unary_operator";
pub const STAB_CLAUSE_KIND: &'static str = "stab_clause";
pub const ANONYMOUS_FUNCTION: &'static str = "anonymous_function";
pub const RESCUE_BLOCK: &'static str = "rescue_block";
pub const CATCH_BLOCK: &'static str = "catch_block";
pub const DO_BLOCK: &'static str = "do_block";
pub const ELSE_BLOCK: &'static str = "else_block";
pub const AFTER_BLOCK: &'static str = "after_block";
pub const COMMENT: &'static str = "comment";
pub const STRING: &'static str = "string";
pub const CHARLIST: &'static str = "charlist";
pub const SIGIL: &'static str = "sigil";
pub const IDENTIFIER: &'static str = "identifier";
pub const DOT: &'static str = "dot";
pub const ARGUMENTS: &'static str = "arguments";
pub const KEYWORDS: &'static str = "keywords";
pub const PAIR: &'static str = "pair";

pub const AND: &'static str = "and";
pub const OR: &'static str = "or";
pub const AMPERSAND_AMPERSAND: &'static str = "&&";
pub const PIPE_PIPE: &'static str = "||";

pub const ATTRIBUTE_OPERATOR: &'static str = "@";

pub const ELSE_KEYWORD: &'static str = "else:";

/// The Elixir language: the sources of its queries.
#[derive(Debug)]
pub struct Elixir {
    pub class_query: String,
    pub function_declaration_query: String,
    pub field_query: String,
}

/// Whether `s` is a macro whose keyword-form `else:` is a branch rather
/// than an ordinary option.
pub open spec fn is_else_keyword_caller(s: Seq<char>) -> bool {
    s == "if"@ || s == "unless"@ || s == "with"@ || s == "try"@ || s == "receive"@
}

/// Whether `s` defines a function.
pub open spec fn is_definition_keyword(s: Seq<char>) -> bool {
    s == "def"@ || s == "defp"@ || s == "defmacro"@ || s == "defmacrop"@ || s == "defguard"@ || s
        == "defguardp"@
}

/// Whether `s` is a macro whose first argument is a `name(params)` head
/// that declares rather than calls.
pub open spec fn is_declaration_head_keyword(s: Seq<char>) -> bool {
    is_definition_keyword(s) || s == "defdelegate"@
}

/// Whether `s` is an attribute whose body is a type declaration that never
/// runs.
pub open spec fn is_type_declaration_attribute(s: Seq<char>) -> bool {
    s == "callback"@ || s == "macrocallback"@ || s == "opaque"@ || s == "spec"@ || s == "type"@ || s
        == "typep"@
}

/// Whether `s` is a boolean operator.
pub open spec fn is_boolean_operator(s: Seq<char>) -> bool {
    s == AMPERSAND_AMPERSAND@ || s == PIPE_PIPE@ || s == AND@ || s == OR@
}

fn else_keyword_caller(s: &str) -> (r: bool)
    ensures
        r == is_else_keyword_caller(s@),
{
    str_eq(s, "if") || str_eq(s, "unless") || str_eq(s, "with") || str_eq(s, "try") || str_eq(
        s,
        "receive",
    )
}

fn definition_keyword(s: &str) -> (r: bool)
    ensures
        r == is_definition_keyword(s@),
{
    str_eq(s, "def") || str_eq(s, "defp") || str_eq(s, "defmacro") || str_eq(s, "defmacrop")
        || str_eq(s, "defguard") || str_eq(s, "defguardp")
}

fn declaration_head_keyword(s: &str) -> (r: bool)
    ensures
        r == is_declaration_head_keyword(s@),
{
    definition_keyword(s) || str_eq(s, "defdelegate")
}

fn type_declaration_attribute(s: &str) -> (r: bool)
    ensures
        r == is_type_declaration_attribute(s@),
{
    str_eq(s, "callback") || str_eq(s, "macrocallback") || str_eq(s, "opaque") || str_eq(s, "spec")
        || str_eq(s, "type") || str_eq(s, "typep")
}

/// Whether node `n` is a module attribute: `@` applied to an operand.
pub open spec fn is_module_attribute(t: SyntaxTree, n: int) -> bool {
    &&& t.kind_of(n) == UNARY_OPERATOR@
    &&& t.field_of(n, "operator"@) matches Some(o) && t.text_of(o) == ATTRIBUTE_OPERATOR@
}

/// Whether node `n` is the name of a module attribute: `timeout` in
/// `@timeout 5000`.
pub open spec fn is_attribute_name(t: SyntaxTree, n: int) -> bool {
    t.parent_of(n) matches Some(p) && is_module_attribute(t, p) && t.field_of(p, "operand"@) == Some(n)
}

/// Whether the module attribute `a` declares a type, as `@spec` does.
pub open spec fn is_type_declaration_name(t: SyntaxTree, a: int) -> bool {
    &&& t.field_of(a, "operand"@) matches Some(o)
    &&& t.field_of(o, "target"@) matches Some(g)
    &&& t.kind_of(g) == IDENTIFIER@
    &&& is_type_declaration_attribute(t.text_of(g))
}

/// Whether the nearest module attribute around node `n` declares a type.
pub open spec fn is_in_type_declaration(t: SyntaxTree, n: int) -> bool
    decreases n,
{
    match t.parent_of(n) {
        None => false,
        Some(p) => if !(0 <= p < n) {
            false
        } else if is_module_attribute(t, p) {
            is_type_declaration_name(t, p)
        } else {
            is_in_type_declaration(t, p)
        },
    }
}

/// Whether node `n` is a call of a macro that declares a function head.
pub open spec fn is_declaration_call(t: SyntaxTree, n: int) -> bool {
    &&& t.kind_of(n) == CALL@
    &&& t.field_of(n, "target"@) matches Some(g)
    &&& t.kind_of(g) == IDENTIFIER@
    &&& is_declaration_head_keyword(t.text_of(g))
}

/// The definition whose `name(params)` head node `n` is, reached through
/// any `when` guards.
pub open spec fn declaration_for_head(t: SyntaxTree, n: int) -> Option<int>
    decreases n,
{
    match t.parent_of(n) {
        None => None,
        Some(p) => if !(0 <= p < n) {
            None
        } else if t.kind_of(p) == BINARY_OPERATOR@ && t.field_of(p, "left"@) == Some(n) {
            declaration_for_head(t, p)
        } else if t.kind_of(p) == ARGUMENTS@ {
            match t.parent_of(p) {
                Some(d) => if is_declaration_call(t, d) {
                    Some(d)
                } else {
                    None
                },
                None => None,
            }
        } else {
            None
        },
    }
}

/// The argument list of node `n`, found by kind.
pub open spec fn arguments_child(t: SyntaxTree, n: int) -> Option<int> {
    t.named_child_of_kind(n, ARGUMENTS@)
}

/// The `name(params)` head of the definition `n`, behind any `when`
/// guards.
pub open spec fn definition_head(t: SyntaxTree, n: int) -> Option<int> {
    match arguments_child(t, n) {
        None => None,
        Some(a) => {
            let args = t.named_children_of(a);
            if args.len() == 0 {
                None
            } else if t.kind_of(args[0]) == BINARY_OPERATOR@ {
                t.field_of(args[0], "left"@)
            } else {
                Some(args[0])
            }
        },
    }
}

/// The name and arity of the function that definition `n` defines a clause
/// of.
pub open spec fn definition_signature(t: SyntaxTree, n: int) -> Option<(Seq<char>, int)> {
    if t.kind_of(n) != CALL@ {
        None
    } else {
        match t.field_of(n, "target"@) {
            None => None,
            Some(g) => if t.kind_of(g) != IDENTIFIER@ || !is_definition_keyword(t.text_of(g)) {
                None
            } else {
                match definition_head(t, n) {
                    None => None,
                    Some(h) => if t.kind_of(h) == IDENTIFIER@ {
                        Some((t.text_of(h), 0int))
                    } else if t.kind_of(h) == CALL@ {
                        match t.field_of(h, "target"@) {
                            None => None,
                            Some(name) => Some(
                                (
                                    t.text_of(name),
                                    match arguments_child(t, h) {
                                        Some(a) => t.named_children_of(a).len() as int,
                                        None => 0int,
                                    },
                                ),
                            ),
                        }
                    } else {
                        None
                    },
                }
            },
        }
    }
}

/// How many of `ns` define a clause of the function `sig`.
pub open spec fn count_signature(t: SyntaxTree, ns: Seq<int>, sig: (Seq<char>, int)) -> nat
    decreases ns.len(),
{
    if ns.len() == 0 {
        0
    } else {
        count_signature(t, ns.drop_last(), sig) + if definition_signature(t, ns.last()) == Some(sig) {
            1nat
        } else {
            0nat
        }
    }
}

/// How many clauses of the same function come before definition `n` among
/// its siblings; 0 when `n` is no definition.
pub open spec fn preceding_clauses(t: SyntaxTree, n: int) -> nat {
    match definition_signature(t, n) {
        None => 0,
        Some(sig) => count_signature(t, t.earlier_siblings_of(n), sig),
    }
}

/// The kind a call node `n` is read as.
pub open spec fn dispatch_call_kind(t: SyntaxTree, n: int) -> Seq<char> {
    match declaration_for_head(t, n) {
        Some(d) => {
            let c = preceding_clauses(t, d);
            if c == 0 {
                DEFINITION_HEAD@
            } else if c == 1 {
                SECOND_CLAUSE_HEAD@
            } else {
                LATER_CLAUSE_HEAD@
            }
        },
        None => if is_attribute_name(t, n) {
            ATTRIBUTE_NAME@
        } else if is_in_type_declaration(t, n) {
            TYPE_DECLARATION@
        } else {
            match t.field_of(n, "target"@) {
                None => CALL@,
                Some(g) => if t.kind_of(g) != IDENTIFIER@ {
                    CALL@
                } else {
                    let s = t.text_of(g);
                    if is_definition_keyword(s) {
                        DEFINITION@
                    } else if s == "if"@ || s == "unless"@ {
                        CONDITIONAL@
                    } else if s == "case"@ || s == "cond"@ || s == "with"@ || s == "receive"@ {
                        BRANCH@
                    } else if s == "for"@ {
                        COMPREHENSION@
                    } else if s == "try"@ {
                        TRY@
                    } else {
                        CALL@
                    }
                },
            }
        },
    }
}

/// The kind a binary operator node `n` is read as: boolean operators are
/// told apart from bindings, pipes and arithmetic.
pub open spec fn dispatch_binary_operator_kind(t: SyntaxTree, n: int) -> Seq<char> {
    match t.field_of(n, "operator"@) {
        Some(o) => if is_boolean_operator(t.text_of(o)) {
            BOOLEAN_BINARY@
        } else {
            BINARY_OPERATOR@
        },
        None => BINARY_OPERATOR@,
    }
}

/// The kind a stab clause `n` is read as: an arm of a `do`, `else` or
/// `after` block is a case arm.
pub open spec fn dispatch_stab_clause_kind(t: SyntaxTree, n: int) -> Seq<char> {
    match t.parent_of(n) {
        Some(p) => if t.kind_of(p) == DO_BLOCK@ || t.kind_of(p) == ELSE_BLOCK@ || t.kind_of(p)
            == AFTER_BLOCK@ {
            CASE_CLAUSE@
        } else {
            STAB_CLAUSE@
        },
        None => STAB_CLAUSE@,
    }
}

/// Whether the pair `n` stands in the keyword list of a conditional's own
/// arguments.
pub open spec fn is_conditional_keyword(t: SyntaxTree, n: int) -> bool {
    &&& t.parent_of(n) matches Some(k)
    &&& t.kind_of(k) == KEYWORDS@
    &&& t.parent_of(k) matches Some(a)
    &&& t.kind_of(a) == ARGUMENTS@
    &&& t.parent_of(a) matches Some(c)
    &&& t.field_of(c, "target"@) matches Some(g)
    &&& t.kind_of(g) == IDENTIFIER@
    &&& is_else_keyword_caller(t.text_of(g))
}

/// The kind a pair `n` is read as: `else:` of a conditional is an else.
pub open spec fn dispatch_pair_kind(t: SyntaxTree, n: int) -> Seq<char> {
    match t.field_of(n, "key"@) {
        None => PAIR@,
        Some(k) => if trim_end(t.text_of(k)) != ELSE_KEYWORD@ {
            PAIR@
        } else if is_conditional_keyword(t, n) {
            KEYWORD_ELSE@
        } else {
            PAIR@
        },
    }
}

/// The kind node `n` is read as.
pub open spec fn dispatch_kind(t: SyntaxTree, n: int) -> Seq<char> {
    let k = t.kind_of(n);
    if k == CALL@ {
        dispatch_call_kind(t, n)
    } else if k == BINARY_OPERATOR@ {
        dispatch_binary_operator_kind(t, n)
    } else if k == STAB_CLAUSE_KIND@ {
        dispatch_stab_clause_kind(t, n)
    } else if k == PAIR@ {
        dispatch_pair_kind(t, n)
    } else {
        k
    }
}

/// The receiver and name of the call `n`: none and the name for a local
/// call, the module and the name for a qualified one.
pub open spec fn call_identifiers_of(t: SyntaxTree, n: int) -> (Option<Seq<char>>, Seq<char>) {
    match t.field_of(n, "target"@) {
        None => (Some(UNKNOWN@), UNKNOWN@),
        Some(g) => if t.kind_of(g) == IDENTIFIER@ {
            (None, t.text_of(g))
        } else if t.kind_of(g) == DOT@ {
            (
                Some(text_or_unknown(t, t.field_of(g, "left"@))),
                text_or_unknown(t, t.field_of(g, "right"@)),
            )
        } else {
            (Some(UNKNOWN@), UNKNOWN@)
        },
    }
}

/// The name the first of `args` gives a definition, behind any guard.
pub open spec fn name_among(t: SyntaxTree, args: Seq<int>) -> Option<Seq<char>>
    decreases args.len(),
{
    if args.len() == 0 {
        None
    } else {
        let c = args[0];
        let head = if t.kind_of(c) == BINARY_OPERATOR@ {
            t.field_of(c, "left"@)
        } else {
            Some(c)
        };
        match head {
            Some(h) => if t.kind_of(h) == IDENTIFIER@ {
                Some(t.text_of(h))
            } else if t.kind_of(h) == CALL@ && t.field_of(h, "target"@) is Some {
                Some(t.text_of(t.field_of(h, "target"@)->0))
            } else {
                name_among(t, args.drop_first())
            },
            None => name_among(t, args.drop_first()),
        }
    }
}

/// The name of the function that definition `n` defines.
pub open spec fn function_name_of(t: SyntaxTree, n: int) -> Seq<char> {
    match arguments_child(t, n) {
        None => UNKNOWN@,
        Some(a) => match name_among(t, t.named_children_of(a)) {
            Some(s) => s,
            None => UNKNOWN@,
        },
    }
}

/// Whether node `n` is a module attribute.
fn module_attribute(t: &SyntaxTree, n: usize) -> (r: bool)
    requires
        t.wf(),
        t.has(n as int),
    ensures
        r == is_module_attribute(*t, n as int),
{
    if !t.is_kind(n, UNARY_OPERATOR) {
        return false;
    }
    match t.child_by_field_name(n, "operator") {
        Some(o) => str_eq(t.text(o), ATTRIBUTE_OPERATOR),
        None => false,
    }
}

/// Whether node `n` names a module attribute.
fn attribute_name(t: &SyntaxTree, n: usize) -> (r: bool)
    requires
        t.wf(),
        t.has(n as int),
    ensures
        r == is_attribute_name(*t, n as int),
{
    match t.parent(n) {
        None => false,
        Some(p) => module_attribute(t, p) && t.child_by_field_name(p, "operand") == Some(n),
    }
}

/// Whether the module attribute `a` declares a type.
fn type_declaration_name(t: &SyntaxTree, a: usize) -> (r: bool)
    requires
        t.wf(),
        t.has(a as int),
    ensures
        r == is_type_declaration_name(*t, a as int),
{
    match t.child_by_field_name(a, "operand") {
        None => false,
        Some(o) => match t.child_by_field_name(o, "target") {
            None => false,
            Some(g) => t.is_kind(g, IDENTIFIER) && type_declaration_attribute(t.text(g)),
        },
    }
}

/// Whether the nearest module attribute around node `n` declares a type.
fn in_type_declaration(t: &SyntaxTree, n: usize) -> (r: bool)
    requires
        t.wf(),
        t.has(n as int),
    ensures
        r == is_in_type_declaration(*t, n as int),
{
    let mut current = n;
    while true
        invariant
            t.wf(),
            t.has(current as int),
            is_in_type_declaration(*t, n as int) == is_in_type_declaration(*t, current as int),
        decreases current,
    {
        match t.parent(current) {
            None => {
                return false;
            },
            Some(p) => {
                if module_attribute(t, p) {
                    return type_declaration_name(t, p);
                }
                current = p;
            },
        }
    }
    false
}

/// Whether node `n` calls a macro that declares a function head.
fn declaration_call(t: &SyntaxTree, n: usize) -> (r: bool)
    requires
        t.wf(),
        t.has(n as int),
    ensures
        r == is_declaration_call(*t, n as int),
{
    if !t.is_kind(n, CALL) {
        return false;
    }
    match t.child_by_field_name(n, "target") {
        None => false,
        Some(g) => t.is_kind(g, IDENTIFIER) && declaration_head_keyword(t.text(g)),
    }
}

/// The definition whose head node `n` is.
fn head_declaration(t: &SyntaxTree, n: usize) -> (r: Option<usize>)
    requires
        t.wf(),
        t.has(n as int),
    ensures
        match r {
            Some(d) => declaration_for_head(*t, n as int) == Some(d as int) && t.has(d as int),
            None => declaration_for_head(*t, n as int) is None,
        },
{
    let mut current = n;
    while true
        invariant
            t.wf(),
            t.has(current as int),
            declaration_for_head(*t, n as int) == declaration_for_head(*t, current as int),
        decreases current,
    {
        match t.parent(current) {
            None => {
                return None;
            },
            Some(p) => {
                if t.is_kind(p, BINARY_OPERATOR) && t.child_by_field_name(p, "left") == Some(current) {
                    current = p;
                } else if t.is_kind(p, ARGUMENTS) {
                    return match t.parent(p) {
                        Some(d) => if declaration_call(t, d) {
                            Some(d)
                        } else {
                            None
                        },
                        None => None,
                    };
                } else {
                    return None;
                }
            },
        }
    }
    None
}

/// The `name(params)` head of definition `n`.
fn definition_head_node(t: &SyntaxTree, n: usize) -> (r: Option<usize>)
    requires
        t.wf(),
        t.has(n as int),
    ensures
        match r {
            Some(h) => definition_head(*t, n as int) == Some(h as int) && t.has(h as int),
            None => definition_head(*t, n as int) is None,
        },
{
    match t.find_named_child(n, ARGUMENTS) {
        None => None,
        Some(a) => {
            let args = t.named_children(a);
            proof {
                if args@.len() > 0 {
                    assert(args@.map_values(|c: usize| c as int)[0] == args@[0] as int);
                }
            }
            if args.len() == 0 {
                None
            } else if t.is_kind(args[0], BINARY_OPERATOR) {
                t.child_by_field_name(args[0], "left")
            } else {
                Some(args[0])
            }
        },
    }
}

/// The name and arity of the function that definition `n` defines a clause
/// of.
fn signature(t: &SyntaxTree, n: usize) -> (r: Option<(String, usize)>)
    requires
        t.wf(),
        t.has(n as int),
    ensures
        match definition_signature(*t, n as int) {
            Some((name, arity)) => r matches Some((s, k)) && s@ == name && k as int == arity,
            None => r is None,
        },
{
    if !t.is_kind(n, CALL) {
        return None;
    }
    let g = match t.child_by_field_name(n, "target") {
        None => {
            return None;
        },
        Some(g) => g,
    };
    if !t.is_kind(g, IDENTIFIER) || !definition_keyword(t.text(g)) {
        return None;
    }
    let h = match definition_head_node(t, n) {
        None => {
            return None;
        },
        Some(h) => h,
    };
    if t.is_kind(h, IDENTIFIER) {
        Some((owned(t.text(h)), 0))
    } else if t.is_kind(h, CALL) {
        match t.child_by_field_name(h, "target") {
            None => None,
            Some(name) => {
                let arity = match t.find_named_child(h, ARGUMENTS) {
                    Some(a) => {
                        let args = t.named_children(a);
                        assert(args@.map_values(|c: usize| c as int).len() == args@.len());
                        args.len()
                    },
                    None => 0,
                };
                Some((owned(t.text(name)), arity))
            },
        }
    } else {
        None
    }
}

/// How many clauses of the same function come before definition `n`.
pub fn preceding_clause_count(t: &SyntaxTree, n: usize) -> (r: usize)
    requires
        t.wf(),
        t.has(n as int),
    ensures
        r == preceding_clauses(*t, n as int),
{
    let sig = match signature(t, n) {
        None => {
            return 0;
        },
        Some(s) => s,
    };
    let ghost target = definition_signature(*t, n as int)->0;
    let siblings = t.earlier_named_siblings(n);
    let ghost s = siblings@.map_values(|c: usize| c as int);
    let mut count: usize = 0;
    let mut k: usize = 0;
    while k < siblings.len()
        invariant
            t.wf(),
            k <= siblings@.len(),
            s == siblings@.map_values(|c: usize| c as int),
            s == t.earlier_siblings_of(n as int),
            forall|j: int| 0 <= j < siblings@.len() ==> #[trigger] t.has(siblings@[j] as int),
            sig.0@ == target.0 && sig.1 as int == target.1,
            count == count_signature(*t, s.take(k as int), target),
            count <= k,
        decreases siblings@.len() - k,
    {
        assert(s.take(k + 1).drop_last() =~= s.take(k as int));
        assert(s.take(k + 1).last() == siblings@[k as int] as int);
        match signature(t, siblings[k]) {
            Some((name, arity)) => {
                if arity == sig.1 && str_eq(name.as_str(), sig.0.as_str()) {
                    count = count + 1;
                }
            },
            None => {},
        }
        k = k + 1;
    }
    assert(s.take(k as int) =~= s);
    count
}

impl Elixir {
    /// The language's name.
    pub fn name(&self) -> (r: &'static str)
        ensures
            r == NAME,
    {
        NAME
    }

    /// The kind the metrics read node `n` as.
    pub fn dispatch_node_kind<'a>(&self, t: &'a SyntaxTree, n: usize) -> (r: &'a str)
        requires
            t.wf(),
            t.has(n as int),
        ensures
            r@ == dispatch_kind(*t, n as int),
    {
        if t.is_kind(n, CALL) {
            Self::dispatch_call(t, n)
        } else if t.is_kind(n, BINARY_OPERATOR) {
            Self::dispatch_binary_operator(t, n)
        } else if t.is_kind(n, STAB_CLAUSE_KIND) {
            Self::dispatch_stab_clause(t, n)
        } else if t.is_kind(n, PAIR) {
            Self::dispatch_pair(t, n)
        } else {
            t.kind(n)
        }
    }

    /// The kind a call node `n` is read as.
    pub fn dispatch_call(t: &SyntaxTree, n: usize) -> (r: &'static str)
        requires
            t.wf(),
            t.has(n as int),
        ensures
            r@ == dispatch_call_kind(*t, n as int),
    {
        match head_declaration(t, n) {
            Some(d) => {
                let c = preceding_clause_count(t, d);
                return if c == 0 {
                    DEFINITION_HEAD
                } else if c == 1 {
                    SECOND_CLAUSE_HEAD
                } else {
                    LATER_CLAUSE_HEAD
                };
            },
            None => {},
        }
        if attribute_name(t, n) {
            return ATTRIBUTE_NAME;
        }
        if in_type_declaration(t, n) {
            return TYPE_DECLARATION;
        }
        let g = match t.child_by_field_name(n, "target") {
            None => {
                return CALL;
            },
            Some(g) => g,
        };
        if !t.is_kind(g, IDENTIFIER) {
            return CALL;
        }
        let s = t.text(g);
        if definition_keyword(s) {
            DEFINITION
        } else if str_eq(s, "if") || str_eq(s, "unless") {
            CONDITIONAL
        } else if str_eq(s, "case") || str_eq(s, "cond") || str_eq(s, "with") || str_eq(s, "receive") {
            BRANCH
        } else if str_eq(s, "for") {
            COMPREHENSION
        } else if str_eq(s, "try") {
            TRY
        } else {
            CALL
        }
    }

    /// The kind a binary operator node `n` is read as.
    pub fn dispatch_binary_operator(t: &SyntaxTree, n: usize) -> (r: &'static str)
        requires
            t.wf(),
            t.has(n as int),
        ensures
            r@ == dispatch_binary_operator_kind(*t, n as int),
    {
        match t.child_by_field_name(n, "operator") {
            Some(o) => {
                let s = t.text(o);
                if str_eq(s, AMPERSAND_AMPERSAND) || str_eq(s, PIPE_PIPE) || str_eq(s, AND) || str_eq(
                    s,
                    OR,
                ) {
                    BOOLEAN_BINARY
                } else {
                    BINARY_OPERATOR
                }
            },
            None => BINARY_OPERATOR,
        }
    }

    /// The kind a stab clause `n` is read as.
    pub fn dispatch_stab_clause(t: &SyntaxTree, n: usize) -> (r: &'static str)
        requires
            t.wf(),
            t.has(n as int),
        ensures
            r@ == dispatch_stab_clause_kind(*t, n as int),
    {
        match t.parent(n) {
            Some(p) => if t.is_kind(p, DO_BLOCK) || t.is_kind(p, ELSE_BLOCK) || t.is_kind(p, AFTER_BLOCK) {
                CASE_CLAUSE
            } else {
                STAB_CLAUSE
            },
            None => STAB_CLAUSE,
        }
    }

    /// The kind a pair `n` is read as.
    pub fn dispatch_pair(t: &SyntaxTree, n: usize) -> (r: &'static str)
        requires
            t.wf(),
            t.has(n as int),
        ensures
            r@ == dispatch_pair_kind(*t, n as int),
    {
        let k = match t.child_by_field_name(n, "key") {
            None => {
                return PAIR;
            },
            Some(k) => k,
        };
        let key = trim_end_chars(chars_of(t.text(k)).as_slice());
        let else_keyword = chars_of(ELSE_KEYWORD);
        if !chars_equal(key.as_slice(), else_keyword.as_slice()) {
            return PAIR;
        }
        if Self::conditional_keyword(t, n) {
            KEYWORD_ELSE
        } else {
            PAIR
        }
    }

    /// Whether the pair `n` stands in a conditional's own keyword list.
    fn conditional_keyword(t: &SyntaxTree, n: usize) -> (r: bool)
        requires
            t.wf(),
            t.has(n as int),
        ensures
            r == is_conditional_keyword(*t, n as int),
    {
        let k = match t.parent(n) {
            Some(k) => k,
            None => {
                return false;
            },
        };
        if !t.is_kind(k, KEYWORDS) {
            return false;
        }
        let a = match t.parent(k) {
            Some(a) => a,
            None => {
                return false;
            },
        };
        if !t.is_kind(a, ARGUMENTS) {
            return false;
        }
        let c = match t.parent(a) {
            Some(c) => c,
            None => {
                return false;
            },
        };
        match t.child_by_field_name(c, "target") {
            Some(g) => t.is_kind(g, IDENTIFIER) && else_keyword_caller(t.text(g)),
            None => false,
        }
    }

    /// The receiver and name of the call `n`.
    pub fn call_identifiers(&self, t: &SyntaxTree, n: usize) -> (r: (Option<String>, String))
        requires
            t.wf(),
            t.has(n as int),
        ensures
            ({
                let (receiver, name) = call_identifiers_of(*t, n as int);
                &&& r.1@ == name
                &&& match receiver {
                    Some(x) => r.0 matches Some(s) && s@ == x,
                    None => r.0 is None,
                }
            }),
    {
        let g = match t.child_by_field_name(n, "target") {
            None => {
                return (Some(owned(UNKNOWN)), owned(UNKNOWN));
            },
            Some(g) => g,
        };
        if t.is_kind(g, IDENTIFIER) {
            (None, owned(t.text(g)))
        } else if t.is_kind(g, DOT) {
            let receiver = match t.child_by_field_name(g, "left") {
                Some(l) => owned(t.text(l)),
                None => owned(UNKNOWN),
            };
            let name = match t.child_by_field_name(g, "right") {
                Some(x) => owned(t.text(x)),
                None => owned(UNKNOWN),
            };
            (Some(receiver), name)
        } else {
            (Some(owned(UNKNOWN)), owned(UNKNOWN))
        }
    }

    /// The receiver and field of a field access: never asked, since Elixir
    /// has no field access nodes.
    pub fn field_identifiers(&self) -> (r: (String, String))
        ensures
            r.0@ == UNKNOWN@,
            r.1@ == UNKNOWN@,
    {
        (owned(UNKNOWN), owned(UNKNOWN))
    }

    /// The name of the function that definition `n` defines.
    pub fn function_name_from_node(&self, t: &SyntaxTree, n: usize) -> (r: String)
        requires
            t.wf(),
            t.has(n as int),
        ensures
            r@ == function_name_of(*t, n as int),
    {
        let a = match t.find_named_child(n, ARGUMENTS) {
            None => {
                return owned(UNKNOWN);
            },
            Some(a) => a,
        };
        let args = t.named_children(a);
        let ghost s = args@.map_values(|c: usize| c as int);
        let m = args.len();
        let mut k: usize = 0;
        assert(s.subrange(0, m as int) =~= s);
        while k < m
            invariant
                t.wf(),
                k <= m,
                m == args@.len(),
                s == args@.map_values(|c: usize| c as int),
                s == t.named_children_of(a as int),
                arguments_child(*t, n as int) == Some(a as int),
                forall|j: int| 0 <= j < args@.len() ==> #[trigger] t.has(args@[j] as int),
                name_among(*t, s) == name_among(*t, s.subrange(k as int, m as int)),
            decreases m - k,
        {
            let ghost rest = s.subrange(k as int, m as int);
            assert(rest.drop_first() =~= s.subrange(k + 1, m as int));
            assert(rest[0] == args@[k as int] as int);
            let c = args[k];
            let head = if t.is_kind(c, BINARY_OPERATOR) {
                t.child_by_field_name(c, "left")
            } else {
                Some(c)
            };
            match head {
                Some(h) => {
                    if t.is_kind(h, IDENTIFIER) {
                        return owned(t.text(h));
                    }
                    if t.is_kind(h, CALL) {
                        match t.child_by_field_name(h, "target") {
                            Some(g) => {
                                return owned(t.text(g));
                            },
                            None => {},
                        }
                    }
                },
                None => {},
            }
            k = k + 1;
        }
        owned(UNKNOWN)
    }
}

impl Default for Elixir {
    fn default() -> (r: Self)
        ensures
            r.class_query@ == CLASS_QUERY@,
            r.function_declaration_query@ == FUNCTION_DECLARATION_QUERY@,
            r.field_query@ == FIELD_QUERY@,
    {
        Elixir {
            class_query: owned(CLASS_QUERY),
            function_declaration_query: owned(FUNCTION_DECLARATION_QUERY),
            field_query: owned(FIELD_QUERY),
        }
    }
}

/// The kinds that Elixir's dispatch makes up for nodes that the grammar
/// gives a shared kind.
pub open spec fn synthetic_kinds() -> Seq<Seq<char>> {
    seq![
        DEFINITION@,
        DEFINITION_HEAD@,
        CONDITIONAL@,
        BRANCH@,
        COMPREHENSION@,
        TRY@,
        BOOLEAN_BINARY@,
        CASE_CLAUSE@,
        STAB_CLAUSE@,
        ATTRIBUTE_NAME@,
        TYPE_DECLARATION@,
        KEYWORD_ELSE@,
        SECOND_CLAUSE_HEAD@,
        LATER_CLAUSE_HEAD@,
    ]
}

/// Whether a kind carries the prefix no grammar kind has.
pub open spec fn is_namespaced(kind: Seq<char>) -> bool {
    kind.len() >= 9 && kind.take(9) == "__elixir_"@
}

/// Every made-up kind carries the `__elixir_` prefix, so it cannot collide
/// with a kind of the grammar.
pub proof fn law_synthetic_kinds_are_namespaced()
    ensures
        forall|i: int| 0 <= i < synthetic_kinds().len() ==> is_namespaced(#[trigger] synthetic_kinds()[i]),
{
    reveal_strlit("__elixir_");
    reveal_strlit("__elixir_definition");
    reveal_strlit("__elixir_definition_head");
    reveal_strlit("__elixir_conditional");
    reveal_strlit("__elixir_branch");
    reveal_strlit("__elixir_comprehension");
    reveal_strlit("__elixir_try");
    reveal_strlit("__elixir_boolean_binary");
    reveal_strlit("__elixir_case_clause");
    reveal_strlit("__elixir_stab_clause");
    reveal_strlit("__elixir_attribute_name");
    reveal_strlit("__elixir_type_declaration");
    reveal_strlit("__elixir_keyword_else");
    reveal_strlit("__elixir_second_clause_head");
    reveal_strlit("__elixir_later_clause_head");
    assert forall|i: int| 0 <= i < synthetic_kinds().len() implies is_namespaced(
        #[trigger] synthetic_kinds()[i],
    ) by {
        assert(synthetic_kinds()[i].take(9) =~= "__elixir_"@);
    }
}

/// Dispatch reads a node either as the grammar's kind or as one of the
/// made-up kinds.
pub proof fn law_dispatch_is_grammar_or_synthetic(t: SyntaxTree, n: int)
    ensures
        dispatch_kind(t, n) == t.kind_of(n) || synthetic_kinds().contains(dispatch_kind(t, n)),
{
    let s = synthetic_kinds();
    assert(s[0] == DEFINITION@);
    assert(s[1] == DEFINITION_HEAD@);
    assert(s[2] == CONDITIONAL@);
    assert(s[3] == BRANCH@);
    assert(s[4] == COMPREHENSION@);
    assert(s[5] == TRY@);
    assert(s[6] == BOOLEAN_BINARY@);
    assert(s[7] == CASE_CLAUSE@);
    assert(s[8] == STAB_CLAUSE@);
    assert(s[9] == ATTRIBUTE_NAME@);
    assert(s[10] == TYPE_DECLARATION@);
    assert(s[11] == KEYWORD_ELSE@);
    assert(s[12] == SECOND_CLAUSE_HEAD@);
    assert(s[13] == LATER_CLAUSE_HEAD@);
}

} // verus!
