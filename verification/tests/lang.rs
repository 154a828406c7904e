use qlty::lang::c::C;
use qlty::lang::c_sharp::CSharp;
use qlty::lang::cpp::Cpp;
use qlty::lang::elixir::{self as ex, preceding_clause_count, Elixir};
use qlty::lang::scala::Scala;
use qlty::lang::syntax::{SyntaxNode, SyntaxTree};
use qlty::lang::vbnet::VBNet;
use qlty::lang::{from_str, Language};
use std::collections::HashSet;

/// Builds syntax trees node by node, parents first.
struct Builder {
    nodes: Vec<SyntaxNode>,
}

impl Builder {
    fn new(kind: &str, text: &str) -> Builder {
        let mut b = Builder { nodes: vec![] };
        b.push(None, kind, text, true);
        b
    }

    fn push(&mut self, parent: Option<usize>, kind: &str, text: &str, named: bool) -> usize {
        let id = self.nodes.len();
        self.nodes.push(SyntaxNode {
            kind: kind.to_string(),
            text: text.to_string(),
            named,
            parent,
            children: vec![],
            fields: vec![],
        });
        if let Some(p) = parent {
            self.nodes[p].children.push(id);
        }
        id
    }

    fn child(&mut self, parent: usize, kind: &str, text: &str) -> usize {
        self.push(Some(parent), kind, text, true)
    }

    fn token(&mut self, parent: usize, kind: &str, text: &str) -> usize {
        self.push(Some(parent), kind, text, false)
    }

    fn field(&mut self, parent: usize, name: &str, kind: &str, text: &str) -> usize {
        let id = self.child(parent, kind, text);
        self.nodes[parent].fields.push((name.to_string(), id));
        id
    }

    fn tree(self) -> SyntaxTree {
        SyntaxTree { nodes: self.nodes }
    }
}

fn all_kinds(lang: Language) -> Vec<&'static str> {
    let mut kinds: Vec<&'static str> = vec![];
    kinds.extend(lang.if_nodes());
    kinds.extend(lang.switch_nodes());
    kinds.extend(lang.case_nodes());
    kinds.extend(lang.ternary_nodes());
    kinds.extend(lang.loop_nodes());
    kinds.extend(lang.except_nodes());
    kinds.extend(lang.try_expression_nodes());
    kinds.extend(lang.return_nodes());
    kinds.extend(lang.binary_nodes());
    kinds.extend(lang.field_nodes());
    kinds.extend(lang.call_nodes());
    kinds.extend(lang.function_nodes());
    kinds.extend(lang.closure_nodes());
    kinds.extend(lang.comment_nodes());
    kinds.extend(lang.string_nodes());
    kinds.extend(lang.boolean_operator_nodes());
    kinds.extend(lang.block_nodes());
    kinds
}

fn assert_unique(kinds: Vec<&'static str>) {
    let unique: HashSet<_> = kinds.iter().cloned().collect();
    assert_eq!(unique.len(), kinds.len());
}

#[test]
fn elixir_registered_in_all_langs() {
    assert_eq!(from_str("elixir").unwrap().name(), "elixir");
}

#[test]
fn scala_registered_in_all_langs() {
    let language = from_str("scala").unwrap();
    assert_eq!(language.name(), "scala");
}

#[test]
fn every_language_is_found_by_its_name() {
    for lang in [
        Language::C,
        Language::CSharp,
        Language::Cpp,
        Language::Elixir,
        Language::Scala,
        Language::VBNet,
    ] {
        assert_eq!(from_str(lang.name()), Some(lang));
    }
    assert_eq!(from_str("cobol"), None);
}

#[test]
fn c_mutually_exclusive() {
    let lang = Language::C;
    let mut kinds = all_kinds(lang);
    kinds.extend(lang.jump_nodes());
    assert_unique(kinds);
}

#[test]
fn cpp_mutually_exclusive() {
    let lang = Language::Cpp;
    let mut kinds = all_kinds(lang);
    kinds.extend(lang.conditional_assignment_nodes());
    kinds.extend(lang.jump_nodes());
    assert_unique(kinds);
}

#[test]
fn elixir_mutually_exclusive() {
    let lang = Language::Elixir;
    let mut kinds = all_kinds(lang);
    kinds.extend(lang.elsif_nodes());
    kinds.extend(lang.else_nodes());
    kinds.extend(lang.conditional_assignment_nodes());
    kinds.extend(lang.jump_nodes());
    assert_unique(kinds);
}

#[test]
fn scala_mutually_exclusive() {
    let lang = Language::Scala;
    let mut kinds = all_kinds(lang);
    kinds.extend(lang.else_nodes());
    kinds.extend(lang.conditional_assignment_nodes());
    assert_unique(kinds);
}

#[test]
fn vbnet_mutually_exclusive() {
    let lang = Language::VBNet;
    let mut kinds = all_kinds(lang);
    kinds.extend(lang.elsif_nodes());
    kinds.extend(lang.jump_nodes());
    assert_unique(kinds);
}

#[test]
fn constructor_names_includes_new() {
    assert!(Language::VBNet.constructor_names().contains(&"New"));
}

#[test]
fn normalize_identifier_lowercases() {
    let lang = VBNet::default();
    assert_eq!(lang.normalize_identifier("DoWork"), "dowork");
    assert_eq!(lang.normalize_identifier("Me"), "me");
    assert_eq!(lang.normalize_identifier("value"), "value");
}

#[test]
fn language_tables() {
    assert_eq!(Language::C.loop_nodes(), vec!["for_statement", "while_statement", "do_statement"]);
    assert_eq!(Language::Cpp.self_keyword(), Some("this"));
    assert_eq!(Language::Elixir.self_keyword(), None);
    assert!(Language::C.has_labeled_jumps());
    assert!(!Language::Scala.has_labeled_jumps());
    assert!(Language::Elixir.has_field_names());
    assert_eq!(Language::Scala.iterator_method_identifiers().len(), 22);
    assert_eq!(Language::VBNet.invisible_container_nodes().len(), 18);
    assert_eq!(Language::CSharp.name(), "c#");
}

// C: `void main() { foo(); }` and `obj.func()`.
#[test]
fn call_identifier() {
    let mut b = Builder::new("call_expression", "foo()");
    b.field(0, "function", "identifier", "foo");
    b.field(0, "arguments", "argument_list", "()");
    assert_eq!(C::default().call_identifiers(&b.tree(), 0), (None, "foo".to_string()));
}

#[test]
fn call_member() {
    let mut b = Builder::new("call_expression", "obj.func()");
    let f = b.field(0, "function", "field_expression", "obj.func");
    b.field(f, "argument", "identifier", "obj");
    b.field(f, "field", "field_identifier", "func");
    assert_eq!(
        C::default().call_identifiers(&b.tree(), 0),
        (Some("obj".to_string()), "func".to_string())
    );
}

#[test]
fn field_identifier_read() {
    let mut b = Builder::new("field_expression", "obj.foo");
    b.field(0, "argument", "identifier", "obj");
    b.field(0, "field", "field_identifier", "foo");
    assert_eq!(
        C::default().field_identifiers(&b.tree(), 0),
        ("obj".to_string(), "foo".to_string())
    );
}

#[test]
fn nested_field_access() {
    let mut b = Builder::new("field_expression", "obj.nested.field");
    let inner = b.field(0, "argument", "field_expression", "obj.nested");
    b.field(inner, "argument", "identifier", "obj");
    b.field(inner, "field", "field_identifier", "nested");
    b.field(0, "field", "field_identifier", "field");
    assert_eq!(
        C::default().field_identifiers(&b.tree(), 0),
        ("nested".to_string(), "field".to_string())
    );
}

#[test]
fn c_function_name_is_the_innermost_declarator() {
    let mut b = Builder::new("function_definition", "int *f(void) {}");
    let ptr = b.field(0, "declarator", "pointer_declarator", "*f(void)");
    let fun = b.field(ptr, "declarator", "function_declarator", "f(void)");
    let name = b.field(fun, "declarator", "identifier", "f");
    assert_eq!(C::default().function_name_node(&b.tree(), 0), name);
}

#[test]
fn call_identifier_simple() {
    let mut b = Builder::new("call_expression", "foo()");
    b.field(0, "function", "identifier", "foo");
    assert_eq!(
        Cpp::default().call_identifiers(&b.tree(), 0),
        (Some("this".to_string()), "foo".to_string())
    );
}

#[test]
fn call_identifier_method() {
    let mut b = Builder::new("call_expression", "obj.method()");
    let f = b.field(0, "function", "field_expression", "obj.method");
    b.field(f, "argument", "identifier", "obj");
    b.field(f, "field", "field_identifier", "method");
    assert_eq!(
        Cpp::default().call_identifiers(&b.tree(), 0),
        (Some("obj".to_string()), "method".to_string())
    );
}

#[test]
fn call_identifier_arrow() {
    let mut b = Builder::new("call_expression", "ptr->method()");
    let f = b.field(0, "function", "field_expression", "ptr->method");
    b.field(f, "argument", "identifier", "ptr");
    b.field(f, "field", "field_identifier", "method");
    assert_eq!(
        Cpp::default().call_identifiers(&b.tree(), 0),
        (Some("ptr".to_string()), "method".to_string())
    );
}

#[test]
fn field_identifier_dot() {
    let mut b = Builder::new("field_expression", "obj.field");
    b.field(0, "argument", "identifier", "obj");
    b.field(0, "field", "field_identifier", "field");
    assert_eq!(
        Cpp::default().field_identifiers(&b.tree(), 0),
        ("obj".to_string(), "field".to_string())
    );
}

#[test]
fn field_identifier_arrow() {
    let mut b = Builder::new("field_expression", "ptr->field");
    b.field(0, "argument", "identifier", "ptr");
    b.field(0, "field", "field_identifier", "field");
    assert_eq!(
        Cpp::default().field_identifiers(&b.tree(), 0),
        ("ptr".to_string(), "field".to_string())
    );
}

#[test]
fn csharp_receivers() {
    let mut b = Builder::new("method_invocation", "Foo()");
    b.field(0, "name", "identifier", "Foo");
    assert_eq!(
        CSharp::default().call_identifiers(&b.tree(), 0),
        (Some("this".to_string()), "Foo".to_string())
    );
    let mut b = Builder::new("method_invocation", "a.b.Run()");
    let obj = b.field(0, "object", "field_access", "a.b");
    b.field(obj, "object", "identifier", "a");
    b.field(obj, "field", "identifier", "b");
    b.field(0, "name", "identifier", "Run");
    assert_eq!(
        CSharp::default().call_identifiers(&b.tree(), 0),
        (Some("b".to_string()), "Run".to_string())
    );
    let t = Builder::new("binary_expression", "a + b").tree();
    assert_eq!(
        CSharp::default().call_identifiers(&t, 0),
        (Some("<UNKNOWN>".to_string()), "<UNKNOWN>".to_string())
    );
    assert!(CSharp::default().is_jump_label(&Builder::new("identifier", "done").tree(), 0));
}

#[test]
fn scala_calls() {
    let mut b = Builder::new("call_expression", "foo(1)");
    b.field(0, "function", "identifier", "foo");
    assert_eq!(
        Scala::default().call_identifiers(&b.tree(), 0),
        (Some(String::new()), "foo".to_string())
    );
    let mut b = Builder::new("call_expression", "list.map(f)");
    let f = b.field(0, "function", "field_expression", "list.map");
    b.field(f, "value", "identifier", "list");
    b.field(f, "field", "identifier", "map");
    assert_eq!(
        Scala::default().call_identifiers(&b.tree(), 0),
        (Some("list".to_string()), "map".to_string())
    );
    let mut b = Builder::new("function_definition", "def this() = this(1)");
    let first = b.token(0, "def", "def");
    assert_eq!(Scala::default().function_name_node(&b.tree(), 0), first);
}

#[test]
fn call_identifier_me_member() {
    let mut b = Builder::new("invocation", "Me.DoSomething()");
    let target = b.field(0, "target", "member_access", "Me.DoSomething");
    let obj = b.field(target, "object", "expression", "Me");
    b.child(obj, "me_expression", "Me");
    b.field(target, "member", "identifier", "DoSomething");
    assert_eq!(
        VBNet::default().call_identifiers(&b.tree(), 0),
        (Some("Me".to_string()), "DoSomething".to_string())
    );
}

#[test]
fn field_identifier_me_member() {
    let mut b = Builder::new("member_access", "Me.Value");
    let obj = b.field(0, "object", "expression", "Me");
    b.child(obj, "me_expression", "Me");
    b.field(0, "member", "identifier", "Value");
    assert_eq!(
        VBNet::default().field_identifiers(&b.tree(), 0),
        ("Me".to_string(), "Value".to_string())
    );
}

#[test]
fn function_name_node_returns_method_name() {
    let mut b = Builder::new("method_declaration", "Public Sub DoWork()\nEnd Sub");
    let name = b.field(0, "name", "identifier", "DoWork");
    b.field(0, "parameters", "parameter_list", "()");
    let t = b.tree();
    let lang = VBNet::default();
    assert_eq!(lang.function_name_node(&t, 0), name);
    assert_eq!(lang.function_name_from_node(&t, 0), "DoWork");
    let mut b = Builder::new("constructor_declaration", "Public Sub New()\nEnd Sub");
    let params = b.field(0, "parameters", "parameter_list", "()");
    let t = b.tree();
    assert_eq!(lang.function_name_node(&t, 0), params);
    assert_eq!(lang.function_name_from_node(&t, 0), "New");
}

/// `if x, do: 1, else: 2` (or another macro in place of `if`): the call,
/// its keyword pairs, and the numbers of the call and of the `else:` pair.
fn keyword_call(target: &str, else_key: &str) -> (SyntaxTree, usize, usize) {
    let mut b = Builder::new("source", "");
    let call = b.child(0, "call", "");
    b.field(call, "target", "identifier", target);
    let args = b.child(call, "arguments", "");
    b.child(args, "identifier", "x");
    let keywords = b.child(args, "keywords", "");
    let do_pair = b.child(keywords, "pair", "do: 1");
    b.field(do_pair, "key", "keyword", "do: ");
    b.field(do_pair, "value", "integer", "1");
    let else_pair = b.child(keywords, "pair", "else: 2");
    b.field(else_pair, "key", "keyword", else_key);
    b.field(else_pair, "value", "integer", "2");
    (b.tree(), call, else_pair)
}

#[test]
fn classifies_if_as_conditional() {
    let (t, call, _) = keyword_call("if", "else: ");
    assert_eq!(Elixir::default().dispatch_node_kind(&t, call), ex::CONDITIONAL);
}

#[test]
fn keyword_form_else_is_an_else() {
    let (t, _, pair) = keyword_call("if", "else: ");
    assert_eq!(Elixir::default().dispatch_node_kind(&t, pair), ex::KEYWORD_ELSE);
    let (t, _, pair) = keyword_call("unless", "else:\n");
    assert_eq!(Elixir::default().dispatch_node_kind(&t, pair), ex::KEYWORD_ELSE);
}

#[test]
fn an_ordinary_else_keyword_is_not_an_else() {
    let (t, call, pair) = keyword_call("config", "else: ");
    assert_eq!(Elixir::default().dispatch_node_kind(&t, pair), "pair");
    assert_eq!(Elixir::default().dispatch_node_kind(&t, call), "call");
}

#[test]
fn branches_loops_and_tries_are_classified() {
    for (target, kind) in [
        ("case", ex::BRANCH),
        ("cond", ex::BRANCH),
        ("receive", ex::BRANCH),
        ("for", ex::COMPREHENSION),
        ("try", ex::TRY),
        ("defp", ex::DEFINITION),
    ] {
        let (t, call, _) = keyword_call(target, "else: ");
        assert_eq!(Elixir::default().dispatch_node_kind(&t, call), kind);
    }
}

#[test]
fn boolean_binary_is_remapped_and_arithmetic_is_not() {
    for (op, kind) in [("&&", ex::BOOLEAN_BINARY), ("and", ex::BOOLEAN_BINARY), ("+", "binary_operator")] {
        let mut b = Builder::new("binary_operator", "");
        b.field(0, "left", "identifier", "a");
        b.field(0, "operator", op, op);
        b.field(0, "right", "identifier", "b");
        assert_eq!(Elixir::default().dispatch_node_kind(&b.tree(), 0), kind);
    }
}

#[test]
fn case_arms_are_case_clauses() {
    let mut b = Builder::new("do_block", "");
    let arm = b.child(0, "stab_clause", "1 -> :a");
    let mut f = Builder::new("anonymous_function", "");
    let clause = f.child(0, "stab_clause", "x -> x");
    assert_eq!(Elixir::default().dispatch_node_kind(&b.tree(), arm), ex::CASE_CLAUSE);
    assert_eq!(Elixir::default().dispatch_node_kind(&f.tree(), clause), ex::STAB_CLAUSE);
}

/// `@spec map(list) :: list` and `@timeout 5000` as module attributes.
#[test]
fn typespec_body_is_a_type_declaration_not_a_call() {
    let mut b = Builder::new("unary_operator", "@spec map(list) :: list");
    b.field(0, "operator", "@", "@");
    let operand = b.field(0, "operand", "call", "spec map(list) :: list");
    b.field(operand, "target", "identifier", "spec");
    let args = b.child(operand, "arguments", "");
    let op = b.child(args, "binary_operator", "map(list) :: list");
    let inner = b.field(op, "left", "call", "map(list)");
    b.field(inner, "target", "identifier", "map");
    let t = b.tree();
    let lang = Elixir::default();
    assert_eq!(lang.dispatch_node_kind(&t, operand), ex::ATTRIBUTE_NAME);
    assert_eq!(lang.dispatch_node_kind(&t, inner), ex::TYPE_DECLARATION);
}

#[test]
fn calls_in_an_attribute_value_are_still_calls() {
    let mut b = Builder::new("unary_operator", "@timeout compute()");
    b.field(0, "operator", "@", "@");
    let operand = b.field(0, "operand", "call", "timeout compute()");
    b.field(operand, "target", "identifier", "timeout");
    let args = b.child(operand, "arguments", "");
    let inner = b.child(args, "call", "compute()");
    b.field(inner, "target", "identifier", "compute");
    assert_eq!(Elixir::default().dispatch_node_kind(&b.tree(), inner), "call");
}

/// `defmodule M do def f(0) ... end` with the given clauses, each a name
/// and its arguments, preceded by attributes where a name starts with `@`.
fn module(clauses: &[(&str, usize)]) -> (SyntaxTree, Vec<usize>, Vec<usize>) {
    let mut b = Builder::new("source", "");
    let m = b.child(0, "call", "defmodule M do ... end");
    b.field(m, "target", "identifier", "defmodule");
    let margs = b.child(m, "arguments", "");
    b.child(margs, "alias", "M");
    let body = b.child(m, "do_block", "");
    b.token(body, "do", "do");
    let mut defs = vec![];
    let mut heads = vec![];
    for (name, arity) in clauses {
        if let Some(attr) = name.strip_prefix('@') {
            let a = b.child(body, "unary_operator", name);
            b.field(a, "operator", "@", "@");
            let operand = b.field(a, "operand", "call", attr);
            b.field(operand, "target", "identifier", attr);
            continue;
        }
        let def = b.child(body, "call", "def");
        b.field(def, "target", "identifier", "def");
        let dargs = b.child(def, "arguments", "");
        let head = b.child(dargs, "call", name);
        b.field(head, "target", "identifier", name);
        let hargs = b.child(head, "arguments", "");
        for k in 0..*arity {
            b.child(hargs, "identifier", &format!("a{}", k));
        }
        defs.push(def);
        heads.push(head);
    }
    (b.tree(), defs, heads)
}

#[test]
fn later_clauses_of_the_same_function_are_numbered() {
    let (t, defs, heads) = module(&[("f", 1), ("f", 1), ("f", 1)]);
    assert_eq!(preceding_clause_count(&t, defs[0]), 0);
    assert_eq!(preceding_clause_count(&t, defs[1]), 1);
    assert_eq!(preceding_clause_count(&t, defs[2]), 2);
    let lang = Elixir::default();
    assert_eq!(lang.dispatch_node_kind(&t, heads[0]), ex::DEFINITION_HEAD);
    assert_eq!(lang.dispatch_node_kind(&t, heads[1]), ex::SECOND_CLAUSE_HEAD);
    assert_eq!(lang.dispatch_node_kind(&t, heads[2]), ex::LATER_CLAUSE_HEAD);
    assert_eq!(lang.dispatch_node_kind(&t, defs[0]), ex::DEFINITION);
}

#[test]
fn clauses_are_grouped_across_interleaved_attributes() {
    let (t, defs, _) = module(&[("@doc", 0), ("f", 1), ("@spec", 0), ("f", 1)]);
    assert_eq!(preceding_clause_count(&t, defs[1]), 1);
}

#[test]
fn a_different_arity_is_a_different_function() {
    let (t, defs, _) = module(&[("f", 1), ("f", 2)]);
    assert_eq!(preceding_clause_count(&t, defs[1]), 0);
}

#[test]
fn a_different_name_is_a_different_function() {
    let (t, defs, _) = module(&[("f", 1), ("g", 1)]);
    assert_eq!(preceding_clause_count(&t, defs[1]), 0);
}

#[test]
fn local_call_has_no_receiver() {
    let mut b = Builder::new("call", "foo(1)");
    b.field(0, "target", "identifier", "foo");
    assert_eq!(
        Elixir::default().call_identifiers(&b.tree(), 0),
        (None, "foo".to_string())
    );
}

#[test]
fn qualified_call_has_receiver() {
    let mut b = Builder::new("call", "Enum.map(l, f)");
    let dot = b.field(0, "target", "dot", "Enum.map");
    b.field(dot, "left", "alias", "Enum");
    b.field(dot, "right", "identifier", "map");
    assert_eq!(
        Elixir::default().call_identifiers(&b.tree(), 0),
        (Some("Enum".to_string()), "map".to_string())
    );
}

#[test]
fn function_name_from_guarded_definition() {
    let mut b = Builder::new("call", "def f(x) when x > 0, do: x");
    b.field(0, "target", "identifier", "def");
    let args = b.child(0, "arguments", "");
    let guard = b.child(args, "binary_operator", "f(x) when x > 0");
    let head = b.field(guard, "left", "call", "f(x)");
    b.field(head, "target", "identifier", "f");
    assert_eq!(Elixir::default().function_name_from_node(&b.tree(), 0), "f");
    let mut b = Builder::new("call", "def f, do: 1");
    b.field(0, "target", "identifier", "def");
    let args = b.child(0, "arguments", "");
    b.child(args, "identifier", "f");
    assert_eq!(Elixir::default().function_name_from_node(&b.tree(), 0), "f");
    let t = Builder::new("call", "").tree();
    assert_eq!(Elixir::default().function_name_from_node(&t, 0), "<UNKNOWN>");
}

impl Builder {
    /// An anonymous token under a field, such as the operator of a binary
    /// operator.
    fn token_field(&mut self, parent: usize, name: &str, kind: &str) -> usize {
        let id = self.token(parent, kind, kind);
        self.nodes[parent].fields.push((name.to_string(), id));
        id
    }

    /// A call of `target` with an argument list; gives the call and the list.
    fn call(&mut self, parent: usize, target: &str) -> (usize, usize) {
        let call = self.child(parent, "call", "");
        self.field(call, "target", "identifier", target);
        let args = self.child(call, "arguments", "");
        (call, args)
    }

    /// `key: value` as a pair in the keyword list `keywords`.
    fn pair(&mut self, keywords: usize, key: &str, kind: &str, value: &str) -> usize {
        let pair = self.child(keywords, "pair", "");
        self.field(pair, "key", "keyword", key);
        self.field(pair, "value", kind, value);
        pair
    }

    /// `left -> right` as a stab clause under `parent`.
    fn stab(&mut self, parent: usize, left: &str, right: &str) -> usize {
        let clause = self.child(parent, "stab_clause", "");
        let args = self.field(clause, "left", "arguments", "");
        self.child(args, "identifier", left);
        self.token_field(clause, "operator", "->");
        let body = self.field(clause, "right", "body", "");
        self.child(body, "identifier", right);
        clause
    }

    /// `@name` applied to a call of `name`; gives the attribute's argument
    /// list.
    fn attribute(&mut self, parent: usize, name: &str) -> usize {
        let attribute = self.child(parent, "unary_operator", "");
        self.token_field(attribute, "operator", "@");
        let operand = self.field(attribute, "operand", "call", name);
        self.field(operand, "target", "identifier", name);
        self.child(operand, "arguments", "")
    }
}

/// The kinds that dispatch gives every named node, in source order.
fn dispatch_kinds(t: &SyntaxTree) -> Vec<String> {
    let mut kinds = vec![];
    collect_dispatch_kinds(t, 0, &mut kinds);
    kinds
}

fn collect_dispatch_kinds(t: &SyntaxTree, n: usize, kinds: &mut Vec<String>) {
    if t.nodes[n].named {
        kinds.push(Elixir::default().dispatch_node_kind(t, n).to_string());
    }
    for c in t.nodes[n].children.clone() {
        collect_dispatch_kinds(t, c, kinds);
    }
}

fn count_of(kinds: &[String], kind: &str) -> usize {
    kinds.iter().filter(|k| k.as_str() == kind).count()
}

/// The clause number of the `k`-th definition, in source order.
fn clause_index(t: &SyntaxTree, k: usize) -> usize {
    let mut found = vec![];
    definition_nodes(t, 0, &mut found);
    preceding_clause_count(t, found[k])
}

fn definition_nodes(t: &SyntaxTree, n: usize, found: &mut Vec<usize>) {
    if t.nodes[n].named && Elixir::default().dispatch_node_kind(t, n) == ex::DEFINITION {
        found.push(n);
    }
    for c in t.nodes[n].children.clone() {
        definition_nodes(t, c, found);
    }
}

/// `case x do 1 -> :a; _ -> :b end`.
fn case_expression() -> SyntaxTree {
    let mut b = Builder::new("source", "");
    let (call, args) = b.call(0, "case");
    b.child(args, "identifier", "x");
    let block = b.child(call, "do_block", "");
    b.stab(block, "1", ":a");
    b.stab(block, "_", ":b");
    b.tree()
}

#[test]
fn synthetic_kinds_are_namespaced() {
    let synthetic = [
        ex::DEFINITION,
        ex::DEFINITION_HEAD,
        ex::CONDITIONAL,
        ex::BRANCH,
        ex::COMPREHENSION,
        ex::TRY,
        ex::BOOLEAN_BINARY,
        ex::CASE_CLAUSE,
        ex::STAB_CLAUSE,
        ex::ATTRIBUTE_NAME,
        ex::TYPE_DECLARATION,
    ];
    assert!(synthetic.iter().all(|kind| kind.starts_with("__elixir_")));
}

#[test]
fn classifies_case_as_branch() {
    assert!(dispatch_kinds(&case_expression()).contains(&ex::BRANCH.to_string()));
}

#[test]
fn classifies_def_as_definition() {
    let mut b = Builder::new("source", "def f, do: 1");
    let (_, args) = b.call(0, "def");
    b.child(args, "identifier", "f");
    let keywords = b.child(args, "keywords", "");
    b.pair(keywords, "do: ", "integer", "1");
    assert!(dispatch_kinds(&b.tree()).contains(&ex::DEFINITION.to_string()));
}

#[test]
fn classifies_defmodule_as_plain_call() {
    let mut b = Builder::new("source", "defmodule M do\nend");
    let (call, args) = b.call(0, "defmodule");
    b.child(args, "alias", "M");
    b.child(call, "do_block", "");
    assert!(dispatch_kinds(&b.tree()).contains(&"call".to_string()));
}

/// `Enum.map(list, fn x -> x end)`.
fn qualified_map_call() -> SyntaxTree {
    let mut b = Builder::new("source", "");
    let call = b.child(0, "call", "");
    let dot = b.field(call, "target", "dot", "Enum.map");
    b.field(dot, "left", "alias", "Enum");
    b.token_field(dot, "operator", ".");
    b.field(dot, "right", "identifier", "map");
    let args = b.child(call, "arguments", "");
    b.child(args, "identifier", "list");
    let function = b.child(args, "anonymous_function", "");
    b.stab(function, "x", "x");
    b.tree()
}

#[test]
fn classifies_qualified_call_as_plain_call() {
    assert!(dispatch_kinds(&qualified_map_call()).contains(&"call".to_string()));
}

/// `def a(x), do: x`, or with a guard `when is_integer(x)`.
fn definition(guarded: bool) -> SyntaxTree {
    let mut b = Builder::new("source", "");
    let (_, args) = b.call(0, "def");
    let head_parent = if guarded {
        let guard = b.child(args, "binary_operator", "");
        let head = b.field(guard, "left", "call", "a(x)");
        b.field(head, "target", "identifier", "a");
        let head_args = b.child(head, "arguments", "");
        b.child(head_args, "identifier", "x");
        b.token_field(guard, "operator", "when");
        let check = b.field(guard, "right", "call", "is_integer(x)");
        b.field(check, "target", "identifier", "is_integer");
        let check_args = b.child(check, "arguments", "");
        b.child(check_args, "identifier", "x");
        None
    } else {
        Some(args)
    };
    if let Some(args) = head_parent {
        let (_, head_args) = b.call(args, "a");
        b.child(head_args, "identifier", "x");
    }
    let keywords = b.child(args, "keywords", "");
    b.pair(keywords, "do: ", "identifier", "x");
    b.tree()
}

#[test]
fn definition_head_is_not_a_call() {
    let kinds = dispatch_kinds(&definition(false));
    assert!(kinds.contains(&ex::DEFINITION_HEAD.to_string()));
    assert!(!kinds.contains(&"call".to_string()));
}

#[test]
fn guarded_definition_head_is_not_a_call_but_the_guard_is() {
    let kinds = dispatch_kinds(&definition(true));
    assert!(kinds.contains(&ex::DEFINITION_HEAD.to_string()));
    assert!(kinds.contains(&"call".to_string()));
}

#[test]
fn anonymous_function_clauses_are_not_case_clauses() {
    let kinds = dispatch_kinds(&qualified_map_call());
    assert!(kinds.contains(&ex::STAB_CLAUSE.to_string()));
    assert!(!kinds.contains(&ex::CASE_CLAUSE.to_string()));
}

#[test]
fn rescue_and_catch_clauses_are_not_case_clauses() {
    let mut b = Builder::new("source", "");
    let call = b.child(0, "call", "");
    b.field(call, "target", "identifier", "try");
    let block = b.child(call, "do_block", "");
    b.call(block, "a");
    let rescue = b.child(call, "rescue_block", "");
    b.stab(rescue, "e", "e");
    let catch = b.child(call, "catch_block", "");
    b.stab(catch, "e", "e");
    let kinds = dispatch_kinds(&b.tree());
    assert_eq!(2, count_of(&kinds, ex::STAB_CLAUSE));
    assert!(!kinds.contains(&ex::CASE_CLAUSE.to_string()));
}

#[test]
fn with_else_arms_are_case_clauses() {
    let mut b = Builder::new("source", "");
    let (call, args) = b.call(0, "with");
    let binding = b.child(args, "binary_operator", "");
    b.field(binding, "left", "tuple", "{:ok, a}");
    b.token_field(binding, "operator", "<-");
    let right = b.field(binding, "right", "call", "f()");
    b.field(right, "target", "identifier", "f");
    let block = b.child(call, "do_block", "");
    b.child(block, "identifier", "a");
    let otherwise = b.child(call, "else_block", "");
    b.stab(otherwise, "_", ":err");
    assert!(dispatch_kinds(&b.tree()).contains(&ex::CASE_CLAUSE.to_string()));
}

#[test]
fn receive_after_arms_are_case_clauses() {
    let mut b = Builder::new("source", "");
    let call = b.child(0, "call", "");
    b.field(call, "target", "identifier", "receive");
    let block = b.child(call, "do_block", "");
    b.stab(block, "x", "x");
    let after = b.child(call, "after_block", "");
    b.stab(after, "1000", ":timeout");
    assert_eq!(2, count_of(&dispatch_kinds(&b.tree()), ex::CASE_CLAUSE));
}

#[test]
fn callback_body_is_a_type_declaration_not_a_call() {
    let mut b = Builder::new("source", "@callback filter(list) :: list");
    let args = b.attribute(0, "callback");
    let typed = b.child(args, "binary_operator", "");
    let head = b.field(typed, "left", "call", "filter(list)");
    b.field(head, "target", "identifier", "filter");
    let head_args = b.child(head, "arguments", "");
    b.child(head_args, "identifier", "list");
    b.token_field(typed, "operator", "::");
    b.field(typed, "right", "identifier", "list");
    let kinds = dispatch_kinds(&b.tree());
    assert!(kinds.contains(&ex::TYPE_DECLARATION.to_string()));
    assert!(!kinds.contains(&"call".to_string()));
}

#[test]
fn attribute_name_is_not_a_call() {
    let mut b = Builder::new("source", "@map %{a: 1}");
    let args = b.attribute(0, "map");
    let map = b.child(args, "map", "%{a: 1}");
    let content = b.child(map, "map_content", "a: 1");
    let keywords = b.child(content, "keywords", "a: 1");
    b.pair(keywords, "a: ", "integer", "1");
    let kinds = dispatch_kinds(&b.tree());
    assert!(kinds.contains(&ex::ATTRIBUTE_NAME.to_string()));
    assert!(!kinds.contains(&"call".to_string()));
}

#[test]
fn argument_position_types_are_type_declarations() {
    let mut b = Builder::new("source", "@spec fetch(map()) :: term()");
    let args = b.attribute(0, "spec");
    let typed = b.child(args, "binary_operator", "");
    let head = b.field(typed, "left", "call", "fetch(map())");
    b.field(head, "target", "identifier", "fetch");
    let head_args = b.child(head, "arguments", "");
    b.call(head_args, "map");
    b.token_field(typed, "operator", "::");
    let result = b.field(typed, "right", "call", "term()");
    b.field(result, "target", "identifier", "term");
    b.child(result, "arguments", "");
    let kinds = dispatch_kinds(&b.tree());
    assert_eq!(0, count_of(&kinds, "call"));
    assert_eq!(3, count_of(&kinds, ex::TYPE_DECLARATION));
}

#[test]
fn nested_types_inside_a_type_declaration_are_type_declarations() {
    let mut b = Builder::new("source", "@type t :: %{a: map(), b: [map()]}");
    let args = b.attribute(0, "type");
    let typed = b.child(args, "binary_operator", "");
    b.field(typed, "left", "identifier", "t");
    b.token_field(typed, "operator", "::");
    let map = b.field(typed, "right", "map", "%{a: map(), b: [map()]}");
    let content = b.child(map, "map_content", "");
    let keywords = b.child(content, "keywords", "");
    let a = b.child(keywords, "pair", "");
    b.field(a, "key", "keyword", "a: ");
    let a_value = b.field(a, "value", "call", "map()");
    b.field(a_value, "target", "identifier", "map");
    let second = b.child(keywords, "pair", "");
    b.field(second, "key", "keyword", "b: ");
    let list = b.field(second, "value", "list", "[map()]");
    b.call(list, "map");
    assert!(!dispatch_kinds(&b.tree()).contains(&"call".to_string()));
}

#[test]
fn defdelegate_head_is_not_a_call() {
    let mut b = Builder::new("source", "defdelegate map(list, fun), to: Enum");
    let (_, args) = b.call(0, "defdelegate");
    let (_, head_args) = b.call(args, "map");
    b.child(head_args, "identifier", "list");
    b.child(head_args, "identifier", "fun");
    let keywords = b.child(args, "keywords", "");
    b.pair(keywords, "to: ", "alias", "Enum");
    let kinds = dispatch_kinds(&b.tree());
    assert!(kinds.contains(&ex::DEFINITION_HEAD.to_string()));
    assert_eq!(1, count_of(&kinds, "call"));
}

#[test]
fn calls_in_a_function_body_are_not_type_declarations() {
    let mut b = Builder::new("source", "");
    let (module, module_args) = b.call(0, "defmodule");
    b.child(module_args, "alias", "M");
    let module_body = b.child(module, "do_block", "");
    let (def, def_args) = b.call(module_body, "def");
    let (_, head_args) = b.call(def_args, "go");
    b.child(head_args, "identifier", "l");
    let body = b.child(def, "do_block", "");
    let call = b.child(body, "call", "");
    let dot = b.field(call, "target", "dot", "Enum.map");
    b.field(dot, "left", "alias", "Enum");
    b.field(dot, "right", "identifier", "map");
    let args = b.child(call, "arguments", "");
    b.child(args, "identifier", "l");
    let function = b.child(args, "anonymous_function", "");
    b.stab(function, "n", "n");
    let kinds = dispatch_kinds(&b.tree());
    assert!(kinds.contains(&"call".to_string()));
    assert!(!kinds.contains(&ex::TYPE_DECLARATION.to_string()));
}

#[test]
fn apply_with_computed_target_does_not_panic() {
    let mut b = Builder::new("source", "apply(m, f, a)");
    let (call, args) = b.call(0, "apply");
    for name in ["m", "f", "a"] {
        b.child(args, "identifier", name);
    }
    assert_eq!(
        (None, "apply".to_string()),
        Elixir::default().call_identifiers(&b.tree(), call)
    );
}

#[test]
fn dynamic_call_target_does_not_panic() {
    let mut b = Builder::new("source", "fun.(1)");
    let call = b.child(0, "call", "fun.(1)");
    let dot = b.field(call, "target", "dot", "fun.");
    b.field(dot, "left", "identifier", "fun");
    b.token_field(dot, "operator", ".");
    let args = b.child(call, "arguments", "(1)");
    b.child(args, "integer", "1");
    assert_eq!(
        (Some("fun".to_string()), "<UNKNOWN>".to_string()),
        Elixir::default().call_identifiers(&b.tree(), call)
    );
}

#[test]
fn function_name_from_parenthesized_definition() {
    let t = definition(false);
    assert_eq!("a", Elixir::default().function_name_from_node(&t, 1));
}

#[test]
fn function_name_from_bare_definition() {
    let mut b = Builder::new("source", "def a, do: 1");
    let (def, args) = b.call(0, "def");
    b.child(args, "identifier", "a");
    let keywords = b.child(args, "keywords", "");
    b.pair(keywords, "do: ", "integer", "1");
    assert_eq!("a", Elixir::default().function_name_from_node(&b.tree(), def));
}

#[test]
fn keyword_form_else_is_recognized_for_every_conditional() {
    let (t, _, _) = keyword_call("unless", "else: ");
    assert!(dispatch_kinds(&t).contains(&ex::KEYWORD_ELSE.to_string()));
    let mut b = Builder::new("source", "with {:ok, a} <- f(), do: a, else: (_ -> :err)");
    let (_, args) = b.call(0, "with");
    let binding = b.child(args, "binary_operator", "");
    b.field(binding, "left", "tuple", "{:ok, a}");
    b.token_field(binding, "operator", "<-");
    let right = b.field(binding, "right", "call", "f()");
    b.field(right, "target", "identifier", "f");
    let keywords = b.child(args, "keywords", "");
    b.pair(keywords, "do: ", "identifier", "a");
    let otherwise = b.child(keywords, "pair", "");
    b.field(otherwise, "key", "keyword", "else: ");
    let block = b.field(otherwise, "value", "block", "(_ -> :err)");
    b.stab(block, "_", ":err");
    assert!(dispatch_kinds(&b.tree()).contains(&ex::KEYWORD_ELSE.to_string()));
}

#[test]
fn do_keyword_is_not_an_else() {
    let mut b = Builder::new("source", "if x, do: 1");
    let (_, args) = b.call(0, "if");
    b.child(args, "identifier", "x");
    let keywords = b.child(args, "keywords", "");
    b.pair(keywords, "do: ", "integer", "1");
    assert!(!dispatch_kinds(&b.tree()).contains(&ex::KEYWORD_ELSE.to_string()));
}

/// A module `name` holding the given definitions under `parent`: each a
/// function name, its arity, and whether a `when` guard follows the head.
fn module_with(b: &mut Builder, parent: usize, name: &str, defs: &[(&str, Option<usize>, bool)]) {
    let (module, module_args) = b.call(parent, "defmodule");
    b.child(module_args, "alias", name);
    let body = b.child(module, "do_block", "");
    for (function, arity, guarded) in defs {
        let (_, args) = b.call(body, "def");
        let head_parent = if *guarded {
            let guard = b.child(args, "binary_operator", "");
            b.token_field(guard, "operator", "when");
            Some((guard, true))
        } else {
            None
        };
        match arity {
            None => {
                b.child(args, "identifier", function);
            }
            Some(n) => {
                let head = match head_parent {
                    Some((guard, _)) => b.field(guard, "left", "call", function),
                    None => b.child(args, "call", function),
                };
                b.field(head, "target", "identifier", function);
                let head_args = b.child(head, "arguments", "");
                for k in 0..*n {
                    b.child(head_args, "identifier", &format!("x{}", k));
                }
            }
        }
        if let Some((guard, _)) = head_parent {
            let check = b.field(guard, "right", "binary_operator", "x < 0");
            b.field(check, "left", "identifier", "x");
            b.token_field(check, "operator", "<");
            b.field(check, "right", "integer", "0");
        }
        let keywords = b.child(args, "keywords", "");
        b.pair(keywords, "do: ", "integer", "1");
    }
}

#[test]
fn a_single_clause_function_is_a_first_clause() {
    let mut b = Builder::new("source", "");
    module_with(&mut b, 0, "M", &[("f", Some(1), false)]);
    assert_eq!(0, clause_index(&b.tree(), 0));
}

#[test]
fn guarded_clauses_of_one_function_are_grouped() {
    let mut b = Builder::new("source", "");
    module_with(
        &mut b,
        0,
        "M",
        &[("f", Some(1), true), ("f", Some(1), true), ("f", Some(1), false)],
    );
    assert_eq!(2, clause_index(&b.tree(), 2));
}

#[test]
fn zero_arity_clauses_are_grouped() {
    let mut b = Builder::new("source", "");
    module_with(&mut b, 0, "M", &[("f", None, false), ("f", None, false)]);
    assert_eq!(1, clause_index(&b.tree(), 1));
}

#[test]
fn clauses_in_different_modules_are_not_grouped() {
    let mut b = Builder::new("source", "");
    module_with(&mut b, 0, "A", &[("f", Some(1), false)]);
    module_with(&mut b, 0, "B", &[("f", Some(1), false)]);
    assert_eq!(0, clause_index(&b.tree(), 1));
}
