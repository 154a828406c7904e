//! Languages: the syntax node kinds each one's metrics read, and what its
//! calls, field accesses and definitions name.

pub mod syntax;
pub mod c;
pub mod c_sharp;
pub mod cpp;
pub mod elixir;
pub mod scala;
pub mod vbnet;

use crate::lang::syntax::SyntaxTree;
use crate::text::{chars_of, str_eq, string_from_chars};
use vstd::prelude::*;

verus! {

/// What a name that cannot be found reads as.
pub const UNKNOWN: &'static str = "<UNKNOWN>";

/// The text of node `n`, or the unknown name without one.
pub open spec fn text_or_unknown(t: SyntaxTree, n: Option<int>) -> Seq<char> {
    match n {
        Some(x) => t.text_of(x),
        None => UNKNOWN@,
    }
}

/// A copy of `s`.
pub fn owned(s: &str) -> (r: String)
    ensures
        r@ == s@,
{
    string_from_chars(chars_of(s).as_slice())
}

/// The text of node `n`, or the unknown name without one.
pub fn source_or_unknown(t: &SyntaxTree, n: Option<usize>) -> (r: String)
    requires
        n matches Some(x) ==> t.has(x as int),
    ensures
        r@ == text_or_unknown(
            *t,
            match n {
                Some(x) => Some(x as int),
                None => None,
            },
        ),
{
    match n {
        Some(x) => owned(t.text(x)),
        None => owned(UNKNOWN),
    }
}

/// A language whose syntax trees the metrics read.
#[derive(Debug, Clone, Copy, PartialEq, Eq, Structural)]
pub enum Language {
    C,
    CSharp,
    Cpp,
    Elixir,
    Scala,
    VBNet,
}

/// A kind of construct that the metrics count.
#[derive(Debug, Clone, Copy, PartialEq, Eq, Structural)]
pub enum NodeCategory {
    /// An `if` node.
    If,
    /// An `else if` node.
    Elsif,
    /// An `else` node.
    Else,
    /// A conditional assignment.
    ConditionalAssignment,
    /// A `switch` node.
    Switch,
    /// A `case` arm node.
    Case,
    /// A ternary.
    Ternary,
    /// A loop.
    Loop,
    /// An exception handler.
    Except,
    /// A `try` node.
    TryExpression,
    /// A jump.
    Jump,
    /// A `return` node.
    Return,
    /// A binary expression.
    Binary,
    /// A boolean operator.
    BooleanOperator,
    /// A field access or declaration.
    Field,
    /// A call.
    Call,
    /// A function definition.
    Function,
    /// A closure.
    Closure,
    /// A comment.
    Comment,
    /// A string literal.
    StringLiteral,
    /// A block.
    Block,
    /// A container that metrics look through.
    InvisibleContainer,
}

/// The name of a language.
pub open spec fn language_name(l: Language) -> Seq<char> {
    match l {
        Language::C => "c"@,
        Language::CSharp => "c#"@,
        Language::Cpp => "cpp"@,
        Language::Elixir => "elixir"@,
        Language::Scala => "scala"@,
        Language::VBNet => "vbnet"@,
    }
}

/// The language named `name`, if any.
pub open spec fn language_named(name: Seq<char>) -> Option<Language> {
    if name == "c"@ {
        Some(Language::C)
    } else if name == "c#"@ {
        Some(Language::CSharp)
    } else if name == "cpp"@ {
        Some(Language::Cpp)
    } else if name == "elixir"@ {
        Some(Language::Elixir)
    } else if name == "scala"@ {
        Some(Language::Scala)
    } else if name == "vbnet"@ {
        Some(Language::VBNet)
    } else {
        None
    }
}

/// The node kinds of `category` in `lang`.
pub open spec fn node_kinds(lang: Language, category: NodeCategory) -> Seq<&'static str> {
    match (lang, category) {
        (Language::C, NodeCategory::If) => seq!["if_statement"],
        (Language::C, NodeCategory::Switch) => seq!["switch_statement"],
        (Language::C, NodeCategory::Case) => seq!["case_statement"],
        (Language::C, NodeCategory::Ternary) => seq!["conditional_expression"],
        (Language::C, NodeCategory::Loop) => seq!["for_statement", "while_statement", "do_statement"],
        (Language::C, NodeCategory::Jump) => seq!["break_statement", "continue_statement", "goto_statement"],
        (Language::C, NodeCategory::Return) => seq!["return_statement"],
        (Language::C, NodeCategory::Binary) => seq!["binary_expression"],
        (Language::C, NodeCategory::BooleanOperator) => seq!["&&", "||"],
        (Language::C, NodeCategory::Field) => seq!["field_declaration"],
        (Language::C, NodeCategory::Call) => seq!["call_expression"],
        (Language::C, NodeCategory::Function) => seq!["function_definition"],
        (Language::C, NodeCategory::Comment) => seq!["comment"],
        (Language::C, NodeCategory::StringLiteral) => seq!["string_literal"],
        (Language::C, NodeCategory::Block) => seq!["compound_statement"],
        (Language::C, NodeCategory::InvisibleContainer) => seq!["translation_unit"],
        (Language::CSharp, NodeCategory::If) => seq!["if_statement"],
        (Language::CSharp, NodeCategory::Switch) => seq!["switch_expression"],
        (Language::CSharp, NodeCategory::Case) => seq!["switch_block_statement_group"],
        (Language::CSharp, NodeCategory::Ternary) => seq!["ternary_expression"],
        (Language::CSharp, NodeCategory::Loop) => seq!["for_statement", "enhanced_for_statement", "while_statement", "do_statement"],
        (Language::CSharp, NodeCategory::Except) => seq!["catch_clause"],
        (Language::CSharp, NodeCategory::TryExpression) => seq!["try_statement", "try_with_resources_statement"],
        (Language::CSharp, NodeCategory::Jump) => seq!["break_statement", "continue_statement"],
        (Language::CSharp, NodeCategory::Return) => seq!["return_statement"],
        (Language::CSharp, NodeCategory::Binary) => seq!["binary_expression"],
        (Language::CSharp, NodeCategory::BooleanOperator) => seq!["&&", "||"],
        (Language::CSharp, NodeCategory::Field) => seq!["field_declaration"],
        (Language::CSharp, NodeCategory::Call) => seq!["method_invocation"],
        (Language::CSharp, NodeCategory::Function) => seq!["method_declaration"],
        (Language::CSharp, NodeCategory::Closure) => seq!["lambda_expression"],
        (Language::CSharp, NodeCategory::Comment) => seq!["line_comment", "block_comment"],
        (Language::CSharp, NodeCategory::StringLiteral) => seq!["string_literal", "template_expression"],
        (Language::CSharp, NodeCategory::Block) => seq!["block"],
        (Language::CSharp, NodeCategory::InvisibleContainer) => seq!["program"],
        (Language::Cpp, NodeCategory::If) => seq!["if_statement"],
        (Language::Cpp, NodeCategory::Else) => seq!["else_clause"],
        (Language::Cpp, NodeCategory::Switch) => seq!["switch_statement"],
        (Language::Cpp, NodeCategory::Case) => seq!["case_statement"],
        (Language::Cpp, NodeCategory::Ternary) => seq!["conditional_expression"],
        (Language::Cpp, NodeCategory::Loop) => seq!["for_statement", "while_statement", "do_statement", "for_range_loop"],
        (Language::Cpp, NodeCategory::Except) => seq!["catch_clause"],
        (Language::Cpp, NodeCategory::TryExpression) => seq!["try_statement"],
        (Language::Cpp, NodeCategory::Jump) => seq!["break_statement", "continue_statement", "goto_statement"],
        (Language::Cpp, NodeCategory::Return) => seq!["return_statement"],
        (Language::Cpp, NodeCategory::Binary) => seq!["binary_expression"],
        (Language::Cpp, NodeCategory::BooleanOperator) => seq!["&&", "||"],
        (Language::Cpp, NodeCategory::Field) => seq!["field_declaration", "field_expression"],
        (Language::Cpp, NodeCategory::Call) => seq!["call_expression"],
        (Language::Cpp, NodeCategory::Function) => seq!["function_definition"],
        (Language::Cpp, NodeCategory::Closure) => seq!["lambda_expression"],
        (Language::Cpp, NodeCategory::Comment) => seq!["comment"],
        (Language::Cpp, NodeCategory::StringLiteral) => seq!["string_literal", "raw_string_literal"],
        (Language::Cpp, NodeCategory::Block) => seq!["compound_statement"],
        (Language::Cpp, NodeCategory::InvisibleContainer) => seq!["translation_unit"],
        (Language::Elixir, NodeCategory::If) => seq!["__elixir_conditional"],
        (Language::Elixir, NodeCategory::Elsif) => seq!["__elixir_second_clause_head"],
        (Language::Elixir, NodeCategory::Else) => seq!["else_block", "__elixir_keyword_else"],
        (Language::Elixir, NodeCategory::Switch) => seq!["__elixir_branch"],
        (Language::Elixir, NodeCategory::Case) => seq!["__elixir_case_clause", "__elixir_later_clause_head"],
        (Language::Elixir, NodeCategory::Loop) => seq!["__elixir_comprehension"],
        (Language::Elixir, NodeCategory::Except) => seq!["rescue_block", "catch_block"],
        (Language::Elixir, NodeCategory::TryExpression) => seq!["__elixir_try"],
        (Language::Elixir, NodeCategory::Binary) => seq!["__elixir_boolean_binary"],
        (Language::Elixir, NodeCategory::BooleanOperator) => seq!["&&", "||", "and", "or"],
        (Language::Elixir, NodeCategory::Call) => seq!["call"],
        (Language::Elixir, NodeCategory::Function) => seq!["__elixir_definition"],
        (Language::Elixir, NodeCategory::Closure) => seq!["anonymous_function"],
        (Language::Elixir, NodeCategory::Comment) => seq!["comment"],
        (Language::Elixir, NodeCategory::StringLiteral) => seq!["string", "charlist", "sigil"],
        (Language::Elixir, NodeCategory::InvisibleContainer) => seq!["source"],
        (Language::Scala, NodeCategory::If) => seq!["if_expression"],
        (Language::Scala, NodeCategory::Switch) => seq!["match_expression"],
        (Language::Scala, NodeCategory::Case) => seq!["case_clause"],
        (Language::Scala, NodeCategory::Loop) => seq!["for_expression", "while_expression", "do_while_expression"],
        (Language::Scala, NodeCategory::Except) => seq!["catch_clause"],
        (Language::Scala, NodeCategory::TryExpression) => seq!["try_expression"],
        (Language::Scala, NodeCategory::Jump) => seq!["return_expression", "throw_expression"],
        (Language::Scala, NodeCategory::Return) => seq!["return_expression"],
        (Language::Scala, NodeCategory::Binary) => seq!["infix_expression"],
        (Language::Scala, NodeCategory::BooleanOperator) => seq!["&&", "||"],
        (Language::Scala, NodeCategory::Field) => seq!["field_expression"],
        (Language::Scala, NodeCategory::Call) => seq!["call_expression"],
        (Language::Scala, NodeCategory::Function) => seq!["function_definition"],
        (Language::Scala, NodeCategory::Closure) => seq!["lambda_expression"],
        (Language::Scala, NodeCategory::Comment) => seq!["comment", "block_comment"],
        (Language::Scala, NodeCategory::StringLiteral) => seq!["string", "interpolated_string_expression"],
        (Language::Scala, NodeCategory::Block) => seq!["block"],
        (Language::Scala, NodeCategory::InvisibleContainer) => seq!["compilation_unit"],
        (Language::VBNet, NodeCategory::If) => seq!["if_statement"],
        (Language::VBNet, NodeCategory::Elsif) => seq!["elseif_clause"],
        (Language::VBNet, NodeCategory::Else) => seq!["else_clause"],
        (Language::VBNet, NodeCategory::Switch) => seq!["select_case_statement"],
        (Language::VBNet, NodeCategory::Case) => seq!["case_clause"],
        (Language::VBNet, NodeCategory::Loop) => seq!["for_statement", "for_each_statement", "while_statement", "do_statement"],
        (Language::VBNet, NodeCategory::Except) => seq!["catch_block"],
        (Language::VBNet, NodeCategory::TryExpression) => seq!["try_statement"],
        (Language::VBNet, NodeCategory::Jump) => seq!["exit_statement", "continue_statement", "goto_statement"],
        (Language::VBNet, NodeCategory::Return) => seq!["return_statement"],
        (Language::VBNet, NodeCategory::Binary) => seq!["binary_expression"],
        (Language::VBNet, NodeCategory::BooleanOperator) => seq!["AndAlso", "OrElse", "And", "Or"],
        (Language::VBNet, NodeCategory::Field) => seq!["member_access"],
        (Language::VBNet, NodeCategory::Call) => seq!["invocation"],
        (Language::VBNet, NodeCategory::Function) => seq!["method_declaration", "constructor_declaration"],
        (Language::VBNet, NodeCategory::Closure) => seq!["lambda_expression"],
        (Language::VBNet, NodeCategory::Comment) => seq!["comment"],
        (Language::VBNet, NodeCategory::StringLiteral) => seq!["string_literal", "interpolated_string_expression"],
        (Language::VBNet, NodeCategory::InvisibleContainer) => seq!["source_file", "type_declaration", "class_block", "interface_block", "module_block", "structure_block", "statement", "call_statement", "dim_statement", "assignment_statement", "expression", "blank_line", "modifiers", "modifier", "imports_statement", "namespace_block", "case_block", "catch_block"],
        _ => seq![],
    }
}

/// The categories whose node kinds a language keeps apart.
pub open spec fn exclusive_categories(lang: Language) -> Seq<NodeCategory> {
    match lang {
        Language::C => seq![NodeCategory::If, NodeCategory::Switch, NodeCategory::Case, NodeCategory::Ternary, NodeCategory::Loop, NodeCategory::Except, NodeCategory::TryExpression, NodeCategory::Jump, NodeCategory::Return, NodeCategory::Binary, NodeCategory::Field, NodeCategory::Call, NodeCategory::Function, NodeCategory::Closure, NodeCategory::Comment, NodeCategory::StringLiteral, NodeCategory::BooleanOperator, NodeCategory::Block],
        Language::CSharp => seq![NodeCategory::If, NodeCategory::Switch, NodeCategory::Case, NodeCategory::Ternary, NodeCategory::Loop, NodeCategory::Except, NodeCategory::TryExpression, NodeCategory::Jump, NodeCategory::Return, NodeCategory::Binary, NodeCategory::Field, NodeCategory::Call, NodeCategory::Function, NodeCategory::Closure, NodeCategory::Comment, NodeCategory::StringLiteral, NodeCategory::BooleanOperator, NodeCategory::Block],
        Language::Cpp => seq![NodeCategory::If, NodeCategory::ConditionalAssignment, NodeCategory::Switch, NodeCategory::Case, NodeCategory::Ternary, NodeCategory::Loop, NodeCategory::Except, NodeCategory::TryExpression, NodeCategory::Jump, NodeCategory::Return, NodeCategory::Binary, NodeCategory::Field, NodeCategory::Call, NodeCategory::Function, NodeCategory::Closure, NodeCategory::Comment, NodeCategory::StringLiteral, NodeCategory::BooleanOperator, NodeCategory::Block],
        Language::Elixir => seq![NodeCategory::If, NodeCategory::Elsif, NodeCategory::Else, NodeCategory::ConditionalAssignment, NodeCategory::Switch, NodeCategory::Case, NodeCategory::Ternary, NodeCategory::Loop, NodeCategory::Except, NodeCategory::TryExpression, NodeCategory::Jump, NodeCategory::Return, NodeCategory::Binary, NodeCategory::Field, NodeCategory::Call, NodeCategory::Function, NodeCategory::Closure, NodeCategory::Comment, NodeCategory::StringLiteral, NodeCategory::BooleanOperator, NodeCategory::Block],
        Language::Scala => seq![NodeCategory::If, NodeCategory::Else, NodeCategory::ConditionalAssignment, NodeCategory::Switch, NodeCategory::Case, NodeCategory::Ternary, NodeCategory::Loop, NodeCategory::Except, NodeCategory::TryExpression, NodeCategory::Return, NodeCategory::Binary, NodeCategory::Field, NodeCategory::Call, NodeCategory::Function, NodeCategory::Closure, NodeCategory::Comment, NodeCategory::StringLiteral, NodeCategory::BooleanOperator, NodeCategory::Block],
        Language::VBNet => seq![NodeCategory::If, NodeCategory::Elsif, NodeCategory::Switch, NodeCategory::Case, NodeCategory::Ternary, NodeCategory::Loop, NodeCategory::Except, NodeCategory::TryExpression, NodeCategory::Jump, NodeCategory::Return, NodeCategory::Binary, NodeCategory::Field, NodeCategory::Call, NodeCategory::Function, NodeCategory::Closure, NodeCategory::Comment, NodeCategory::StringLiteral, NodeCategory::BooleanOperator, NodeCategory::Block],
    }
}

/// The node kinds of the categories `cats` in `lang`, one category after
/// another.
pub open spec fn kinds_in(lang: Language, cats: Seq<NodeCategory>) -> Seq<&'static str>
    decreases cats.len(),
{
    if cats.len() == 0 {
        seq![]
    } else {
        kinds_in(lang, cats.drop_last()) + node_kinds(lang, cats.last())
    }
}

/// The node kinds that `lang` keeps apart.
pub open spec fn exclusive_kinds(lang: Language) -> Seq<&'static str> {
    kinds_in(lang, exclusive_categories(lang))
}

/// Whether no two of `s` have the same text.
pub open spec fn texts_distinct(s: Seq<&'static str>) -> bool {
    forall|i: int, j: int| 0 <= i < j < s.len() ==> s[i]@ != s[j]@
}

/// The keyword a language names the current object with, if any.
pub open spec fn self_keyword_of(lang: Language) -> Option<&'static str> {
    match lang {
        Language::C => None,
        Language::CSharp => Some("this"),
        Language::Cpp => Some("this"),
        Language::Elixir => None,
        Language::Scala => Some("this"),
        Language::VBNet => Some("Me"),
    }
}

/// The names a language gives its constructors.
pub open spec fn constructor_names_of(lang: Language) -> Seq<&'static str> {
    match lang {
        Language::Scala => seq!["this"],
        Language::VBNet => seq!["New"],
        _ => seq![],
    }
}

/// The methods of a language that iterate over a collection.
pub open spec fn iterator_methods_of(lang: Language) -> Seq<&'static str> {
    match lang {
        Language::Elixir => seq!["all?", "any?", "chunk_by", "chunk_while", "dedup_by", "drop_while", "each", "each_with_index", "filter", "find", "find_index", "find_value", "flat_map", "flat_map_reduce", "group_by", "map", "map_every", "map_intersperse", "map_join", "map_reduce", "max_by", "min_by", "min_max_by", "reduce", "reduce_while", "reject", "scan", "sort_by", "split_while", "split_with", "take_while", "uniq_by", "zip_reduce", "zip_with", "with_index"],
        Language::Scala => seq!["collect", "count", "exists", "filter", "filterNot", "find", "flatMap", "fold", "foldLeft", "foldRight", "forall", "foreach", "groupBy", "map", "partition", "reduce", "reduceLeft", "reduceRight", "scan", "sortBy", "sortWith", "zip"],
        _ => seq![],
    }
}

/// Whether a language has labeled jumps.
pub open spec fn has_labeled_jumps_of(lang: Language) -> bool {
    lang == Language::C || lang == Language::CSharp || lang == Language::Cpp
}

/// Whether a language's syntax trees name their fields.
pub open spec fn has_field_names_of(lang: Language) -> bool {
    lang == Language::Elixir || lang == Language::Scala || lang == Language::VBNet
}

/// The language named `name`, if any.
pub fn from_str(name: &str) -> (r: Option<Language>)
    ensures
        r == language_named(name@),
{
    if str_eq(name, "c") {
        Some(Language::C)
    } else if str_eq(name, "c#") {
        Some(Language::CSharp)
    } else if str_eq(name, "cpp") {
        Some(Language::Cpp)
    } else if str_eq(name, "elixir") {
        Some(Language::Elixir)
    } else if str_eq(name, "scala") {
        Some(Language::Scala)
    } else if str_eq(name, "vbnet") {
        Some(Language::VBNet)
    } else {
        None
    }
}

impl Language {
    /// The language's name.
    pub fn name(&self) -> (r: &'static str)
        ensures
            r@ == language_name(*self),
    {
        match self {
            Language::C => "c",
            Language::CSharp => "c#",
            Language::Cpp => "cpp",
            Language::Elixir => "elixir",
            Language::Scala => "scala",
            Language::VBNet => "vbnet",
        }
    }

    /// The keyword the language names the current object with, if any.
    pub fn self_keyword(&self) -> (r: Option<&'static str>)
        ensures
            r == self_keyword_of(*self),
    {
        match self {
            Language::C => None,
            Language::CSharp => Some("this"),
            Language::Cpp => Some("this"),
            Language::Elixir => None,
            Language::Scala => Some("this"),
            Language::VBNet => Some("Me"),
        }
    }

    /// The names the language gives its constructors.
    pub fn constructor_names(&self) -> (r: Vec<&'static str>)
        ensures
            r@ == constructor_names_of(*self),
    {
        let v: Vec<&'static str> = match self {
            Language::Scala => vec!["this"],
            Language::VBNet => vec!["New"],
            _ => vec![],
        };
        assert(v@ =~= constructor_names_of(*self));
        v
    }

    /// The methods of the language that iterate over a collection.
    pub fn iterator_method_identifiers(&self) -> (r: Vec<&'static str>)
        ensures
            r@ == iterator_methods_of(*self),
    {
        let v: Vec<&'static str> = match self {
            Language::Elixir => vec!["all?", "any?", "chunk_by", "chunk_while", "dedup_by", "drop_while", "each", "each_with_index", "filter", "find", "find_index", "find_value", "flat_map", "flat_map_reduce", "group_by", "map", "map_every", "map_intersperse", "map_join", "map_reduce", "max_by", "min_by", "min_max_by", "reduce", "reduce_while", "reject", "scan", "sort_by", "split_while", "split_with", "take_while", "uniq_by", "zip_reduce", "zip_with", "with_index"],
            Language::Scala => vec!["collect", "count", "exists", "filter", "filterNot", "find", "flatMap", "fold", "foldLeft", "foldRight", "forall", "foreach", "groupBy", "map", "partition", "reduce", "reduceLeft", "reduceRight", "scan", "sortBy", "sortWith", "zip"],
            _ => vec![],
        };
        assert(v@ =~= iterator_methods_of(*self));
        v
    }

    /// Whether the language has labeled jumps.
    pub fn has_labeled_jumps(&self) -> (r: bool)
        ensures
            r == has_labeled_jumps_of(*self),
    {
        match self {
            Language::C | Language::CSharp | Language::Cpp => true,
            _ => false,
        }
    }

    /// Whether the language's syntax trees name their fields.
    pub fn has_field_names(&self) -> (r: bool)
        ensures
            r == has_field_names_of(*self),
    {
        match self {
            Language::Elixir | Language::Scala | Language::VBNet => true,
            _ => false,
        }
    }

    /// The node kinds of `category` in this language.
    pub fn node_kinds(&self, category: NodeCategory) -> (r: Vec<&'static str>)
        ensures
            r@ == node_kinds(*self, category),
    {
        let v: Vec<&'static str> = match (*self, category) {
            (Language::C, NodeCategory::If) => vec!["if_statement"],
            (Language::C, NodeCategory::Switch) => vec!["switch_statement"],
            (Language::C, NodeCategory::Case) => vec!["case_statement"],
            (Language::C, NodeCategory::Ternary) => vec!["conditional_expression"],
            (Language::C, NodeCategory::Loop) => vec!["for_statement", "while_statement", "do_statement"],
            (Language::C, NodeCategory::Jump) => vec!["break_statement", "continue_statement", "goto_statement"],
            (Language::C, NodeCategory::Return) => vec!["return_statement"],
            (Language::C, NodeCategory::Binary) => vec!["binary_expression"],
            (Language::C, NodeCategory::BooleanOperator) => vec!["&&", "||"],
            (Language::C, NodeCategory::Field) => vec!["field_declaration"],
            (Language::C, NodeCategory::Call) => vec!["call_expression"],
            (Language::C, NodeCategory::Function) => vec!["function_definition"],
            (Language::C, NodeCategory::Comment) => vec!["comment"],
            (Language::C, NodeCategory::StringLiteral) => vec!["string_literal"],
            (Language::C, NodeCategory::Block) => vec!["compound_statement"],
            (Language::C, NodeCategory::InvisibleContainer) => vec!["translation_unit"],
            (Language::CSharp, NodeCategory::If) => vec!["if_statement"],
            (Language::CSharp, NodeCategory::Switch) => vec!["switch_expression"],
            (Language::CSharp, NodeCategory::Case) => vec!["switch_block_statement_group"],
            (Language::CSharp, NodeCategory::Ternary) => vec!["ternary_expression"],
            (Language::CSharp, NodeCategory::Loop) => vec!["for_statement", "enhanced_for_statement", "while_statement", "do_statement"],
            (Language::CSharp, NodeCategory::Except) => vec!["catch_clause"],
            (Language::CSharp, NodeCategory::TryExpression) => vec!["try_statement", "try_with_resources_statement"],
            (Language::CSharp, NodeCategory::Jump) => vec!["break_statement", "continue_statement"],
            (Language::CSharp, NodeCategory::Return) => vec!["return_statement"],
            (Language::CSharp, NodeCategory::Binary) => vec!["binary_expression"],
            (Language::CSharp, NodeCategory::BooleanOperator) => vec!["&&", "||"],
            (Language::CSharp, NodeCategory::Field) => vec!["field_declaration"],
            (Language::CSharp, NodeCategory::Call) => vec!["method_invocation"],
            (Language::CSharp, NodeCategory::Function) => vec!["method_declaration"],
            (Language::CSharp, NodeCategory::Closure) => vec!["lambda_expression"],
            (Language::CSharp, NodeCategory::Comment) => vec!["line_comment", "block_comment"],
            (Language::CSharp, NodeCategory::StringLiteral) => vec!["string_literal", "template_expression"],
            (Language::CSharp, NodeCategory::Block) => vec!["block"],
            (Language::CSharp, NodeCategory::InvisibleContainer) => vec!["program"],
            (Language::Cpp, NodeCategory::If) => vec!["if_statement"],
            (Language::Cpp, NodeCategory::Else) => vec!["else_clause"],
            (Language::Cpp, NodeCategory::Switch) => vec!["switch_statement"],
            (Language::Cpp, NodeCategory::Case) => vec!["case_statement"],
            (Language::Cpp, NodeCategory::Ternary) => vec!["conditional_expression"],
            (Language::Cpp, NodeCategory::Loop) => vec!["for_statement", "while_statement", "do_statement", "for_range_loop"],
            (Language::Cpp, NodeCategory::Except) => vec!["catch_clause"],
            (Language::Cpp, NodeCategory::TryExpression) => vec!["try_statement"],
            (Language::Cpp, NodeCategory::Jump) => vec!["break_statement", "continue_statement", "goto_statement"],
            (Language::Cpp, NodeCategory::Return) => vec!["return_statement"],
            (Language::Cpp, NodeCategory::Binary) => vec!["binary_expression"],
            (Language::Cpp, NodeCategory::BooleanOperator) => vec!["&&", "||"],
            (Language::Cpp, NodeCategory::Field) => vec!["field_declaration", "field_expression"],
            (Language::Cpp, NodeCategory::Call) => vec!["call_expression"],
            (Language::Cpp, NodeCategory::Function) => vec!["function_definition"],
            (Language::Cpp, NodeCategory::Closure) => vec!["lambda_expression"],
            (Language::Cpp, NodeCategory::Comment) => vec!["comment"],
            (Language::Cpp, NodeCategory::StringLiteral) => vec!["string_literal", "raw_string_literal"],
            (Language::Cpp, NodeCategory::Block) => vec!["compound_statement"],
            (Language::Cpp, NodeCategory::InvisibleContainer) => vec!["translation_unit"],
            (Language::Elixir, NodeCategory::If) => vec!["__elixir_conditional"],
            (Language::Elixir, NodeCategory::Elsif) => vec!["__elixir_second_clause_head"],
            (Language::Elixir, NodeCategory::Else) => vec!["else_block", "__elixir_keyword_else"],
            (Language::Elixir, NodeCategory::Switch) => vec!["__elixir_branch"],
            (Language::Elixir, NodeCategory::Case) => vec!["__elixir_case_clause", "__elixir_later_clause_head"],
            (Language::Elixir, NodeCategory::Loop) => vec!["__elixir_comprehension"],
            (Language::Elixir, NodeCategory::Except) => vec!["rescue_block", "catch_block"],
            (Language::Elixir, NodeCategory::TryExpression) => vec!["__elixir_try"],
            (Language::Elixir, NodeCategory::Binary) => vec!["__elixir_boolean_binary"],
            (Language::Elixir, NodeCategory::BooleanOperator) => vec!["&&", "||", "and", "or"],
            (Language::Elixir, NodeCategory::Call) => vec!["call"],
            (Language::Elixir, NodeCategory::Function) => vec!["__elixir_definition"],
            (Language::Elixir, NodeCategory::Closure) => vec!["anonymous_function"],
            (Language::Elixir, NodeCategory::Comment) => vec!["comment"],
            (Language::Elixir, NodeCategory::StringLiteral) => vec!["string", "charlist", "sigil"],
            (Language::Elixir, NodeCategory::InvisibleContainer) => vec!["source"],
            (Language::Scala, NodeCategory::If) => vec!["if_expression"],
            (Language::Scala, NodeCategory::Switch) => vec!["match_expression"],
            (Language::Scala, NodeCategory::Case) => vec!["case_clause"],
            (Language::Scala, NodeCategory::Loop) => vec!["for_expression", "while_expression", "do_while_expression"],
            (Language::Scala, NodeCategory::Except) => vec!["catch_clause"],
            (Language::Scala, NodeCategory::TryExpression) => vec!["try_expression"],
            (Language::Scala, NodeCategory::Jump) => vec!["return_expression", "throw_expression"],
            (Language::Scala, NodeCategory::Return) => vec!["return_expression"],
            (Language::Scala, NodeCategory::Binary) => vec!["infix_expression"],
            (Language::Scala, NodeCategory::BooleanOperator) => vec!["&&", "||"],
            (Language::Scala, NodeCategory::Field) => vec!["field_expression"],
            (Language::Scala, NodeCategory::Call) => vec!["call_expression"],
            (Language::Scala, NodeCategory::Function) => vec!["function_definition"],
            (Language::Scala, NodeCategory::Closure) => vec!["lambda_expression"],
            (Language::Scala, NodeCategory::Comment) => vec!["comment", "block_comment"],
            (Language::Scala, NodeCategory::StringLiteral) => vec!["string", "interpolated_string_expression"],
            (Language::Scala, NodeCategory::Block) => vec!["block"],
            (Language::Scala, NodeCategory::InvisibleContainer) => vec!["compilation_unit"],
            (Language::VBNet, NodeCategory::If) => vec!["if_statement"],
            (Language::VBNet, NodeCategory::Elsif) => vec!["elseif_clause"],
            (Language::VBNet, NodeCategory::Else) => vec!["else_clause"],
            (Language::VBNet, NodeCategory::Switch) => vec!["select_case_statement"],
            (Language::VBNet, NodeCategory::Case) => vec!["case_clause"],
            (Language::VBNet, NodeCategory::Loop) => vec!["for_statement", "for_each_statement", "while_statement", "do_statement"],
            (Language::VBNet, NodeCategory::Except) => vec!["catch_block"],
            (Language::VBNet, NodeCategory::TryExpression) => vec!["try_statement"],
            (Language::VBNet, NodeCategory::Jump) => vec!["exit_statement", "continue_statement", "goto_statement"],
            (Language::VBNet, NodeCategory::Return) => vec!["return_statement"],
            (Language::VBNet, NodeCategory::Binary) => vec!["binary_expression"],
            (Language::VBNet, NodeCategory::BooleanOperator) => vec!["AndAlso", "OrElse", "And", "Or"],
            (Language::VBNet, NodeCategory::Field) => vec!["member_access"],
            (Language::VBNet, NodeCategory::Call) => vec!["invocation"],
            (Language::VBNet, NodeCategory::Function) => vec!["method_declaration", "constructor_declaration"],
            (Language::VBNet, NodeCategory::Closure) => vec!["lambda_expression"],
            (Language::VBNet, NodeCategory::Comment) => vec!["comment"],
            (Language::VBNet, NodeCategory::StringLiteral) => vec!["string_literal", "interpolated_string_expression"],
            (Language::VBNet, NodeCategory::InvisibleContainer) => vec!["source_file", "type_declaration", "class_block", "interface_block", "module_block", "structure_block", "statement", "call_statement", "dim_statement", "assignment_statement", "expression", "blank_line", "modifiers", "modifier", "imports_statement", "namespace_block", "case_block", "catch_block"],
            _ => vec![],
        };
        assert(v@ =~= node_kinds(*self, category));
        v
    }

    /// The if nodes of this language.
    pub fn if_nodes(&self) -> (r: Vec<&'static str>)
        ensures
            r@ == node_kinds(*self, NodeCategory::If),
    {
        self.node_kinds(NodeCategory::If)
    }

    /// The else if nodes of this language.
    pub fn elsif_nodes(&self) -> (r: Vec<&'static str>)
        ensures
            r@ == node_kinds(*self, NodeCategory::Elsif),
    {
        self.node_kinds(NodeCategory::Elsif)
    }

    /// The else nodes of this language.
    pub fn else_nodes(&self) -> (r: Vec<&'static str>)
        ensures
            r@ == node_kinds(*self, NodeCategory::Else),
    {
        self.node_kinds(NodeCategory::Else)
    }

    /// The conditional assignment nodes of this language.
    pub fn conditional_assignment_nodes(&self) -> (r: Vec<&'static str>)
        ensures
            r@ == node_kinds(*self, NodeCategory::ConditionalAssignment),
    {
        self.node_kinds(NodeCategory::ConditionalAssignment)
    }

    /// The switch nodes of this language.
    pub fn switch_nodes(&self) -> (r: Vec<&'static str>)
        ensures
            r@ == node_kinds(*self, NodeCategory::Switch),
    {
        self.node_kinds(NodeCategory::Switch)
    }

    /// The case arm nodes of this language.
    pub fn case_nodes(&self) -> (r: Vec<&'static str>)
        ensures
            r@ == node_kinds(*self, NodeCategory::Case),
    {
        self.node_kinds(NodeCategory::Case)
    }

    /// The ternary nodes of this language.
    pub fn ternary_nodes(&self) -> (r: Vec<&'static str>)
        ensures
            r@ == node_kinds(*self, NodeCategory::Ternary),
    {
        self.node_kinds(NodeCategory::Ternary)
    }

    /// The loop nodes of this language.
    pub fn loop_nodes(&self) -> (r: Vec<&'static str>)
        ensures
            r@ == node_kinds(*self, NodeCategory::Loop),
    {
        self.node_kinds(NodeCategory::Loop)
    }

    /// The exception handler nodes of this language.
    pub fn except_nodes(&self) -> (r: Vec<&'static str>)
        ensures
            r@ == node_kinds(*self, NodeCategory::Except),
    {
        self.node_kinds(NodeCategory::Except)
    }

    /// The try nodes of this language.
    pub fn try_expression_nodes(&self) -> (r: Vec<&'static str>)
        ensures
            r@ == node_kinds(*self, NodeCategory::TryExpression),
    {
        self.node_kinds(NodeCategory::TryExpression)
    }

    /// The jump nodes of this language.
    pub fn jump_nodes(&self) -> (r: Vec<&'static str>)
        ensures
            r@ == node_kinds(*self, NodeCategory::Jump),
    {
        self.node_kinds(NodeCategory::Jump)
    }

    /// The return nodes of this language.
    pub fn return_nodes(&self) -> (r: Vec<&'static str>)
        ensures
            r@ == node_kinds(*self, NodeCategory::Return),
    {
        self.node_kinds(NodeCategory::Return)
    }

    /// The binary expression nodes of this language.
    pub fn binary_nodes(&self) -> (r: Vec<&'static str>)
        ensures
            r@ == node_kinds(*self, NodeCategory::Binary),
    {
        self.node_kinds(NodeCategory::Binary)
    }

    /// The boolean operator nodes of this language.
    pub fn boolean_operator_nodes(&self) -> (r: Vec<&'static str>)
        ensures
            r@ == node_kinds(*self, NodeCategory::BooleanOperator),
    {
        self.node_kinds(NodeCategory::BooleanOperator)
    }

    /// The field access or declaration nodes of this language.
    pub fn field_nodes(&self) -> (r: Vec<&'static str>)
        ensures
            r@ == node_kinds(*self, NodeCategory::Field),
    {
        self.node_kinds(NodeCategory::Field)
    }

    /// The call nodes of this language.
    pub fn call_nodes(&self) -> (r: Vec<&'static str>)
        ensures
            r@ == node_kinds(*self, NodeCategory::Call),
    {
        self.node_kinds(NodeCategory::Call)
    }

    /// The function definition nodes of this language.
    pub fn function_nodes(&self) -> (r: Vec<&'static str>)
        ensures
            r@ == node_kinds(*self, NodeCategory::Function),
    {
        self.node_kinds(NodeCategory::Function)
    }

    /// The closure nodes of this language.
    pub fn closure_nodes(&self) -> (r: Vec<&'static str>)
        ensures
            r@ == node_kinds(*self, NodeCategory::Closure),
    {
        self.node_kinds(NodeCategory::Closure)
    }

    /// The comment nodes of this language.
    pub fn comment_nodes(&self) -> (r: Vec<&'static str>)
        ensures
            r@ == node_kinds(*self, NodeCategory::Comment),
    {
        self.node_kinds(NodeCategory::Comment)
    }

    /// The string literal nodes of this language.
    pub fn string_nodes(&self) -> (r: Vec<&'static str>)
        ensures
            r@ == node_kinds(*self, NodeCategory::StringLiteral),
    {
        self.node_kinds(NodeCategory::StringLiteral)
    }

    /// The block nodes of this language.
    pub fn block_nodes(&self) -> (r: Vec<&'static str>)
        ensures
            r@ == node_kinds(*self, NodeCategory::Block),
    {
        self.node_kinds(NodeCategory::Block)
    }

    /// The container that metrics look through nodes of this language.
    pub fn invisible_container_nodes(&self) -> (r: Vec<&'static str>)
        ensures
            r@ == node_kinds(*self, NodeCategory::InvisibleContainer),
    {
        self.node_kinds(NodeCategory::InvisibleContainer)
    }

}

/// Each language is found by its name.
pub proof fn law_language_found_by_name(lang: Language)
    ensures
        language_named(language_name(lang)) == Some(lang),
{
    reveal_strlit("c");
    reveal_strlit("c#");
    reveal_strlit("cpp");
    reveal_strlit("elixir");
    reveal_strlit("scala");
    reveal_strlit("vbnet");
    assert("c"@.len() == 1);
    assert("c#"@.len() == 2);
    assert("cpp"@.len() == 3);
    assert("elixir"@.len() == 6);
    assert("scala"@.len() == 5);
    assert("vbnet"@.len() == 5);
    assert("scala"@[0] == 's');
    assert("vbnet"@[0] == 'v');
}

/// The node kinds that a language classifies under different categories
/// never coincide: no node is counted twice.
pub proof fn law_node_kinds_mutually_exclusive(lang: Language)
    ensures
        texts_distinct(exclusive_kinds(lang)),
{
    match lang {
        Language::C => lemma_c_kinds_distinct(),
        Language::CSharp => lemma_csharp_kinds_distinct(),
        Language::Cpp => lemma_cpp_kinds_distinct(),
        Language::Elixir => lemma_elixir_kinds_distinct(),
        Language::Scala => lemma_scala_kinds_distinct(),
        Language::VBNet => lemma_vbnet_kinds_distinct(),
    }
}

/// The kinds that C keeps apart are distinct.
proof fn lemma_c_kinds_distinct()
    ensures
        texts_distinct(exclusive_kinds(Language::C)),
{
    reveal_with_fuel(kinds_in, 22);
    let s = exclusive_kinds(Language::C);
    assert(s =~= seq!["if_statement", "switch_statement", "case_statement", "conditional_expression", "for_statement", "while_statement", "do_statement", "break_statement", "continue_statement", "goto_statement", "return_statement", "binary_expression", "field_declaration", "call_expression", "function_definition", "comment", "string_literal", "&&", "||", "compound_statement"]);
    assert(texts_distinct(s)) by {
        reveal_strlit("&&");
        reveal_strlit("binary_expression");
        reveal_strlit("break_statement");
        reveal_strlit("call_expression");
        reveal_strlit("case_statement");
        reveal_strlit("comment");
        reveal_strlit("compound_statement");
        reveal_strlit("conditional_expression");
        reveal_strlit("continue_statement");
        reveal_strlit("do_statement");
        reveal_strlit("field_declaration");
        reveal_strlit("for_statement");
        reveal_strlit("function_definition");
        reveal_strlit("goto_statement");
        reveal_strlit("if_statement");
        reveal_strlit("return_statement");
        reveal_strlit("string_literal");
        reveal_strlit("switch_statement");
        reveal_strlit("while_statement");
        reveal_strlit("||");
        assert("&&"@.len() == 2);
        assert("binary_expression"@.len() == 17);
        assert("break_statement"@.len() == 15);
        assert("call_expression"@.len() == 15);
        assert("case_statement"@.len() == 14);
        assert("comment"@.len() == 7);
        assert("compound_statement"@.len() == 18);
        assert("conditional_expression"@.len() == 22);
        assert("continue_statement"@.len() == 18);
        assert("do_statement"@.len() == 12);
        assert("field_declaration"@.len() == 17);
        assert("for_statement"@.len() == 13);
        assert("function_definition"@.len() == 19);
        assert("goto_statement"@.len() == 14);
        assert("if_statement"@.len() == 12);
        assert("return_statement"@.len() == 16);
        assert("string_literal"@.len() == 14);
        assert("switch_statement"@.len() == 16);
        assert("while_statement"@.len() == 15);
        assert("||"@.len() == 2);
        assert("if_statement"@[0] == 'i');
        assert("do_statement"@[0] == 'd');
        assert("switch_statement"@[0] == 's');
        assert("return_statement"@[0] == 'r');
        assert("case_statement"@[0] == 'c');
        assert("goto_statement"@[0] == 'g');
        assert("string_literal"@[0] == 's');
        assert("while_statement"@[0] == 'w');
        assert("break_statement"@[0] == 'b');
        assert("call_expression"@[0] == 'c');
        assert("continue_statement"@[2] == 'n');
        assert("compound_statement"@[2] == 'm');
        assert("binary_expression"@[0] == 'b');
        assert("field_declaration"@[0] == 'f');
        assert("&&"@[0] == '&');
        assert("||"@[0] == '|');
    }
}

/// The kinds that CSharp keeps apart are distinct.
proof fn lemma_csharp_kinds_distinct()
    ensures
        texts_distinct(exclusive_kinds(Language::CSharp)),
{
    reveal_with_fuel(kinds_in, 22);
    let s = exclusive_kinds(Language::CSharp);
    assert(s =~= seq!["if_statement", "switch_expression", "switch_block_statement_group", "ternary_expression", "for_statement", "enhanced_for_statement", "while_statement", "do_statement", "catch_clause", "try_statement", "try_with_resources_statement", "break_statement", "continue_statement", "return_statement", "binary_expression", "field_declaration", "method_invocation", "method_declaration", "lambda_expression", "line_comment", "block_comment", "string_literal", "template_expression", "&&", "||", "block"]);
    assert(texts_distinct(s)) by {
        reveal_strlit("&&");
        reveal_strlit("binary_expression");
        reveal_strlit("block");
        reveal_strlit("block_comment");
        reveal_strlit("break_statement");
        reveal_strlit("catch_clause");
        reveal_strlit("continue_statement");
        reveal_strlit("do_statement");
        reveal_strlit("enhanced_for_statement");
        reveal_strlit("field_declaration");
        reveal_strlit("for_statement");
        reveal_strlit("if_statement");
        reveal_strlit("lambda_expression");
        reveal_strlit("line_comment");
        reveal_strlit("method_declaration");
        reveal_strlit("method_invocation");
        reveal_strlit("return_statement");
        reveal_strlit("string_literal");
        reveal_strlit("switch_block_statement_group");
        reveal_strlit("switch_expression");
        reveal_strlit("template_expression");
        reveal_strlit("ternary_expression");
        reveal_strlit("try_statement");
        reveal_strlit("try_with_resources_statement");
        reveal_strlit("while_statement");
        reveal_strlit("||");
        assert("&&"@.len() == 2);
        assert("binary_expression"@.len() == 17);
        assert("block"@.len() == 5);
        assert("block_comment"@.len() == 13);
        assert("break_statement"@.len() == 15);
        assert("catch_clause"@.len() == 12);
        assert("continue_statement"@.len() == 18);
        assert("do_statement"@.len() == 12);
        assert("enhanced_for_statement"@.len() == 22);
        assert("field_declaration"@.len() == 17);
        assert("for_statement"@.len() == 13);
        assert("if_statement"@.len() == 12);
        assert("lambda_expression"@.len() == 17);
        assert("line_comment"@.len() == 12);
        assert("method_declaration"@.len() == 18);
        assert("method_invocation"@.len() == 17);
        assert("return_statement"@.len() == 16);
        assert("string_literal"@.len() == 14);
        assert("switch_block_statement_group"@.len() == 28);
        assert("switch_expression"@.len() == 17);
        assert("template_expression"@.len() == 19);
        assert("ternary_expression"@.len() == 18);
        assert("try_statement"@.len() == 13);
        assert("try_with_resources_statement"@.len() == 28);
        assert("while_statement"@.len() == 15);
        assert("||"@.len() == 2);
        assert("if_statement"@[0] == 'i');
        assert("do_statement"@[0] == 'd');
        assert("catch_clause"@[0] == 'c');
        assert("line_comment"@[0] == 'l');
        assert("switch_expression"@[0] == 's');
        assert("binary_expression"@[0] == 'b');
        assert("field_declaration"@[0] == 'f');
        assert("method_invocation"@[0] == 'm');
        assert("lambda_expression"@[0] == 'l');
        assert("switch_block_statement_group"@[0] == 's');
        assert("try_with_resources_statement"@[0] == 't');
        assert("ternary_expression"@[0] == 't');
        assert("continue_statement"@[0] == 'c');
        assert("method_declaration"@[0] == 'm');
        assert("for_statement"@[0] == 'f');
        assert("try_statement"@[0] == 't');
        assert("block_comment"@[0] == 'b');
        assert("while_statement"@[0] == 'w');
        assert("break_statement"@[0] == 'b');
        assert("&&"@[0] == '&');
        assert("||"@[0] == '|');
    }
}

/// The kinds that Cpp keeps apart are distinct.
proof fn lemma_cpp_kinds_distinct()
    ensures
        texts_distinct(exclusive_kinds(Language::Cpp)),
{
    reveal_with_fuel(kinds_in, 22);
    let s = exclusive_kinds(Language::Cpp);
    assert(s =~= seq!["if_statement", "switch_statement", "case_statement", "conditional_expression", "for_statement", "while_statement", "do_statement", "for_range_loop", "catch_clause", "try_statement", "break_statement", "continue_statement", "goto_statement", "return_statement", "binary_expression", "field_declaration", "field_expression", "call_expression", "function_definition", "lambda_expression", "comment", "string_literal", "raw_string_literal", "&&", "||", "compound_statement"]);
    assert(texts_distinct(s)) by {
        reveal_strlit("&&");
        reveal_strlit("binary_expression");
        reveal_strlit("break_statement");
        reveal_strlit("call_expression");
        reveal_strlit("case_statement");
        reveal_strlit("catch_clause");
        reveal_strlit("comment");
        reveal_strlit("compound_statement");
        reveal_strlit("conditional_expression");
        reveal_strlit("continue_statement");
        reveal_strlit("do_statement");
        reveal_strlit("field_declaration");
        reveal_strlit("field_expression");
        reveal_strlit("for_range_loop");
        reveal_strlit("for_statement");
        reveal_strlit("function_definition");
        reveal_strlit("goto_statement");
        reveal_strlit("if_statement");
        reveal_strlit("lambda_expression");
        reveal_strlit("raw_string_literal");
        reveal_strlit("return_statement");
        reveal_strlit("string_literal");
        reveal_strlit("switch_statement");
        reveal_strlit("try_statement");
        reveal_strlit("while_statement");
        reveal_strlit("||");
        assert("&&"@.len() == 2);
        assert("binary_expression"@.len() == 17);
        assert("break_statement"@.len() == 15);
        assert("call_expression"@.len() == 15);
        assert("case_statement"@.len() == 14);
        assert("catch_clause"@.len() == 12);
        assert("comment"@.len() == 7);
        assert("compound_statement"@.len() == 18);
        assert("conditional_expression"@.len() == 22);
        assert("continue_statement"@.len() == 18);
        assert("do_statement"@.len() == 12);
        assert("field_declaration"@.len() == 17);
        assert("field_expression"@.len() == 16);
        assert("for_range_loop"@.len() == 14);
        assert("for_statement"@.len() == 13);
        assert("function_definition"@.len() == 19);
        assert("goto_statement"@.len() == 14);
        assert("if_statement"@.len() == 12);
        assert("lambda_expression"@.len() == 17);
        assert("raw_string_literal"@.len() == 18);
        assert("return_statement"@.len() == 16);
        assert("string_literal"@.len() == 14);
        assert("switch_statement"@.len() == 16);
        assert("try_statement"@.len() == 13);
        assert("while_statement"@.len() == 15);
        assert("||"@.len() == 2);
        assert("if_statement"@[0] == 'i');
        assert("do_statement"@[0] == 'd');
        assert("catch_clause"@[0] == 'c');
        assert("switch_statement"@[0] == 's');
        assert("return_statement"@[0] == 'r');
        assert("field_expression"@[0] == 'f');
        assert("case_statement"@[0] == 'c');
        assert("for_range_loop"@[0] == 'f');
        assert("goto_statement"@[0] == 'g');
        assert("string_literal"@[0] == 's');
        assert("for_statement"@[0] == 'f');
        assert("try_statement"@[0] == 't');
        assert("while_statement"@[0] == 'w');
        assert("break_statement"@[0] == 'b');
        assert("call_expression"@[0] == 'c');
        assert("continue_statement"@[0] == 'c');
        assert("raw_string_literal"@[0] == 'r');
        assert("continue_statement"@[2] == 'n');
        assert("compound_statement"@[2] == 'm');
        assert("binary_expression"@[0] == 'b');
        assert("field_declaration"@[0] == 'f');
        assert("lambda_expression"@[0] == 'l');
        assert("compound_statement"@[0] == 'c');
        assert("&&"@[0] == '&');
        assert("||"@[0] == '|');
    }
}

/// The kinds that Elixir keeps apart are distinct.
proof fn lemma_elixir_kinds_distinct()
    ensures
        texts_distinct(exclusive_kinds(Language::Elixir)),
{
    reveal_with_fuel(kinds_in, 22);
    let s = exclusive_kinds(Language::Elixir);
    assert(s =~= seq!["__elixir_conditional", "__elixir_second_clause_head", "else_block", "__elixir_keyword_else", "__elixir_branch", "__elixir_case_clause", "__elixir_later_clause_head", "__elixir_comprehension", "rescue_block", "catch_block", "__elixir_try", "__elixir_boolean_binary", "call", "__elixir_definition", "anonymous_function", "comment", "string", "charlist", "sigil", "&&", "||", "and", "or"]);
    assert(texts_distinct(s)) by {
        reveal_strlit("&&");
        reveal_strlit("__elixir_boolean_binary");
        reveal_strlit("__elixir_branch");
        reveal_strlit("__elixir_case_clause");
        reveal_strlit("__elixir_comprehension");
        reveal_strlit("__elixir_conditional");
        reveal_strlit("__elixir_definition");
        reveal_strlit("__elixir_keyword_else");
        reveal_strlit("__elixir_later_clause_head");
        reveal_strlit("__elixir_second_clause_head");
        reveal_strlit("__elixir_try");
        reveal_strlit("and");
        reveal_strlit("anonymous_function");
        reveal_strlit("call");
        reveal_strlit("catch_block");
        reveal_strlit("charlist");
        reveal_strlit("comment");
        reveal_strlit("else_block");
        reveal_strlit("or");
        reveal_strlit("rescue_block");
        reveal_strlit("sigil");
        reveal_strlit("string");
        reveal_strlit("||");
        assert("&&"@.len() == 2);
        assert("__elixir_boolean_binary"@.len() == 23);
        assert("__elixir_branch"@.len() == 15);
        assert("__elixir_case_clause"@.len() == 20);
        assert("__elixir_comprehension"@.len() == 22);
        assert("__elixir_conditional"@.len() == 20);
        assert("__elixir_definition"@.len() == 19);
        assert("__elixir_keyword_else"@.len() == 21);
        assert("__elixir_later_clause_head"@.len() == 26);
        assert("__elixir_second_clause_head"@.len() == 27);
        assert("__elixir_try"@.len() == 12);
        assert("and"@.len() == 3);
        assert("anonymous_function"@.len() == 18);
        assert("call"@.len() == 4);
        assert("catch_block"@.len() == 11);
        assert("charlist"@.len() == 8);
        assert("comment"@.len() == 7);
        assert("else_block"@.len() == 10);
        assert("or"@.len() == 2);
        assert("rescue_block"@.len() == 12);
        assert("sigil"@.len() == 5);
        assert("string"@.len() == 6);
        assert("||"@.len() == 2);
        assert("__elixir_conditional"@[10] == 'o');
        assert("__elixir_case_clause"@[10] == 'a');
        assert("rescue_block"@[0] == 'r');
        assert("__elixir_try"@[0] == '_');
        assert("&&"@[0] == '&');
        assert("||"@[0] == '|');
        assert("or"@[0] == 'o');
    }
}

/// The kinds that Scala keeps apart are distinct.
proof fn lemma_scala_kinds_distinct()
    ensures
        texts_distinct(exclusive_kinds(Language::Scala)),
{
    reveal_with_fuel(kinds_in, 22);
    let s = exclusive_kinds(Language::Scala);
    assert(s =~= seq!["if_expression", "match_expression", "case_clause", "for_expression", "while_expression", "do_while_expression", "catch_clause", "try_expression", "return_expression", "infix_expression", "field_expression", "call_expression", "function_definition", "lambda_expression", "comment", "block_comment", "string", "interpolated_string_expression", "&&", "||", "block"]);
    assert(texts_distinct(s)) by {
        reveal_strlit("&&");
        reveal_strlit("block");
        reveal_strlit("block_comment");
        reveal_strlit("call_expression");
        reveal_strlit("case_clause");
        reveal_strlit("catch_clause");
        reveal_strlit("comment");
        reveal_strlit("do_while_expression");
        reveal_strlit("field_expression");
        reveal_strlit("for_expression");
        reveal_strlit("function_definition");
        reveal_strlit("if_expression");
        reveal_strlit("infix_expression");
        reveal_strlit("interpolated_string_expression");
        reveal_strlit("lambda_expression");
        reveal_strlit("match_expression");
        reveal_strlit("return_expression");
        reveal_strlit("string");
        reveal_strlit("try_expression");
        reveal_strlit("while_expression");
        reveal_strlit("||");
        assert("&&"@.len() == 2);
        assert("block"@.len() == 5);
        assert("block_comment"@.len() == 13);
        assert("call_expression"@.len() == 15);
        assert("case_clause"@.len() == 11);
        assert("catch_clause"@.len() == 12);
        assert("comment"@.len() == 7);
        assert("do_while_expression"@.len() == 19);
        assert("field_expression"@.len() == 16);
        assert("for_expression"@.len() == 14);
        assert("function_definition"@.len() == 19);
        assert("if_expression"@.len() == 13);
        assert("infix_expression"@.len() == 16);
        assert("interpolated_string_expression"@.len() == 30);
        assert("lambda_expression"@.len() == 17);
        assert("match_expression"@.len() == 16);
        assert("return_expression"@.len() == 17);
        assert("string"@.len() == 6);
        assert("try_expression"@.len() == 14);
        assert("while_expression"@.len() == 16);
        assert("||"@.len() == 2);
        assert("if_expression"@[0] == 'i');
        assert("block_comment"@[0] == 'b');
        assert("match_expression"@[0] == 'm');
        assert("while_expression"@[0] == 'w');
        assert("infix_expression"@[0] == 'i');
        assert("field_expression"@[0] == 'f');
        assert("for_expression"@[0] == 'f');
        assert("try_expression"@[0] == 't');
        assert("do_while_expression"@[0] == 'd');
        assert("function_definition"@[0] == 'f');
        assert("return_expression"@[0] == 'r');
        assert("lambda_expression"@[0] == 'l');
        assert("&&"@[0] == '&');
        assert("||"@[0] == '|');
    }
}

/// The kinds that VBNet keeps apart are distinct.
proof fn lemma_vbnet_kinds_distinct()
    ensures
        texts_distinct(exclusive_kinds(Language::VBNet)),
{
    reveal_with_fuel(kinds_in, 22);
    let s = exclusive_kinds(Language::VBNet);
    assert(s =~= seq!["if_statement", "elseif_clause", "select_case_statement", "case_clause", "for_statement", "for_each_statement", "while_statement", "do_statement", "catch_block", "try_statement", "exit_statement", "continue_statement", "goto_statement", "return_statement", "binary_expression", "member_access", "invocation", "method_declaration", "constructor_declaration", "lambda_expression", "comment", "string_literal", "interpolated_string_expression", "AndAlso", "OrElse", "And", "Or"]);
    assert(texts_distinct(s)) by {
        reveal_strlit("And");
        reveal_strlit("AndAlso");
        reveal_strlit("Or");
        reveal_strlit("OrElse");
        reveal_strlit("binary_expression");
        reveal_strlit("case_clause");
        reveal_strlit("catch_block");
        reveal_strlit("comment");
        reveal_strlit("constructor_declaration");
        reveal_strlit("continue_statement");
        reveal_strlit("do_statement");
        reveal_strlit("elseif_clause");
        reveal_strlit("exit_statement");
        reveal_strlit("for_each_statement");
        reveal_strlit("for_statement");
        reveal_strlit("goto_statement");
        reveal_strlit("if_statement");
        reveal_strlit("interpolated_string_expression");
        reveal_strlit("invocation");
        reveal_strlit("lambda_expression");
        reveal_strlit("member_access");
        reveal_strlit("method_declaration");
        reveal_strlit("return_statement");
        reveal_strlit("select_case_statement");
        reveal_strlit("string_literal");
        reveal_strlit("try_statement");
        reveal_strlit("while_statement");
        assert("And"@.len() == 3);
        assert("AndAlso"@.len() == 7);
        assert("Or"@.len() == 2);
        assert("OrElse"@.len() == 6);
        assert("binary_expression"@.len() == 17);
        assert("case_clause"@.len() == 11);
        assert("catch_block"@.len() == 11);
        assert("comment"@.len() == 7);
        assert("constructor_declaration"@.len() == 23);
        assert("continue_statement"@.len() == 18);
        assert("do_statement"@.len() == 12);
        assert("elseif_clause"@.len() == 13);
        assert("exit_statement"@.len() == 14);
        assert("for_each_statement"@.len() == 18);
        assert("for_statement"@.len() == 13);
        assert("goto_statement"@.len() == 14);
        assert("if_statement"@.len() == 12);
        assert("interpolated_string_expression"@.len() == 30);
        assert("invocation"@.len() == 10);
        assert("lambda_expression"@.len() == 17);
        assert("member_access"@.len() == 13);
        assert("method_declaration"@.len() == 18);
        assert("return_statement"@.len() == 16);
        assert("select_case_statement"@.len() == 21);
        assert("string_literal"@.len() == 14);
        assert("try_statement"@.len() == 13);
        assert("while_statement"@.len() == 15);
        assert("if_statement"@[0] == 'i');
        assert("do_statement"@[0] == 'd');
        assert("elseif_clause"@[0] == 'e');
        assert("for_statement"@[0] == 'f');
        assert("try_statement"@[0] == 't');
        assert("member_access"@[0] == 'm');
        assert("case_clause"@[2] == 's');
        assert("catch_block"@[2] == 't');
        assert("for_each_statement"@[0] == 'f');
        assert("continue_statement"@[0] == 'c');
        assert("method_declaration"@[0] == 'm');
        assert("exit_statement"@[0] == 'e');
        assert("goto_statement"@[0] == 'g');
        assert("string_literal"@[0] == 's');
        assert("binary_expression"@[0] == 'b');
        assert("lambda_expression"@[0] == 'l');
        assert("comment"@[0] == 'c');
        assert("AndAlso"@[0] == 'A');
    }
}

} // verus!
