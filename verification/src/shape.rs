//! Classifying commands and tree shapes.
//!
//! The thresholds here decide between one-line and multi-line layout.

use vstd::prelude::*;
use crate::ast::{Arg, BlockNode, Expr, ExprNode, ListEntry, RecordEntry};
use crate::model::text;
use crate::text::bytes_equal;

verus! {

/// How a command's arguments are laid out.
#[derive(Debug, Clone, Copy, PartialEq, Eq)]
pub enum CommandType {
    /// `def`, `def-env`, `export def`
    Definition,
    /// `extern`, `export extern`
    Extern,
    /// `if`, `try`
    Conditional,
    /// `let`, `let-env`, `mut`, `const`
    LetLike,
    /// `for`, `while`, `loop`, `module`
    BlockKeyword,
    /// Every other command.
    Regular,
}

/// The class of the command named `name`.
pub open spec fn command_type(name: Seq<u8>) -> CommandType {
    if name == text("def") || name == text("def-env") || name == text("export def") {
        CommandType::Definition
    } else if name == text("extern") || name == text("export extern") {
        CommandType::Extern
    } else if name == text("if") || name == text("try") {
        CommandType::Conditional
    } else if name == text("let") || name == text("let-env") || name == text("mut") || name
        == text("const") {
        CommandType::LetLike
    } else if name == text("for") || name == text("while") || name == text("loop") || name
        == text("module") {
        CommandType::BlockKeyword
    } else {
        CommandType::Regular
    }
}

/// Classifies a command by its name.
pub fn classify_command(name: &[u8]) -> (kind: CommandType)
    ensures
        kind == command_type(name@),
{
    if bytes_equal(name, "def".as_bytes()) || bytes_equal(name, "def-env".as_bytes())
        || bytes_equal(name, "export def".as_bytes()) {
        CommandType::Definition
    } else if bytes_equal(name, "extern".as_bytes()) || bytes_equal(
        name,
        "export extern".as_bytes(),
    ) {
        CommandType::Extern
    } else if bytes_equal(name, "if".as_bytes()) || bytes_equal(name, "try".as_bytes()) {
        CommandType::Conditional
    } else if bytes_equal(name, "let".as_bytes()) || bytes_equal(name, "let-env".as_bytes())
        || bytes_equal(name, "mut".as_bytes()) || bytes_equal(name, "const".as_bytes()) {
        CommandType::LetLike
    } else if bytes_equal(name, "for".as_bytes()) || bytes_equal(name, "while".as_bytes())
        || bytes_equal(name, "loop".as_bytes()) || bytes_equal(name, "module".as_bytes()) {
        CommandType::BlockKeyword
    } else {
        CommandType::Regular
    }
}

/// Whether an expression kind is a primitive literal: a number, a boolean, a
/// string, a variable, a path, a date or nothing.
pub open spec fn is_primitive(e: Expr) -> bool {
    e is Int || e is Float || e is Bool || e is String || e is RawString || e is Nothing
        || e is Var || e is Filepath || e is Directory || e is GlobPattern || e is DateTime
}

/// Whether an expression is simple: a primitive literal, or a cell path with
/// an empty tail over one.
pub open spec fn is_simple(e: ExprNode) -> bool {
    is_primitive(e.expr) || match e.expr {
        Expr::FullCellPath(head, tail) => tail.len() == 0 && is_primitive(head.expr),
        _ => false,
    }
}

fn is_primitive_expr(e: &Expr) -> (r: bool)
    ensures
        r == is_primitive(*e),
{
    match e {
        Expr::Int
        | Expr::Float
        | Expr::Bool
        | Expr::String
        | Expr::RawString
        | Expr::Nothing
        | Expr::Var
        | Expr::Filepath
        | Expr::Directory
        | Expr::GlobPattern
        | Expr::DateTime => true,
        _ => false,
    }
}

/// Whether an expression is simple enough to stand inline in a list or a
/// record.
pub fn is_simple_expr(e: &ExprNode) -> (r: bool)
    ensures
        r == is_simple(*e),
{
    if is_primitive_expr(&e.expr) {
        return true;
    }
    match &e.expr {
        Expr::FullCellPath(head, tail) => tail.len() == 0 && is_primitive_expr(&head.expr),
        _ => false,
    }
}

/// Whether an expression forces the block around it onto several lines: a
/// nested block or closure, a list of more than three items, a record of more
/// than two, or a call with such an argument.
pub open spec fn is_complex(e: ExprNode) -> bool
    decreases e, 0int,
{
    match e.expr {
        Expr::Block(_) | Expr::Closure(_) => true,
        Expr::List(items) => items.len() > 3,
        Expr::Record(items) => items.len() > 2,
        Expr::Call(call) => any_argument_complex(call.arguments, call.arguments.len() as int),
        _ => false,
    }
}

/// Whether one of the first `n` arguments is complex.
pub open spec fn any_argument_complex(arguments: Vec<Arg>, n: int) -> bool
    decreases arguments, n,
{
    if n <= 0 || n > arguments.len() {
        false
    } else {
        any_argument_complex(arguments, n - 1) || argument_is_complex(arguments[n - 1])
    }
}

/// Whether the expression that an argument carries is complex.
pub open spec fn argument_is_complex(argument: Arg) -> bool
    decreases argument, 0int,
{
    match argument {
        Arg::Positional(e) | Arg::Unknown(e) | Arg::Spread(e) => is_complex(e),
        Arg::Named { value: Some(e), .. } => is_complex(e),
        Arg::Named { value: None, .. } => false,
    }
}

/// Whether an expression is complex enough to warrant multi-line layout of
/// the block around it.
pub fn expr_is_complex(e: &ExprNode) -> (r: bool)
    ensures
        r == is_complex(*e),
    decreases e, 0int,
{
    match &e.expr {
        Expr::Block(_) | Expr::Closure(_) => true,
        Expr::List(items) => items.len() > 3,
        Expr::Record(items) => items.len() > 2,
        Expr::Call(call) => has_complex_argument(&call.arguments),
        _ => false,
    }
}

/// Whether one of the arguments is complex.
pub fn has_complex_argument(arguments: &Vec<Arg>) -> (r: bool)
    ensures
        r == any_argument_complex(*arguments, arguments.len() as int),
    decreases arguments, arguments.len(),
{
    let mut i: usize = 0;
    while i < arguments.len()
        invariant
            i <= arguments.len(),
            !any_argument_complex(*arguments, i as int),
        decreases arguments.len() - i,
    {
        let complex = match &arguments[i] {
            Arg::Positional(a) | Arg::Unknown(a) | Arg::Spread(a) => {
                expr_is_complex(a)
            },
            Arg::Named { value: Some(a), .. } => expr_is_complex(a),
            Arg::Named { value: None, .. } => false,
        };
        assert(complex == argument_is_complex(arguments[i as int]));
        if complex {
            assert(any_argument_complex(*arguments, i + 1));
            proof {
                lemma_any_argument_complex_grows(*arguments, i + 1, arguments.len() as int);
            }
            return true;
        }
        i += 1;
    }
    false
}

/// Once a complex argument is among the first `n`, it is among the first `m`
/// for every larger `m`.
pub proof fn lemma_any_argument_complex_grows(arguments: Vec<Arg>, n: int, m: int)
    requires
        0 <= n <= m <= arguments.len(),
        any_argument_complex(arguments, n),
    ensures
        any_argument_complex(arguments, m),
    decreases m - n,
{
    if n < m {
        lemma_any_argument_complex_grows(arguments, n, m - 1);
    }
}

/// Whether a block is simple: exactly one pipeline of exactly one element,
/// whose expression is not complex.
pub open spec fn block_is_simple(block: BlockNode) -> bool {
    block.pipelines.len() == 1 && block.pipelines[0].elements.len() == 1 && !is_complex(
        block.pipelines[0].elements[0].expr,
    )
}

/// Whether a block may be laid out on one line.
pub fn is_simple_block(block: &BlockNode) -> (r: bool)
    ensures
        r == block_is_simple(*block),
{
    block.pipelines.len() == 1 && block.pipelines[0].elements.len() == 1 && !expr_is_complex(
        &block.pipelines[0].elements[0].expr,
    )
}

/// Whether an expression kind counts as structured when it stands as a value
/// of a nested record.
pub open spec fn is_structured_value(e: Expr) -> bool {
    e is Record || e is List || e is Closure || e is Block || e is Var || e is FullCellPath
}

/// Whether one of the first `n` items is a pair with a structured value.
pub open spec fn any_structured_value(items: Vec<RecordEntry>, n: int) -> bool
    decreases n,
{
    if n <= 0 || n > items.len() {
        false
    } else {
        any_structured_value(items, n - 1) || match items[n - 1] {
            RecordEntry::Pair(_, value) => is_structured_value(value.expr),
            RecordEntry::Spread(_) => false,
        }
    }
}

/// Whether a record that stands inside another structure must be laid out
/// on several lines: it has at least two items, and one of its values is a
/// record, a list, a closure, a block, a variable or a cell path.
pub open spec fn record_is_nested_complex(items: Vec<RecordEntry>) -> bool {
    items.len() >= 2 && any_structured_value(items, items.len() as int)
}

/// Once a structured value is among the first `n` items, it is among the
/// first `m` for every larger `m`.
pub proof fn lemma_any_structured_value_grows(items: Vec<RecordEntry>, n: int, m: int)
    requires
        0 <= n <= m <= items.len(),
        any_structured_value(items, n),
    ensures
        any_structured_value(items, m),
    decreases m - n,
{
    if n < m {
        lemma_any_structured_value_grows(items, n, m - 1);
    }
}

/// Whether a nested record needs multi-line layout.
pub fn is_nested_complex_record(items: &Vec<RecordEntry>) -> (r: bool)
    ensures
        r == record_is_nested_complex(*items),
{
    if items.len() < 2 {
        return false;
    }
    let mut i: usize = 0;
    while i < items.len()
        invariant
            i <= items.len(),
            items.len() >= 2,
            !any_structured_value(*items, i as int),
        decreases items.len() - i,
    {
        let structured = match &items[i] {
            RecordEntry::Pair(_, value) => match &value.expr {
                Expr::Record(_)
                | Expr::List(_)
                | Expr::Closure(_)
                | Expr::Block(_)
                | Expr::Var
                | Expr::FullCellPath(_, _) => true,
                _ => false,
            },
            RecordEntry::Spread(_) => false,
        };
        if structured {
            assert(any_structured_value(*items, i + 1));
            proof {
                lemma_any_structured_value_grows(*items, i + 1, items.len() as int);
            }
            return true;
        }
        i += 1;
    }
    false
}

/// Whether each of the first `n` list items is simple.
pub open spec fn list_items_simple(items: Vec<ListEntry>, n: int) -> bool
    decreases n,
{
    if n <= 0 || n > items.len() {
        true
    } else {
        list_items_simple(items, n - 1) && is_simple(items[n - 1].expr)
    }
}

/// Whether each of the first `n` record items is simple: both key and value
/// of a pair, the expression of a spread.
pub open spec fn record_items_simple(items: Vec<RecordEntry>, n: int) -> bool
    decreases n,
{
    if n <= 0 || n > items.len() {
        true
    } else {
        record_items_simple(items, n - 1) && match items[n - 1] {
            RecordEntry::Pair(key, value) => is_simple(key) && is_simple(value),
            RecordEntry::Spread(e) => is_simple(e),
        }
    }
}

/// Once an item that is not simple is among the first `n`, it is among the
/// first `m` for every larger `m`.
pub proof fn lemma_list_items_simple_shrinks(items: Vec<ListEntry>, n: int, m: int)
    requires
        0 <= n <= m <= items.len(),
        !list_items_simple(items, n),
    ensures
        !list_items_simple(items, m),
    decreases m - n,
{
    if n < m {
        lemma_list_items_simple_shrinks(items, n, m - 1);
    }
}

/// Once an item that is not simple is among the first `n`, it is among the
/// first `m` for every larger `m`.
pub proof fn lemma_record_items_simple_shrinks(items: Vec<RecordEntry>, n: int, m: int)
    requires
        0 <= n <= m <= items.len(),
        !record_items_simple(items, n),
    ensures
        !record_items_simple(items, m),
    decreases m - n,
{
    if n < m {
        lemma_record_items_simple_shrinks(items, n, m - 1);
    }
}

/// Whether every item of a list is simple.
pub fn all_list_items_simple(items: &Vec<ListEntry>) -> (r: bool)
    ensures
        r == list_items_simple(*items, items.len() as int),
{
    let mut i: usize = 0;
    while i < items.len()
        invariant
            i <= items.len(),
            list_items_simple(*items, i as int),
        decreases items.len() - i,
    {
        if !is_simple_expr(&items[i].expr) {
            assert(!list_items_simple(*items, i + 1));
            proof {
                lemma_list_items_simple_shrinks(*items, i + 1, items.len() as int);
            }
            return false;
        }
        i += 1;
    }
    true
}

/// Whether every item of a record is simple.
pub fn all_record_items_simple(items: &Vec<RecordEntry>) -> (r: bool)
    ensures
        r == record_items_simple(*items, items.len() as int),
{
    let mut i: usize = 0;
    while i < items.len()
        invariant
            i <= items.len(),
            record_items_simple(*items, i as int),
        decreases items.len() - i,
    {
        let simple = match &items[i] {
            RecordEntry::Pair(key, value) => is_simple_expr(key) && is_simple_expr(value),
            RecordEntry::Spread(e) => is_simple_expr(e),
        };
        if !simple {
            assert(!record_items_simple(*items, i + 1));
            proof {
                lemma_record_items_simple_shrinks(*items, i + 1, items.len() as int);
            }
            return false;
        }
        i += 1;
    }
    true
}

} // verus!
