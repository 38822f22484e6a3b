use nu_formatter::ast::{
    Arg, ArmPattern, AttributeBlock, BlockNode, CallNode, Element, Expr, ExprNode, ExternalArg,
    FlagParam, Keyword, ListEntry, MatchArm, Parameter, Params, PathStep, Pattern, PatternEntry,
    PipelineNode, Range, RecordEntry, Redirection, Span, Table, Target, ValueWithUnit,
};
use nu_formatter::config::Config;
use nu_formatter::format_error::FormatError;
use nu_formatter::formatting::format_program;
use nu_formatter::garbage::{expr_has_garbage, has_garbage};
use nu_formatter::lower::{any_marked, parse_program, typed_shape};
use nu_formatter::shape::{
    classify_command, expr_is_complex, is_simple_block, is_simple_expr, CommandType,
};
use nu_formatter::signature::signature_parameters;

fn span(start: usize, end: usize) -> Span {
    Span { start, end }
}

fn node(expr: Expr, start: usize, end: usize) -> ExprNode {
    ExprNode { expr, span: span(start, end) }
}

/// The expression that stands for the first occurrence of `word` in
/// `source`.
fn word(source: &str, word: &str, expr: Expr) -> ExprNode {
    let start = source.find(word).expect("word in source");
    node(expr, start, start + word.len())
}

fn element(expr: ExprNode) -> Element {
    Element { expr, redirection: None }
}

fn pipeline(elements: Vec<ExprNode>) -> PipelineNode {
    PipelineNode { elements: elements.into_iter().map(element).collect() }
}

fn block(pipelines: Vec<PipelineNode>) -> BlockNode {
    BlockNode { pipelines }
}

fn program(expr: ExprNode) -> BlockNode {
    block(vec![pipeline(vec![expr])])
}

fn item(expr: ExprNode) -> ListEntry {
    ListEntry { spread: false, expr }
}

fn render(source: &str, tree: &BlockNode) -> String {
    let out = format_program(source.as_bytes(), tree, &Config::default()).expect("formatting");
    String::from_utf8(out).expect("utf8")
}

fn ints(source: &str, words: &[&str]) -> Vec<ListEntry> {
    words.iter().map(|w| item(word(source, w, Expr::Int))).collect()
}

#[test]
fn literal_is_copied_as_written() {
    let source = "   0x_1F  ";
    let tree = program(word(source, "0x_1F", Expr::Int));
    assert_eq!(render(source, &tree), "0x_1F");
}

#[test]
fn five_items_stay_on_one_line() {
    let source = "[1 2 3 4 5]";
    let tree = program(node(Expr::List(ints(source, &["1", "2", "3", "4", "5"])), 0, 11));
    assert_eq!(render(source, &tree), "[1, 2, 3, 4, 5]");
}

#[test]
fn six_items_go_one_per_line() {
    let source = "[1 2 3 4 5 6]";
    let tree = program(node(Expr::List(ints(source, &["1", "2", "3", "4", "5", "6"])), 0, 13));
    assert_eq!(render(source, &tree), "[\n    1\n    2\n    3\n    4\n    5\n    6\n]");
}

#[test]
fn list_with_an_item_that_is_not_simple_goes_one_per_line() {
    let source = "[1 [2]]";
    let inner = node(Expr::List(ints(source, &["2"])), 3, 6);
    let items = vec![item(word(source, "1", Expr::Int)), item(inner)];
    let tree = program(node(Expr::List(items), 0, 7));
    assert_eq!(render(source, &tree), "[\n    1\n    [2]\n]");
}

#[test]
fn spread_item() {
    let source = "[...$a 1]";
    let items = vec![
        ListEntry { spread: true, expr: word(source, "$a", Expr::Var) },
        item(word(source, "1", Expr::Int)),
    ];
    let tree = program(node(Expr::List(items), 0, 9));
    assert_eq!(render(source, &tree), "[...$a, 1]");
}

#[test]
fn tree_with_garbage_is_rejected() {
    let source = "1 + )";
    let sum = Expr::BinaryOp(
        Box::new(word(source, "1", Expr::Int)),
        Box::new(word(source, "+", Expr::Operator { assignment: false })),
        Box::new(word(source, ")", Expr::Garbage)),
    );
    let tree = program(node(sum, 0, 5));
    assert!(has_garbage(&tree));
    assert_eq!(
        format_program(source.as_bytes(), &tree, &Config::default()),
        Err(FormatError::GarbageFound)
    );
}

#[test]
fn garbage_is_searched_in_nested_blocks_and_arguments() {
    let source = "foo { ) }";
    let body = program(word(source, ")", Expr::Garbage));
    let call = CallNode {
        name: b"foo".to_vec(),
        head: span(0, 3),
        arguments: vec![Arg::Positional(node(Expr::Closure(Box::new(body)), 4, 9))],
    };
    assert!(expr_has_garbage(&node(Expr::Call(Box::new(call)), 0, 9)));
    assert!(!expr_has_garbage(&word(source, "foo", Expr::String)));
}

#[test]
fn garbage_is_searched_in_every_kind_of_expression() {
    let source = "else ) 1..) $a.b 3kb";
    let bad = || word(source, ")", Expr::Garbage);
    let good = || word(source, "1", Expr::Int);
    let wrap = |expr: Expr| node(expr, 0, 20);
    let trees = vec![
        wrap(Expr::Keyword(Box::new(Keyword { span: span(0, 4), expr: bad() }))),
        wrap(Expr::Range(Box::new(Range {
            from: Some(good()),
            next: None,
            to: Some(bad()),
            operator: span(8, 10),
        }))),
        wrap(Expr::Range(Box::new(Range {
            from: None,
            next: Some(bad()),
            to: None,
            operator: span(8, 10),
        }))),
        wrap(Expr::FullCellPath(Box::new(bad()), vec![])),
        wrap(Expr::ValueWithUnit(Box::new(ValueWithUnit { expr: bad(), unit: span(18, 20) }))),
        wrap(Expr::Collect(Box::new(bad()))),
        wrap(Expr::UnaryNot(Box::new(bad()))),
        wrap(Expr::RowCondition(Box::new(program(bad())))),
        wrap(Expr::AttributeBlock(Box::new(AttributeBlock { attributes: vec![], item: bad() }))),
        wrap(Expr::ExternalCall(Box::new(bad()), vec![])),
        wrap(Expr::ExternalCall(
            Box::new(good()),
            vec![ExternalArg { spread: false, expr: bad() }],
        )),
        wrap(Expr::Table(Box::new(Table { columns: vec![bad()], rows: vec![] }))),
        wrap(Expr::Table(Box::new(Table {
            columns: vec![good()],
            rows: vec![vec![good(), bad()]],
        }))),
        wrap(Expr::MatchBlock(vec![MatchArm {
            pattern: ArmPattern { pattern: Pattern::IgnoreValue, guard: None, span: span(0, 1) },
            value: bad(),
        }])),
        wrap(Expr::MatchBlock(vec![MatchArm {
            pattern: ArmPattern { pattern: Pattern::Garbage, guard: None, span: span(0, 1) },
            value: good(),
        }])),
        wrap(Expr::MatchBlock(vec![MatchArm {
            pattern: ArmPattern {
                pattern: Pattern::IgnoreValue,
                guard: Some(Box::new(bad())),
                span: span(0, 1),
            },
            value: good(),
        }])),
        wrap(Expr::MatchBlock(vec![MatchArm {
            pattern: ArmPattern {
                pattern: Pattern::List(vec![ArmPattern {
                    pattern: Pattern::Expression(Box::new(bad())),
                    guard: None,
                    span: span(0, 1),
                }]),
                guard: None,
                span: span(0, 1),
            },
            value: good(),
        }])),
    ];
    for tree in trees {
        assert!(expr_has_garbage(&tree), "{tree:?}");
        assert_eq!(
            format_program(source.as_bytes(), &program(tree), &Config::default()),
            Err(FormatError::GarbageFound)
        );
    }
    assert!(!expr_has_garbage(&wrap(Expr::Keyword(Box::new(Keyword {
        span: span(0, 4),
        expr: good()
    })))));
}

#[test]
fn garbage_is_searched_in_redirection_targets() {
    let source = "a o> )";
    let element = Element {
        expr: word(source, "a", Expr::String),
        redirection: Some(Redirection::Single(Target::File {
            span: span(2, 4),
            expr: word(source, ")", Expr::Garbage),
        })),
    };
    let tree = block(vec![PipelineNode { elements: vec![element] }]);
    assert!(has_garbage(&tree));
    assert_eq!(
        format_program(source.as_bytes(), &tree, &Config::default()),
        Err(FormatError::GarbageFound)
    );
}

#[test]
fn comment_inside_a_list_is_written_behind_it() {
    let source = "[1 #c\n2]";
    let tree = program(node(Expr::List(ints(source, &["1", "2"])), 0, 9));
    assert_eq!(render(source, &tree), "[1, 2]\n#c\n");
}

#[test]
fn comment_inside_copied_text_is_not_written_again() {
    let source = "{|x #c\n 1 }";
    let body = program(word(source, "1", Expr::Int));
    let tree = program(node(Expr::Closure(Box::new(body)), 0, source.len()));
    assert_eq!(render(source, &tree), "{|x #c\n 1 }");
}

#[test]
fn range_outside_the_source_is_rejected() {
    let source = "12";
    let tree = program(node(Expr::Int, 0, 3));
    assert_eq!(
        format_program(source.as_bytes(), &tree, &Config::default()),
        Err(FormatError::InvariantViolated)
    );
    let tree = program(node(Expr::Int, 2, 1));
    assert_eq!(
        format_program(source.as_bytes(), &tree, &Config::default()),
        Err(FormatError::InvariantViolated)
    );
}

#[test]
fn comment_that_would_be_copied_twice_is_rejected() {
    let source = "'a #c'";
    let copy = || node(Expr::GlobPattern, 0, 6);
    let once = block(vec![pipeline(vec![copy()])]);
    assert_eq!(render(source, &once), "'a #c'");
    let source = "x #c\ny";
    let twice = block(vec![pipeline(vec![node(Expr::Int, 0, 6), node(Expr::Int, 0, 6)])]);
    assert_eq!(
        format_program(source.as_bytes(), &twice, &Config::default()),
        Err(FormatError::InvariantViolated)
    );
    let once = block(vec![pipeline(vec![node(Expr::Int, 0, 6)])]);
    assert_eq!(render(source, &once), "x #c\ny");
}

#[test]
fn comment_that_was_written_and_would_be_copied_is_rejected() {
    let source = "#c\nx";
    let tree = block(vec![
        pipeline(vec![node(Expr::Int, 3, 4)]),
        pipeline(vec![node(Expr::Int, 0, 4)]),
    ]);
    assert_eq!(
        format_program(source.as_bytes(), &tree, &Config::default()),
        Err(FormatError::InvariantViolated)
    );
}

#[test]
fn program_without_code_and_comments_stays_as_it_is() {
    assert_eq!(render("  \n ", &block(vec![])), "  \n ");
}

#[test]
fn program_without_code_keeps_its_comments() {
    assert_eq!(render("  # a\n\n   # b", &block(vec![])), "# a\n# b\n");
}

#[test]
fn pipeline_elements_are_joined() {
    let source = "a|b|c";
    let tree = block(vec![pipeline(vec![
        word(source, "a", Expr::String),
        word(source, "b", Expr::String),
        word(source, "c", Expr::String),
    ])]);
    assert_eq!(render(source, &tree), "a | b | c");
}

#[test]
fn pipelines_go_on_lines_of_their_own() {
    let source = "a;b";
    let tree = block(vec![
        pipeline(vec![word(source, "a", Expr::String)]),
        pipeline(vec![word(source, "b", Expr::String)]),
    ]);
    assert_eq!(render(source, &tree), "a\nb");
}

#[test]
fn redirection_targets() {
    let source = "a o> f e> g";
    let file = |op: &str, name: &str| Target::File {
        span: span(source.find(op).unwrap(), source.find(op).unwrap() + 2),
        expr: word(source, name, Expr::Filepath),
    };
    let single = Element {
        expr: word(source, "a", Expr::String),
        redirection: Some(Redirection::Single(file("o>", "f"))),
    };
    assert_eq!(
        render(source, &block(vec![PipelineNode { elements: vec![single] }])),
        "a o> f"
    );
    let separate = Element {
        expr: word(source, "a", Expr::String),
        redirection: Some(Redirection::Separate { out: file("o>", "f"), err: file("e>", "g") }),
    };
    assert_eq!(
        render(source, &block(vec![PipelineNode { elements: vec![separate] }])),
        "a o> f e> g"
    );
}

#[test]
fn range_with_a_step() {
    let source = "1..3..=9";
    let range = Range {
        from: Some(word(source, "1", Expr::Int)),
        next: Some(word(source, "3", Expr::Int)),
        to: Some(word(source, "9", Expr::Int)),
        operator: span(4, 7),
    };
    assert_eq!(render(source, &program(node(Expr::Range(Box::new(range)), 0, 8))), "1..3..=9");
}

#[test]
fn range_without_bounds_on_one_side() {
    let source = "..5";
    let range = Range {
        from: None,
        next: None,
        to: Some(word(source, "5", Expr::Int)),
        operator: span(0, 2),
    };
    assert_eq!(render(source, &program(node(Expr::Range(Box::new(range)), 0, 3))), "..5");
}

#[test]
fn cell_path_members() {
    let source = "$a";
    let tail = vec![
        PathStep::Name { name: b"b".to_vec(), optional: false },
        PathStep::Index { index: 10, optional: false },
        PathStep::Name { name: b"c".to_vec(), optional: true },
        PathStep::Index { index: 0, optional: true },
    ];
    let path = Expr::FullCellPath(Box::new(word(source, "$a", Expr::Var)), tail);
    assert_eq!(render(source, &program(node(path, 0, 2))), "$a.b.10.?c.?0");
}

#[test]
fn negation() {
    let source = "not   true";
    let tree = program(node(Expr::UnaryNot(Box::new(word(source, "true", Expr::Bool))), 0, 10));
    assert_eq!(render(source, &tree), "not true");
}

#[test]
fn external_call_with_and_without_caret() {
    let source = "^git  status ...$rest";
    let call = |head: ExprNode| {
        Expr::ExternalCall(
            Box::new(head),
            vec![
                ExternalArg { spread: false, expr: word(source, "status", Expr::String) },
                ExternalArg { spread: true, expr: word(source, "$rest", Expr::Var) },
            ],
        )
    };
    let tree = program(node(call(word(source, "git", Expr::String)), 0, 21));
    assert_eq!(render(source, &tree), "^git status ...$rest");
    let source = " git  status ...$rest";
    let tree = program(node(call(word(source, "git", Expr::String)), 1, 21));
    assert_eq!(render(source, &tree), "git status ...$rest");
}

#[test]
fn closure_with_an_open_parameter_list_is_copied() {
    let source = "{|x 1 }";
    let body = program(word(source, "1", Expr::Int));
    let tree = program(node(Expr::Closure(Box::new(body)), 0, 7));
    assert_eq!(render(source, &tree), "{|x 1 }");
}

#[test]
fn closure_bodies() {
    let source = "{| a |  }";
    let tree = program(node(Expr::Closure(Box::new(block(vec![]))), 0, 9));
    assert_eq!(render(source, &tree), "{|a| }");
    let source = "{ 1 }";
    let body = program(word(source, "1", Expr::Int));
    assert_eq!(render(source, &program(node(Expr::Closure(Box::new(body)), 0, 5))), "{ 1 }");
    let source = "{|x| 1; 2 }";
    let body = block(vec![
        pipeline(vec![word(source, "1", Expr::Int)]),
        pipeline(vec![word(source, "2", Expr::Int)]),
    ]);
    assert_eq!(
        render(source, &program(node(Expr::Closure(Box::new(body)), 0, 11))),
        "{|x| \n    1\n    2\n}"
    );
}

#[test]
fn block_with_and_without_braces() {
    let source = "{}";
    let call = |kind: &str, body: BlockNode| {
        program(node(
            Expr::Call(Box::new(CallNode {
                name: kind.as_bytes().to_vec(),
                head: span(0, 0),
                arguments: vec![Arg::Positional(node(Expr::Block(Box::new(body)), 0, 2))],
            })),
            0,
            2,
        ))
    };
    assert_eq!(render(source, &call("if", block(vec![]))), "{ }");
    assert_eq!(render(source, &call("echo", block(vec![]))), "");
}

#[test]
fn subexpressions() {
    let source = "(1)";
    let body = program(word(source, "1", Expr::Int));
    assert_eq!(render(source, &program(node(Expr::Subexpression(Box::new(body)), 0, 3))), "(1)");
    assert_eq!(
        render(source, &program(node(Expr::Subexpression(Box::new(block(vec![]))), 0, 3))),
        "()"
    );
    let source = "($\"a\")";
    let body = program(word(source, "$\"a\"", Expr::StringInterpolation));
    assert_eq!(render(source, &program(node(Expr::Subexpression(Box::new(body)), 0, 6))), "$\"a\"");
    let source = "(a | b)";
    let body = block(vec![pipeline(vec![
        word(source, "a", Expr::String),
        word(source, "b", Expr::String),
    ])]);
    assert_eq!(
        render(source, &program(node(Expr::Subexpression(Box::new(body)), 0, 7))),
        "(\n    a | b\n)"
    );
}

#[test]
fn flags() {
    let source = "ls --all -l --depth 2";
    let call = CallNode {
        name: b"ls".to_vec(),
        head: span(0, 2),
        arguments: vec![
            Arg::Named { long: span(3, 8), short: None, value: None },
            Arg::Named { long: span(9, 11), short: Some(span(9, 11)), value: None },
            Arg::Named {
                long: span(12, 19),
                short: None,
                value: Some(word(source, "2", Expr::Int)),
            },
        ],
    };
    assert_eq!(render(source, &program(node(Expr::Call(Box::new(call)), 0, 21))), source);
}

#[test]
fn binding_writes_the_equals_sign() {
    let source = "let x 1";
    let call = CallNode {
        name: b"let".to_vec(),
        head: span(0, 3),
        arguments: vec![
            Arg::Positional(word(source, "x", Expr::VarDecl)),
            Arg::Positional(node(
                Expr::Block(Box::new(program(word(source, "1", Expr::Int)))),
                6,
                7,
            )),
        ],
    };
    assert_eq!(render(source, &program(node(Expr::Call(Box::new(call)), 0, 7))), "let x = 1");
}

#[test]
fn table() {
    let source = "a b 1 2 3 4";
    let cell = |w: &str, e: Expr| word(source, w, e);
    let table = Table {
        columns: vec![cell("a", Expr::String), cell("b", Expr::String)],
        rows: vec![
            vec![cell("1", Expr::Int), cell("2", Expr::Int)],
            vec![cell("3", Expr::Int), cell("4", Expr::Int)],
        ],
    };
    assert_eq!(
        render(source, &program(node(Expr::Table(Box::new(table)), 0, 11))),
        "[[a, b]; [1, 2], [3, 4]]"
    );
    let empty = Table { columns: vec![cell("a", Expr::String)], rows: vec![] };
    assert_eq!(render(source, &program(node(Expr::Table(Box::new(empty)), 0, 11))), "[[a]]");
}

#[test]
fn record_inside_a_structure() {
    let source = "a $x b 1";
    let pair = |k: &str, v: ExprNode| RecordEntry::Pair(word(source, k, Expr::String), v);
    let record = || {
        node(
            Expr::Record(vec![
                pair("a", word(source, "$x", Expr::Var)),
                pair("b", word(source, "1", Expr::Int)),
            ]),
            0,
            8,
        )
    };
    assert_eq!(render(source, &program(record())), "{a: $x, b: 1}");
    assert_eq!(
        render(source, &program(node(Expr::List(vec![item(record())]), 0, 8))),
        "[\n    {\n        a: $x\n        b: 1\n    }\n]"
    );
    let single = node(Expr::Record(vec![pair("a", word(source, "$x", Expr::Var))]), 0, 8);
    assert_eq!(
        render(source, &program(node(Expr::List(vec![item(single)]), 0, 8))),
        "[\n    {a: $x}\n]"
    );
}

#[test]
fn match_patterns() {
    let source = "1 2 $v ..$r x";
    let leaf = |w: &str, p: Pattern| {
        let start = source.find(w).unwrap();
        ArmPattern { pattern: p, guard: None, span: span(start, start + w.len()) }
    };
    let arm = |pattern: ArmPattern| MatchArm { pattern, value: word(source, "x", Expr::String) };
    let arms = vec![
        arm(ArmPattern {
            pattern: Pattern::Or(vec![leaf("1", Pattern::Value), leaf("2", Pattern::Value)]),
            guard: None,
            span: span(0, 3),
        }),
        arm(ArmPattern {
            pattern: Pattern::List(vec![
                leaf("$v", Pattern::Variable),
                leaf("..$r", Pattern::Rest),
                leaf("1", Pattern::IgnoreRest),
            ]),
            guard: None,
            span: span(0, 3),
        }),
        arm(ArmPattern {
            pattern: Pattern::Record(vec![
                PatternEntry { key: b"k".to_vec(), pattern: leaf("$v", Pattern::Variable) },
                PatternEntry { key: b"l".to_vec(), pattern: leaf("1", Pattern::IgnoreValue) },
            ]),
            guard: Some(Box::new(word(source, "$v", Expr::Var))),
            span: span(0, 3),
        }),
        arm(ArmPattern {
            pattern: Pattern::Expression(Box::new(word(source, "2", Expr::Int))),
            guard: None,
            span: span(2, 3),
        }),
    ];
    assert_eq!(
        render(source, &program(node(Expr::MatchBlock(arms), 0, 13))),
        "{\n    1 | 2 => x\n    [$v, ..$r, ..] => x\n    {k: $v, l: _} if $v => x\n    2 => x\n}"
    );
}

fn parameter(name: &str, shape: Option<&str>, default: Option<&str>) -> Parameter {
    Parameter {
        name: name.as_bytes().to_vec(),
        shape: shape.map(|s| s.as_bytes().to_vec()),
        default: default.map(|s| s.as_bytes().to_vec()),
    }
}

fn flag(long: &str, short: Option<&str>, shape: Option<&str>, default: Option<&str>) -> FlagParam {
    FlagParam {
        long: long.as_bytes().to_vec(),
        short: short.map(|s| s.as_bytes().to_vec()),
        shape: shape.map(|s| s.as_bytes().to_vec()),
        default: default.map(|s| s.as_bytes().to_vec()),
    }
}

fn texts(params: Vec<Vec<u8>>) -> Vec<String> {
    params.into_iter().map(|p| String::from_utf8(p).unwrap()).collect()
}

#[test]
fn parameter_texts() {
    let signature = Params {
        required: vec![parameter("a", None, None), parameter("b", Some("int"), None)],
        optional: vec![
            parameter("c", None, None),
            parameter("d", Some("string"), None),
            parameter("e", Some("int"), Some("5")),
            parameter("f", None, Some("'x'")),
        ],
        flags: vec![
            flag("help", Some("h"), None, None),
            flag("all", None, None, None),
            flag("long", Some("l"), None, None),
            flag("", Some("s"), None, None),
            flag("depth", Some("d"), Some("int"), None),
            flag("name", None, Some("string"), Some("'n'")),
        ],
        rest: Some(parameter("rest", Some("string"), None)),
        complete: true,
    };
    assert_eq!(
        texts(signature_parameters(&signature)),
        vec![
            "a",
            "b: int",
            "c?",
            "d?: string",
            "e: int = 5",
            "f = 'x'",
            "--all",
            "--long(-l)",
            "-s",
            "--depth(-d): int",
            "--name: string = 'n'",
            "...rest: string",
        ]
    );
}

fn definition(signature: Params) -> BlockNode {
    program(node(
        Expr::Call(Box::new(CallNode {
            name: b"def".to_vec(),
            head: span(0, 3),
            arguments: vec![
                Arg::Positional(node(Expr::String, 4, 5)),
                Arg::Positional(node(Expr::Signature(Box::new(signature)), 6, 8)),
                Arg::Positional(node(Expr::Closure(Box::new(block(vec![]))), 9, 11)),
            ],
        })),
        0,
        11,
    ))
}

#[test]
fn signature_of_three_parameters_stays_on_one_line() {
    let signature = Params {
        required: vec![parameter("a", None, None)],
        optional: vec![parameter("b", None, None)],
        flags: vec![flag("help", Some("h"), None, None), flag("c", None, None, None)],
        rest: None,
        complete: true,
    };
    assert_eq!(render("def f [] {}", &definition(signature)), "def f [a, b?, --c] { }");
    let none =
        Params { required: vec![], optional: vec![], flags: vec![], rest: None, complete: true };
    assert_eq!(render("def f [] {}", &definition(none)), "def f [] { }");
}

#[test]
fn signature_of_four_parameters_goes_one_per_line() {
    let signature = Params {
        required: vec![parameter("a", None, None), parameter("b", None, None)],
        optional: vec![parameter("c", None, None)],
        flags: vec![],
        rest: Some(parameter("d", None, None)),
        complete: true,
    };
    assert_eq!(
        render("def f [] {}", &definition(signature)),
        "def f [\n    a\n    b\n    c?\n    ...d\n] { }"
    );
}

#[test]
fn signature_that_says_more_than_its_parameters_is_copied() {
    let signature = Params {
        required: vec![parameter("a", None, None)],
        optional: vec![],
        flags: vec![],
        rest: None,
        complete: false,
    };
    assert_eq!(render("def f [] {}", &definition(signature)), "def f [] { }");
}

#[test]
fn command_classes() {
    for name in ["def", "def-env", "export def"] {
        assert_eq!(classify_command(name.as_bytes()), CommandType::Definition);
    }
    for name in ["extern", "export extern"] {
        assert_eq!(classify_command(name.as_bytes()), CommandType::Extern);
    }
    for name in ["if", "try"] {
        assert_eq!(classify_command(name.as_bytes()), CommandType::Conditional);
    }
    for name in ["let", "let-env", "mut", "const"] {
        assert_eq!(classify_command(name.as_bytes()), CommandType::LetLike);
    }
    for name in ["for", "while", "loop", "module"] {
        assert_eq!(classify_command(name.as_bytes()), CommandType::BlockKeyword);
    }
    for name in ["echo", "", "defx", "export", "If"] {
        assert_eq!(classify_command(name.as_bytes()), CommandType::Regular);
    }
}

#[test]
fn simple_and_complex_expressions() {
    let source = "1 2 3 4";
    assert!(is_simple_expr(&word(source, "1", Expr::Int)));
    let bare = Expr::FullCellPath(Box::new(word(source, "1", Expr::Var)), vec![]);
    assert!(is_simple_expr(&node(bare, 0, 1)));
    assert!(!is_simple_expr(&node(
        Expr::FullCellPath(
            Box::new(word(source, "1", Expr::Var)),
            vec![PathStep::Index { index: 0, optional: false }]
        ),
        0,
        1
    )));
    assert!(!is_simple_expr(&node(Expr::List(vec![]), 0, 1)));
    assert!(!expr_is_complex(&node(Expr::List(ints(source, &["1", "2", "3"])), 0, 7)));
    assert!(expr_is_complex(&node(Expr::List(ints(source, &["1", "2", "3", "4"])), 0, 7)));
    assert!(expr_is_complex(&node(Expr::Closure(Box::new(block(vec![]))), 0, 1)));
    let call = |argument: ExprNode| {
        node(
            Expr::Call(Box::new(CallNode {
                name: b"f".to_vec(),
                head: span(0, 1),
                arguments: vec![Arg::Named {
                    long: span(0, 1),
                    short: None,
                    value: Some(argument),
                }],
            })),
            0,
            1,
        )
    };
    assert!(expr_is_complex(&call(node(Expr::Block(Box::new(block(vec![]))), 0, 1))));
    assert!(!expr_is_complex(&call(word(source, "1", Expr::Int))));
    assert!(is_simple_block(&program(word(source, "1", Expr::Int))));
    assert!(!is_simple_block(&block(vec![])));
    assert!(!is_simple_block(&program(node(Expr::Closure(Box::new(block(vec![]))), 0, 1))));
}

#[test]
fn parameter_of_type_any_is_untyped() {
    assert_eq!(typed_shape(b"any".to_vec()), None);
    assert_eq!(typed_shape(b"int".to_vec()), Some(b"int".to_vec()));
    assert_eq!(typed_shape(b"anything".to_vec()), Some(b"anything".to_vec()));
    assert_eq!(typed_shape(Vec::new()), Some(Vec::new()));
}

#[test]
fn marks() {
    assert!(!any_marked(&vec![]));
    assert!(!any_marked(&vec![false, false]));
    assert!(any_marked(&vec![false, true, false]));
    assert!(any_marked(&vec![true]));
}

#[test]
fn parsed_list_has_an_entry_for_each_item() {
    let tree = parse_program(b"[1 2 3]");
    assert_eq!(tree.pipelines.len(), 1);
    assert_eq!(tree.pipelines[0].elements.len(), 1);
    let items = match &tree.pipelines[0].elements[0].expr.expr {
        Expr::List(items) => items.len(),
        Expr::FullCellPath(head, _) => match &head.expr {
            Expr::List(items) => items.len(),
            other => panic!("no list: {other:?}"),
        },
        other => panic!("no list: {other:?}"),
    };
    assert_eq!(items, 3);
}

#[test]
fn parsed_call_has_the_name_of_its_declaration() {
    let tree = parse_program(b"let x = 1");
    match &tree.pipelines[0].elements[0].expr.expr {
        Expr::Call(call) => assert_eq!(call.name, b"let".to_vec()),
        other => panic!("no call: {other:?}"),
    }
}

