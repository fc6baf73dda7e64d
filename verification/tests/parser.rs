use oxipy::ast::{Arguments, AttrName, BinOpKind, DictItem, Expr, Identifier, Keyword};
use oxipy::combinators::Combinator;
use oxipy::cursor::{Parser, ParserProgress};
use oxipy::errors::{ParseErrorType, ParseFailure};
use oxipy::subproc::RedirectType;
use oxipy::text::TextRange;
use oxipy::token::{StringFlavor, Token, TokenKind};

fn parser(src: &str, toks: Vec<Token>) -> Parser {
    Parser::new(toks, src.as_bytes().to_vec()).expect("well-formed token stream")
}

fn r(start: usize, end: usize) -> TextRange {
    TextRange { start, end }
}

fn lit(text: &str, start: usize, end: usize) -> Expr {
    Expr::StringLiteral {
        value: text.as_bytes().to_vec(),
        flavor: StringFlavor::Plain,
        range: r(start, end),
    }
}

fn ox(start: usize, end: usize) -> Expr {
    Expr::Name { id: b"ox".to_vec(), range: r(start, end) }
}

fn ox_attr(name: AttrName, name_range: TextRange, range: TextRange) -> Expr {
    Expr::Attribute { value: Box::new(ox(name_range.start, name_range.end)), attr: name, range }
}

#[test]
fn round_trip_bare_ls_la() {
    // `ls -la` inside `![...]`: the chain `ox.cmd("ls", "-la").hide()`, each
    // argument the exact source slice.
    let src = "![ls -la]";
    let toks = vec![
        Token::plain(TokenKind::Name, 2, 4),
        Token::plain(TokenKind::Other, 5, 6),
        Token::plain(TokenKind::Name, 6, 8),
        Token::plain(TokenKind::Rsqb, 8, 9),
    ];
    let mut p = parser(src, toks);
    let got = p
        .parse_subprocs(AttrName::Hide, TokenKind::Rsqb)
        .expect("well-formed subprocess parses");

    let cmd_call = Expr::Call {
        func: Box::new(ox_attr(AttrName::Cmd, r(2, 4), r(2, 4))),
        arguments: Arguments {
            range: r(2, 9),
            args: vec![lit("ls", 2, 4), lit("-la", 5, 8)],
            keywords: vec![],
        },
        range: r(2, 9),
    };
    let expected = Expr::Call {
        func: Box::new(Expr::Attribute {
            value: Box::new(cmd_call),
            attr: AttrName::Hide,
            range: r(2, 9),
        }),
        arguments: Arguments { range: r(2, 9), args: vec![], keywords: vec![] },
        range: r(2, 9),
    };
    assert_eq!(got, expected);
}

#[test]
fn write_redirect_builds_one_entry_dict() {
    // `cat file.txt > out.txt`: positional "cat" and "file.txt", plus a
    // `writes` keyword mapping "" to "out.txt".
    let src = "$(cat file.txt > out.txt)";
    let toks = vec![
        Token::plain(TokenKind::Name, 2, 5),
        Token::plain(TokenKind::Name, 6, 10),
        Token::plain(TokenKind::Other, 10, 11),
        Token::plain(TokenKind::Name, 11, 14),
        Token::plain(TokenKind::Greater, 15, 16),
        Token::plain(TokenKind::Name, 17, 20),
        Token::plain(TokenKind::Other, 20, 21),
        Token::plain(TokenKind::Name, 21, 24),
        Token::plain(TokenKind::Rpar, 24, 25),
    ];
    let mut p = parser(src, toks);
    let got = p.parse_cmd_group(TokenKind::Rpar).expect("group parses");

    assert_eq!(got.args, vec![lit("cat", 2, 5), lit("file.txt", 6, 14)]);
    assert_eq!(got.keywords.len(), 1);
    let kw = &got.keywords[0];
    assert_eq!(
        kw.arg,
        Some(Identifier { id: AttrName::Writes, range: r(25, 25) })
    );
    let expected_dict = Expr::Dict {
        items: vec![DictItem { key: Some(lit("", 15, 16)), value: lit("out.txt", 17, 24) }],
        range: r(15, 24),
    };
    assert_eq!(kw.value, expected_dict);
    assert_eq!(got.range, r(2, 25));
}

#[test]
fn env_name_desugars_to_subscript() {
    // `$HOME` parses to `ox.env["HOME"]`.
    let src = "$HOME";
    let toks = vec![
        Token::plain(TokenKind::Dollar, 0, 1),
        Token::plain(TokenKind::Name, 1, 5),
    ];
    let mut p = parser(src, toks);
    let got = p.parse_env_name().expect("name access parses");
    let expected = Expr::Subscript {
        value: Box::new(ox_attr(AttrName::Env, r(1, 5), r(0, 1))),
        slice: Box::new(lit("HOME", 1, 5)),
        range: r(1, 5),
    };
    assert_eq!(got, expected);
}

#[test]
fn env_expr_desugars_to_subscript_over_sum() {
    // `${"HO" + "ME"}` parses to `ox.env["HO" + "ME"]`.
    let src = "${\"HO\" + \"ME\"}";
    let toks = vec![
        Token::plain(TokenKind::DollarLBrace, 0, 2),
        Token::string(2, 6, 3, 5, StringFlavor::Plain),
        Token::plain(TokenKind::Plus, 7, 8),
        Token::string(9, 13, 10, 12, StringFlavor::Plain),
        Token::plain(TokenKind::Rbrace, 13, 14),
    ];
    let mut p = parser(src, toks);
    let got = p.parse_env_expr().expect("expression access parses");
    let sum = Expr::BinOp {
        left: Box::new(lit("HO", 2, 6)),
        op: BinOpKind::Add,
        right: Box::new(lit("ME", 9, 13)),
        range: r(2, 13),
    };
    let expected = Expr::Subscript {
        value: Box::new(ox_attr(AttrName::Env, r(2, 6), r(0, 2))),
        slice: Box::new(sum),
        range: r(2, 14),
    };
    assert_eq!(got, expected);
}

#[test]
fn empty_env_braces_fail() {
    // `${}` always fails with the expected-environment-variable error.
    let src = "${}";
    let toks = vec![
        Token::plain(TokenKind::DollarLBrace, 0, 2),
        Token::plain(TokenKind::Rbrace, 2, 3),
    ];
    let mut p = parser(src, toks);
    let got = p.parse_env_expr();
    assert_eq!(
        got,
        Err(ParseFailure::Syntax(ParseErrorType::OtherError(
            "Expected an Environment variable name or expression, got end of file".to_string()
        )))
    );
}

#[test]
fn pipe_chain_with_background_marker() {
    // `ls | grep foo &` parses to an `ox.cmd(...).pipe(...).hide()` chain
    // whose final group carries `bg=True`.
    let src = "ls | grep foo &\n";
    let toks = vec![
        Token::plain(TokenKind::Name, 0, 2),
        Token::plain(TokenKind::Vbar, 3, 4),
        Token::plain(TokenKind::Name, 5, 9),
        Token::plain(TokenKind::Name, 10, 13),
        Token::plain(TokenKind::Amper, 14, 15),
        Token::plain(TokenKind::Newline, 15, 16),
    ];
    let mut p = parser(src, toks);
    let got = p.parse_bare_proc().expect("pipeline parses");

    let cmd_call = Expr::Call {
        func: Box::new(ox_attr(AttrName::Cmd, r(0, 2), r(0, 2))),
        arguments: Arguments { range: r(0, 2), args: vec![lit("ls", 0, 2)], keywords: vec![] },
        range: r(0, 2),
    };
    let pipe_call = Expr::Call {
        func: Box::new(Expr::Attribute {
            value: Box::new(cmd_call),
            attr: AttrName::Pipe,
            range: r(3, 4),
        }),
        arguments: Arguments {
            range: r(5, 16),
            args: vec![lit("grep", 5, 9), lit("foo", 10, 13)],
            keywords: vec![Keyword {
                arg: Some(Identifier { id: AttrName::Bg, range: r(14, 15) }),
                value: Expr::BooleanLiteral { value: true, range: r(14, 14) },
                range: r(14, 15),
            }],
        },
        range: r(3, 16),
    };
    let expected_expr = Expr::Call {
        func: Box::new(Expr::Attribute {
            value: Box::new(pipe_call),
            attr: AttrName::Hide,
            range: r(0, 16),
        }),
        arguments: Arguments { range: r(0, 16), args: vec![], keywords: vec![] },
        range: r(0, 16),
    };
    match got {
        oxipy::ast::Stmt::Expr { value, range } => {
            assert_eq!(value, expected_expr);
            assert_eq!(range, r(0, 16));
        },
    }
}

#[test]
fn amper_mid_group_is_literal_content() {
    // `&` not followed by the closing token nor a redirection operator is an
    // ordinary literal argument.
    let src = "$(a & b)";
    let toks = vec![
        Token::plain(TokenKind::Name, 2, 3),
        Token::plain(TokenKind::Amper, 4, 5),
        Token::plain(TokenKind::Name, 6, 7),
        Token::plain(TokenKind::Rpar, 7, 8),
    ];
    let mut p = parser(src, toks);
    let got = p.parse_cmd_group(TokenKind::Rpar).expect("group parses");
    assert_eq!(got.args, vec![lit("a", 2, 3), lit("&", 4, 5), lit("b", 6, 7)]);
    assert_eq!(got.keywords.len(), 0);
}

#[test]
fn amper_before_redirect_is_descriptor_source() {
    // `& > log` makes `&` the redirection source descriptor.
    let src = "$(x &>log)";
    let toks = vec![
        Token::plain(TokenKind::Name, 2, 3),
        Token::plain(TokenKind::Amper, 4, 5),
        Token::plain(TokenKind::Greater, 5, 6),
        Token::plain(TokenKind::Name, 6, 9),
        Token::plain(TokenKind::Rpar, 9, 10),
    ];
    let mut p = parser(src, toks);
    let got = p.parse_cmd_group(TokenKind::Rpar).expect("group parses");
    assert_eq!(got.args, vec![lit("x", 2, 3)]);
    assert_eq!(got.keywords.len(), 1);
    let kw = &got.keywords[0];
    assert_eq!(kw.arg.as_ref().unwrap().id, AttrName::Writes);
    let expected_dict = Expr::Dict {
        items: vec![DictItem { key: Some(lit("&", 4, 5)), value: lit("log", 6, 9) }],
        range: r(4, 9),
    };
    assert_eq!(kw.value, expected_dict);
}

#[test]
fn integer_descriptor_source() {
    // `2> err.log` keeps the descriptor as an integer-literal key.
    let src = "$(x 2>e)";
    let toks = vec![
        Token::plain(TokenKind::Name, 2, 3),
        Token::plain(TokenKind::Int, 4, 5),
        Token::plain(TokenKind::Greater, 5, 6),
        Token::plain(TokenKind::Name, 6, 7),
        Token::plain(TokenKind::Rpar, 7, 8),
    ];
    let mut p = parser(src, toks);
    let got = p.parse_cmd_group(TokenKind::Rpar).expect("group parses");
    let kw = &got.keywords[0];
    let expected_dict = Expr::Dict {
        items: vec![DictItem {
            key: Some(Expr::IntLiteral { digits: b"2".to_vec(), range: r(4, 5) }),
            value: lit("e", 6, 7),
        }],
        range: r(4, 7),
    };
    assert_eq!(kw.value, expected_dict);
}

#[test]
fn named_descriptor_source_and_append() {
    // `err>> log` uses a reserved descriptor name; `>>` selects `appends`.
    let src = "$(x err>>log)";
    let toks = vec![
        Token::plain(TokenKind::Name, 2, 3),
        Token::plain(TokenKind::Name, 4, 7),
        Token::plain(TokenKind::RightShift, 7, 9),
        Token::plain(TokenKind::Name, 9, 12),
        Token::plain(TokenKind::Rpar, 12, 13),
    ];
    let mut p = parser(src, toks);
    let got = p.parse_cmd_group(TokenKind::Rpar).expect("group parses");
    let kw = &got.keywords[0];
    assert_eq!(kw.arg.as_ref().unwrap().id, AttrName::Appends);
    let expected_dict = Expr::Dict {
        items: vec![DictItem { key: Some(lit("err", 4, 7)), value: lit("log", 9, 12) }],
        range: r(4, 12),
    };
    assert_eq!(kw.value, expected_dict);
}

#[test]
fn redirect_pairs_stay_in_source_order() {
    // Two `>` redirections end up in one dictionary, first pair first, and
    // the dictionary's range spans the first pair's start to the last's end.
    let src = "$(x >a >b)";
    let toks = vec![
        Token::plain(TokenKind::Name, 2, 3),
        Token::plain(TokenKind::Greater, 4, 5),
        Token::plain(TokenKind::Name, 5, 6),
        Token::plain(TokenKind::Greater, 7, 8),
        Token::plain(TokenKind::Name, 8, 9),
        Token::plain(TokenKind::Rpar, 9, 10),
    ];
    let mut p = parser(src, toks);
    let got = p.parse_cmd_group(TokenKind::Rpar).expect("group parses");
    let kw = &got.keywords[0];
    let expected_dict = Expr::Dict {
        items: vec![
            DictItem { key: Some(lit("", 4, 5)), value: lit("a", 5, 6) },
            DictItem { key: Some(lit("", 7, 8)), value: lit("b", 8, 9) },
        ],
        range: r(4, 9),
    };
    assert_eq!(kw.value, expected_dict);
}

#[test]
fn bare_word_never_crosses_whitespace() {
    // Abutting tokens merge into one word; a gap splits two words.
    let src = "$(a.b c)";
    let toks = vec![
        Token::plain(TokenKind::Name, 2, 3),
        Token::plain(TokenKind::Other, 3, 4),
        Token::plain(TokenKind::Name, 4, 5),
        Token::plain(TokenKind::Name, 6, 7),
        Token::plain(TokenKind::Rpar, 7, 8),
    ];
    let mut p = parser(src, toks);
    let got = p.parse_cmd_group(TokenKind::Rpar).expect("group parses");
    assert_eq!(got.args, vec![lit("a.b", 2, 5), lit("c", 6, 7)]);
}

#[test]
fn path_string_promotes_to_ox_path() {
    // A path-flagged literal becomes `ox.path(literal)`.
    let src = "$(p\"/tmp\")";
    let toks = vec![
        Token::string(2, 9, 4, 8, StringFlavor::Path),
        Token::plain(TokenKind::Rpar, 9, 10),
    ];
    let mut p = parser(src, toks);
    let got = p.parse_cmd_group(TokenKind::Rpar).expect("group parses");
    assert_eq!(got.args.len(), 1);
    let promoted = &got.args[0];
    let inner = Expr::StringLiteral {
        value: b"/tmp".to_vec(),
        flavor: StringFlavor::Path,
        range: r(2, 9),
    };
    let expected = Expr::Call {
        func: Box::new(ox_attr(AttrName::Path, r(9, 10), r(9, 10))),
        arguments: Arguments { range: r(2, 9), args: vec![inner], keywords: vec![] },
        range: r(2, 9),
    };
    assert_eq!(*promoted, expected);
}

#[test]
fn regex_string_promotes_to_pattern_regex() {
    // A regex-flagged literal becomes `ox.Pattern(literal).regex()`.
    let src = "$(r\"a+\")";
    let toks = vec![
        Token::string(2, 7, 4, 6, StringFlavor::Regex),
        Token::plain(TokenKind::Rpar, 7, 8),
    ];
    let mut p = parser(src, toks);
    let got = p.parse_cmd_group(TokenKind::Rpar).expect("group parses");
    assert_eq!(got.args.len(), 1);
    match &got.args[0] {
        Expr::Call { func, arguments, .. } => {
            assert!(arguments.args.is_empty());
            match func.as_ref() {
                Expr::Attribute { attr, value, .. } => {
                    assert_eq!(*attr, AttrName::Regex);
                    match value.as_ref() {
                        Expr::Call { arguments, .. } => {
                            assert_eq!(
                                arguments.args[0],
                                Expr::StringLiteral {
                                    value: b"a+".to_vec(),
                                    flavor: StringFlavor::Regex,
                                    range: r(2, 7),
                                }
                            );
                        },
                        other => panic!("expected Pattern call, got {:?}", other),
                    }
                },
                other => panic!("expected regex attribute, got {:?}", other),
            }
        },
        other => panic!("expected promoted call, got {:?}", other),
    }
}

#[test]
fn help_operator_single_and_double() {
    // `x?` gives `ox.help(x)`, `x??` gives `ox.superhelp(x)`.
    let src = "x?";
    let toks = vec![
        Token::plain(TokenKind::Name, 0, 1),
        Token::plain(TokenKind::Question, 1, 2),
    ];
    let mut p = parser(src, toks);
    let lhs = p.parse_name().expect("name parses");
    let got = p.parse_help_expr(lhs, 0);
    match &got {
        Expr::Call { func, arguments, range } => {
            assert_eq!(*range, r(0, 2));
            assert_eq!(arguments.args[0], Expr::Name { id: b"x".to_vec(), range: r(0, 1) });
            match func.as_ref() {
                Expr::Attribute { attr, .. } => assert_eq!(*attr, AttrName::Help),
                other => panic!("expected attribute, got {:?}", other),
            }
        },
        other => panic!("expected call, got {:?}", other),
    }

    let src2 = "x??";
    let toks2 = vec![
        Token::plain(TokenKind::Name, 0, 1),
        Token::plain(TokenKind::Question, 1, 2),
        Token::plain(TokenKind::Question, 2, 3),
    ];
    let mut p2 = parser(src2, toks2);
    let lhs2 = p2.parse_name().expect("name parses");
    let got2 = p2.parse_help_expr(lhs2, 0);
    match &got2 {
        Expr::Call { func, .. } => match func.as_ref() {
            Expr::Attribute { attr, .. } => assert_eq!(*attr, AttrName::Superhelp),
            other => panic!("expected attribute, got {:?}", other),
        },
        other => panic!("expected call, got {:?}", other),
    }
}

#[test]
fn interpolation_returns_inner_expression() {
    // `{name}` inside an argument list is the inner expression, unwrapped.
    let src = "$({x})";
    let toks = vec![
        Token::plain(TokenKind::Lbrace, 2, 3),
        Token::plain(TokenKind::Name, 3, 4),
        Token::plain(TokenKind::Rbrace, 4, 5),
        Token::plain(TokenKind::Rpar, 5, 6),
    ];
    let mut p = parser(src, toks);
    let got = p.parse_cmd_group(TokenKind::Rpar).expect("group parses");
    assert_eq!(got.args, vec![Expr::Name { id: b"x".to_vec(), range: r(3, 4) }]);
}

#[test]
fn decoration_wraps_atom_in_list_call() {
    // `@(x)` becomes `ox.list_of_strs_or_callables((x))`.
    let src = "$(@(x))";
    let toks = vec![
        Token::plain(TokenKind::At, 2, 3),
        Token::plain(TokenKind::Lpar, 3, 4),
        Token::plain(TokenKind::Name, 4, 5),
        Token::plain(TokenKind::Rpar, 5, 6),
        Token::plain(TokenKind::Rpar, 6, 7),
    ];
    let mut p = parser(src, toks);
    let got = p.parse_cmd_group(TokenKind::Rpar).expect("group parses");
    assert_eq!(got.args.len(), 1);
    match &got.args[0] {
        Expr::Call { func, arguments, .. } => {
            assert_eq!(arguments.args, vec![Expr::Name { id: b"x".to_vec(), range: r(4, 5) }]);
            match func.as_ref() {
                Expr::Attribute { attr, .. } => {
                    assert_eq!(*attr, AttrName::ListOfStrsOrCallables)
                },
                other => panic!("expected attribute, got {:?}", other),
            }
        },
        other => panic!("expected call, got {:?}", other),
    }
}

#[test]
fn pattern_decoration_is_starred_invoke() {
    // `@name"pat"` becomes `*ox.Pattern("pat").invoke(name)`.
    let src = "$(@f\"p\")";
    let toks = vec![
        Token::plain(TokenKind::At, 2, 3),
        Token::plain(TokenKind::Name, 3, 4),
        Token::string(4, 7, 5, 6, StringFlavor::Plain),
        Token::plain(TokenKind::Rpar, 7, 8),
    ];
    let mut p = parser(src, toks);
    let got = p.parse_cmd_group(TokenKind::Rpar).expect("group parses");
    assert_eq!(got.args.len(), 1);
    match &got.args[0] {
        Expr::Starred { value, .. } => match value.as_ref() {
            Expr::Call { func, arguments, .. } => {
                assert_eq!(
                    arguments.args,
                    vec![Expr::Name { id: b"f".to_vec(), range: r(3, 4) }]
                );
                match func.as_ref() {
                    Expr::Attribute { attr, .. } => assert_eq!(*attr, AttrName::Invoke),
                    other => panic!("expected attribute, got {:?}", other),
                }
            },
            other => panic!("expected call, got {:?}", other),
        },
        other => panic!("expected starred value, got {:?}", other),
    }
}

#[test]
fn nested_capture_inside_arguments() {
    // `$(echo $(ls))` nests a capture as one argument of the outer group.
    let src = "$(echo $(ls))";
    let toks = vec![
        Token::plain(TokenKind::Name, 2, 6),
        Token::plain(TokenKind::DollarLParen, 7, 9),
        Token::plain(TokenKind::Name, 9, 11),
        Token::plain(TokenKind::Rpar, 11, 12),
        Token::plain(TokenKind::Rpar, 12, 13),
    ];
    let mut p = parser(src, toks);
    let got = p.parse_cmd_group(TokenKind::Rpar).expect("group parses");
    assert_eq!(got.args.len(), 2);
    assert_eq!(got.args[0], lit("echo", 2, 6));
    match &got.args[1] {
        Expr::Call { func, .. } => match func.as_ref() {
            Expr::Attribute { attr, .. } => assert_eq!(*attr, AttrName::Out),
            other => panic!("expected attribute, got {:?}", other),
        },
        other => panic!("expected nested capture call, got {:?}", other),
    }
}

#[test]
fn progress_guard_stops_stalled_parse() {
    // An unterminated capture stalls instead of looping forever, and the
    // breach is an internal failure, not a syntax error.
    let src = "$(a";
    let toks = vec![Token::plain(TokenKind::Name, 2, 3)];
    let mut p = parser(src, toks);
    let got = p.parse_subprocs(AttrName::Out, TokenKind::Rpar);
    match got {
        Err(ParseFailure::Stalled(_)) => {},
        other => panic!("expected a stalled parse, got {:?}", other),
    }
}

#[test]
fn expect_combinator_matches_and_reports() {
    let src = "$x";
    let toks = vec![
        Token::plain(TokenKind::Dollar, 0, 1),
        Token::plain(TokenKind::Name, 1, 2),
    ];
    let mut p = parser(src, toks);
    let got = TokenKind::Name.parse(&mut p);
    assert_eq!(
        got,
        Err(ParseErrorType::ExpectedToken {
            expected: TokenKind::Name,
            found: TokenKind::Dollar
        })
    );
    let got = TokenKind::Dollar.parse(&mut p).expect("dollar matches");
    assert_eq!(got, r(0, 1));
}

#[test]
fn sequence_combinator_runs_in_order() {
    let src = "$x";
    let toks = vec![
        Token::plain(TokenKind::Dollar, 0, 1),
        Token::plain(TokenKind::Name, 1, 2),
    ];
    let mut p = parser(src, toks);
    let got = (TokenKind::Dollar, TokenKind::Name).parse(&mut p).expect("both match");
    assert_eq!(got, (r(0, 1), r(1, 2)));
}

#[test]
fn progress_guard_records_positions() {
    let mut guard = ParserProgress::new();
    assert!(guard.assert_progressing(3).is_ok());
    assert_eq!(guard.assert_progressing(3), Err(ParseFailure::Stalled(3)));
    assert!(guard.assert_progressing(4).is_ok());
}

#[test]
fn redirect_type_classifies_operators() {
    for (kind, expected, src) in [
        (TokenKind::Greater, RedirectType::Write, ">"),
        (TokenKind::RightShift, RedirectType::Append, ">>"),
        (TokenKind::Less, RedirectType::Read, "<"),
    ] {
        let toks = vec![Token::plain(kind, 0, src.len())];
        let mut p = parser(src, toks);
        assert_eq!(p.parse_redirect_type(), expected);
    }
}

#[test]
fn malformed_token_streams_are_rejected() {
    // Overlapping tokens break the lexer contract.
    let toks = vec![
        Token::plain(TokenKind::Name, 0, 2),
        Token::plain(TokenKind::Name, 1, 3),
    ];
    assert!(Parser::new(toks, b"abc".to_vec()).is_none());
    // A token past the end of the source does too.
    let toks = vec![Token::plain(TokenKind::Name, 0, 9)];
    assert!(Parser::new(toks, b"ab".to_vec()).is_none());
}

#[test]
fn dollar_without_name_reports_expected_token() {
    let src = "$5";
    let toks = vec![
        Token::plain(TokenKind::Dollar, 0, 1),
        Token::plain(TokenKind::Int, 1, 2),
    ];
    let mut p = parser(src, toks);
    assert_eq!(
        p.parse_env_name(),
        Err(ParseFailure::Syntax(ParseErrorType::ExpectedToken {
            expected: TokenKind::Name,
            found: TokenKind::Int
        }))
    );
}

#[test]
fn stray_decoration_reports_missing_expression() {
    // `@` followed by neither `(` nor a name-and-string pair.
    let src = "$(@ |)";
    let toks = vec![
        Token::plain(TokenKind::At, 2, 3),
        Token::plain(TokenKind::Vbar, 4, 5),
        Token::plain(TokenKind::Rpar, 5, 6),
    ];
    let mut p = parser(src, toks);
    assert_eq!(
        p.parse_cmd_group(TokenKind::Rpar),
        Err(ParseFailure::Syntax(ParseErrorType::ExpectedExpression))
    );
}

#[test]
fn empty_group_parses_to_empty_arguments() {
    // A group that starts at its closing token succeeds with no arguments
    // and no keywords.
    let src = "$()";
    let toks = vec![Token::plain(TokenKind::Rpar, 2, 3)];
    let mut p = parser(src, toks);
    let got = p.parse_cmd_group(TokenKind::Rpar).expect("empty group parses");
    assert!(got.args.is_empty());
    assert!(got.keywords.is_empty());
}

#[test]
fn background_only_group() {
    // `&` immediately before the closing token yields exactly `bg=True`.
    let src = "$(&)";
    let toks = vec![
        Token::plain(TokenKind::Amper, 2, 3),
        Token::plain(TokenKind::Rpar, 3, 4),
    ];
    let mut p = parser(src, toks);
    let got = p.parse_cmd_group(TokenKind::Rpar).expect("backgrounded group parses");
    assert!(got.args.is_empty());
    assert_eq!(
        got.keywords,
        vec![Keyword {
            arg: Some(Identifier { id: AttrName::Bg, range: r(2, 3) }),
            value: Expr::BooleanLiteral { value: true, range: r(2, 2) },
            range: r(2, 3),
        }]
    );
}

#[test]
fn redirect_only_group_owes_its_keyword() {
    // A group that is nothing but one redirection still yields the `writes`
    // keyword.
    let src = "$(>a)";
    let toks = vec![
        Token::plain(TokenKind::Greater, 2, 3),
        Token::plain(TokenKind::Name, 3, 4),
        Token::plain(TokenKind::Rpar, 4, 5),
    ];
    let mut p = parser(src, toks);
    let got = p.parse_cmd_group(TokenKind::Rpar).expect("group parses");
    assert!(got.args.is_empty());
    assert_eq!(got.keywords.len(), 1);
    assert_eq!(got.keywords[0].arg.as_ref().unwrap().id, AttrName::Writes);
    let expected_dict = Expr::Dict {
        items: vec![DictItem { key: Some(lit("", 2, 3)), value: lit("a", 3, 4) }],
        range: r(2, 4),
    };
    assert_eq!(got.keywords[0].value, expected_dict);
}
