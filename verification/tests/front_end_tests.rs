use lexum_compiler::ast::tree::SystemNode;
use lexum_compiler::ast::{AuthorityScope, ExprKind, StatementKind};
use lexum_compiler::error::CompilerError;
use lexum_compiler::lexer::token::{Token as OutlineToken, TokenKind};
use lexum_compiler::lexer::{lex, tokenize, Token};
use lexum_compiler::parser::outline;
use lexum_compiler::parser::{parse, Parser};
use lexum_compiler::semantics::analyze;
use lexum_compiler::{compile_source, CompileFailure};

#[test]
fn lexer_reads_keywords_identifiers_literals_and_symbols() {
    let tokens = lex("domain Web { x == 42 \"on\" <= != }");
    let kinds: Vec<Token> = tokens.into_iter().map(|(t, _)| t).collect();
    assert_eq!(
        kinds,
        vec![
            Token::Domain,
            Token::Identifier("Web".to_string()),
            Token::LBrace,
            Token::Identifier("x".to_string()),
            Token::EqualEqual,
            Token::IntLiteral(42),
            Token::StringLiteral("on".to_string()),
            Token::LTEqual,
            Token::NotEqual,
            Token::RBrace,
            Token::EOF,
        ]
    );
}

#[test]
fn lexer_spans_give_bytes_lines_and_columns() {
    let tokens = lex("a\n  é bb");
    assert_eq!(tokens.len(), 4);
    let (ref t0, s0) = tokens[0];
    assert_eq!(*t0, Token::Identifier("a".to_string()));
    assert_eq!((s0.offset, s0.len, s0.line, s0.column), (0, 1, 1, 1));
    let (ref t1, s1) = tokens[1];
    assert_eq!(*t1, Token::Unknown('é'));
    assert_eq!((s1.offset, s1.len, s1.line, s1.column), (4, 2, 2, 3));
    let (_, s2) = tokens[2];
    assert_eq!((s2.offset, s2.len, s2.line, s2.column), (7, 2, 2, 5));
    let (ref t3, s3) = tokens[3];
    assert_eq!(*t3, Token::EOF);
    assert_eq!((s3.offset, s3.len), (9, 0));
}

#[test]
fn lexer_of_empty_source_gives_only_eof() {
    let tokens = lex("");
    assert_eq!(tokens.len(), 1);
    assert_eq!(tokens[0].0, Token::EOF);
}

#[test]
fn lexer_marks_oversized_integer_and_open_string_unknown() {
    let tokens = lex("99999999999999999999 \"open");
    assert_eq!(tokens[0].0, Token::Unknown('9'));
    assert_eq!(tokens[0].1.len, 20);
    assert_eq!(tokens[1].0, Token::Unknown('"'));
    assert_eq!(tokens[2].0, Token::Identifier("open".to_string()));
}

#[test]
fn token_text_is_its_source_form() {
    assert_eq!(Token::Domain.text(), "domain");
    assert_eq!(Token::StringLiteral("x".to_string()).text(), "\"x\"");
    assert_eq!(Token::IntLiteral(-7).text(), "-7");
    assert_eq!(Token::GTEqual.text(), ">=");
    assert_eq!(Token::EOF.text(), "EOF");
}

#[test]
fn scope_names_are_read() {
    assert_eq!(AuthorityScope::from_str("root"), Ok(AuthorityScope::Root));
    assert_eq!(AuthorityScope::from_str("transition"), Ok(AuthorityScope::Transition));
    assert_eq!(AuthorityScope::from_str("world"), Err("Unknown authority scope 'world'".to_string()));
}

#[test]
fn unknown_scope_is_a_parse_error() {
    let err = parse(lex("domain D { scope { world } }")).unwrap_err();
    assert_eq!(err.message, "Unknown authority scope 'world'");
}

#[test]
fn parser_reports_expected_token_with_position() {
    let err = parse(lex("domain D x")).unwrap_err();
    assert_eq!(err.message, "Syntax Error at line 1 col 10: Expected {, but found x");
    assert_eq!((err.span.offset, err.span.len), (9, 1));
}

#[test]
fn parser_refuses_unexpected_top_level_token() {
    let err = parse(lex("42")).unwrap_err();
    assert_eq!(err.message, "Unexpected token at top level: 42");
}

#[test]
fn parser_refuses_out_of_range_priority() {
    let err = parse(lex("domain D { goal g { priority 300 target 1 } }")).unwrap_err();
    assert_eq!(err.message, "Priority must be between 0 and 255, found 300");
}

#[test]
fn parser_reads_goal_clauses_and_deployments() {
    let ast = parse(lex(
        "domain D { goal g { scope { root } capability { a, b } priority 7 target x == 1 strategy { s1, s2 } } } deploy service D to prod",
    ))
    .unwrap();
    assert_eq!(ast.statements.len(), 2);
    match &ast.statements[0].kind {
        StatementKind::DomainDecl(d) => {
            let g = &d.goals[0];
            assert_eq!(g.scope, Some(AuthorityScope::Root));
            assert_eq!(g.required_capabilities, vec!["a".to_string(), "b".to_string()]);
            assert_eq!(g.priority, 7);
            assert_eq!(g.strategy, vec!["s1".to_string(), "s2".to_string()]);
            match &g.target.kind {
                ExprKind::BinaryOp { op, .. } => assert_eq!(op, "=="),
                _ => panic!("Expected a comparison"),
            }
        },
        _ => panic!("Expected DomainDecl statement"),
    }
    match &ast.statements[1].kind {
        StatementKind::DeployStmt(dep) => {
            assert_eq!(dep.service, "D");
            assert_eq!(dep.target_environment, "prod");
        },
        _ => panic!("Expected DeployStmt statement"),
    }
}

#[test]
fn assignment_binds_loosest_and_to_the_right() {
    let ast = parse(lex("domain D { transition t { step { x = y = 1 + 2 } } }")).unwrap();
    match &ast.statements[0].kind {
        StatementKind::DomainDecl(d) => match &d.transitions[0].slice_step[0].kind {
            ExprKind::Assignment { target, value } => {
                assert_eq!(target, "x");
                match &value.kind {
                    ExprKind::Assignment { target, value } => {
                        assert_eq!(target, "y");
                        assert!(matches!(value.kind, ExprKind::BinaryOp { .. }));
                    },
                    _ => panic!("Expected a nested assignment"),
                }
            },
            _ => panic!("Expected an assignment"),
        },
        _ => panic!("Expected DomainDecl statement"),
    }
}

#[test]
fn compiler_error_text_names_the_stage() {
    assert_eq!(CompilerError::LexerError("bad".to_string()).to_string(), "Lexer error: bad");
    assert_eq!(CompilerError::ParseError("eof".to_string()).to_string(), "Parse error: eof");
    assert_eq!(CompilerError::SemanticError("x".to_string()).to_string(), "Semantic error: x");
}

#[test]
fn outline_lexer_gives_only_eof() {
    let tokens = tokenize("domain D {}").unwrap();
    assert_eq!(tokens, vec![OutlineToken::new(TokenKind::Eof, 0, 0)]);
}

#[test]
fn outline_parser_refuses_no_tokens() {
    match outline::parse(&[]) {
        Err(CompilerError::ParseError(m)) => assert_eq!(m, "Unexpected EOF"),
        _ => panic!("Expected a parse error"),
    }
}

#[test]
fn outline_pipeline_accepts_a_system() {
    let tokens = tokenize("system S {}").unwrap();
    let system: SystemNode = outline::parse(&tokens).unwrap();
    assert_eq!(system.name, "mock_system");
    assert!(system.domains.is_empty());
    assert!(analyze(&system).is_ok());
}

#[test]
fn compile_source_stops_at_an_unknown_character() {
    match compile_source("domain D { # }") {
        Err(CompileFailure::UnknownCharacter(c)) => assert_eq!(c, '#'),
        _ => panic!("Expected an unknown character"),
    }
}

#[test]
fn compile_source_reports_parse_errors() {
    match compile_source("domain { }") {
        Err(CompileFailure::Parse(e)) => assert_eq!(e.message, "Expected identifier after 'domain', found {"),
        _ => panic!("Expected a parse error"),
    }
}

#[test]
fn compile_source_reports_semantic_errors_with_the_source() {
    let source = "domain D { goal g { target y == 1 } }";
    match compile_source(source) {
        Err(CompileFailure::Semantic(e)) => {
            assert_eq!(e.src, source);
            assert_eq!(e.errors.len(), 1);
            assert_eq!(e.errors[0].message, "Domain 'D': Reference to undefined state variable 'y'");
        },
        _ => panic!("Expected semantic errors"),
    }
}

#[test]
fn compile_source_returns_the_validated_program() {
    let ast = compile_source("domain D { state { up: bool } goal g { target up == true } }").unwrap();
    assert_eq!(ast.statements.len(), 1);
}

#[test]
fn parse_reads_up_to_the_final_eof() {
    let err = parse(lex("domain D { } }")).unwrap_err();
    assert_eq!(err.message, "Unexpected token at top level: }");
    assert!(parse(lex("domain D { }")).is_ok());
}

#[test]
fn lexer_spans_are_in_source_order_and_end_with_eof() {
    let source = "domain Web {\n  state { up: bool }\n  goal g { target up == true }\n}";
    let tokens = lex(source);
    let mut end = 0;
    for (i, (token, span)) in tokens.iter().enumerate() {
        assert!(span.offset >= end);
        assert!(span.offset + span.len <= source.len());
        end = span.offset + span.len;
        assert_eq!(*token == Token::EOF, i == tokens.len() - 1);
    }
    assert_eq!(end, source.len());
}

#[test]
fn parser_reads_systems_environments_and_plain_deployments() {
    let ast = parse(lex(
        "system Main { start domain Web { up = true count = 2 } } environment prod { replicas = 3 region = \"eu\" } deploy Web to prod",
    ))
    .unwrap();
    assert_eq!(ast.statements.len(), 3);
    match &ast.statements[0].kind {
        StatementKind::SystemDecl(s) => {
            assert_eq!(s.name, "Main");
            assert_eq!(s.start_domains.len(), 1);
            assert_eq!(s.start_domains[0].name, "Web");
            assert_eq!(s.start_domains[0].init_state.len(), 2);
        },
        _ => panic!("Expected SystemDecl statement"),
    }
    match &ast.statements[1].kind {
        StatementKind::EnvironmentDecl(e) => {
            assert_eq!(e.name, "prod");
            let keys: Vec<&str> = e.configurations.iter().map(|(k, _)| k.as_str()).collect();
            assert_eq!(keys, vec!["replicas", "region"]);
            assert!(e.available_capabilities.is_empty());
            assert_eq!(e.scope_level, None);
        },
        _ => panic!("Expected EnvironmentDecl statement"),
    }
    match &ast.statements[2].kind {
        StatementKind::DeployStmt(dep) => {
            assert_eq!(dep.service, "Web");
            assert_eq!(dep.target_environment, "prod");
        },
        _ => panic!("Expected DeployStmt statement"),
    }
}

#[test]
fn goal_may_use_predicate_and_strategy_skips_other_tokens() {
    let ast = parse(lex("domain D { goal g { predicate 1 < 2 strategy { a, 3 b } } }")).unwrap();
    match &ast.statements[0].kind {
        StatementKind::DomainDecl(d) => {
            assert_eq!(d.goals[0].priority, 1);
            assert_eq!(d.goals[0].strategy, vec!["a".to_string(), "b".to_string()]);
        },
        _ => panic!("Expected DomainDecl statement"),
    }
}

#[test]
fn goal_without_target_is_refused() {
    let err = parse(lex("domain D { goal g { 1 } }")).unwrap_err();
    assert_eq!(err.message, "Expected 'target' or 'predicate' for goal, found 1");
}

#[test]
fn deploy_without_to_is_refused() {
    let err = parse(lex("deploy Web into prod")).unwrap_err();
    assert_eq!(err.message, "Expected 'to' in deploy statement");
}

#[test]
fn not_equal_is_not_a_binary_operator() {
    let err = parse(lex("domain D { goal g { target a != b } }")).unwrap_err();
    assert_eq!(err.message, "Unsupported binary operator: NotEqual");
}

#[test]
fn transition_steps_may_hold_conditionals_and_calls() {
    let ast = parse(lex(
        "domain D { transition t { slice step { if x > 1 { log(x, 2) } send_high(\"ops\", alert) } } }",
    ))
    .unwrap();
    match &ast.statements[0].kind {
        StatementKind::DomainDecl(d) => {
            let steps = &d.transitions[0].slice_step;
            assert_eq!(steps.len(), 2);
            match &steps[0].kind {
                ExprKind::If { consequence, .. } => match &consequence[0].kind {
                    ExprKind::Call { function, arguments } => {
                        assert_eq!(function, "log");
                        assert_eq!(arguments.len(), 2);
                    },
                    _ => panic!("Expected a call"),
                },
                _ => panic!("Expected a conditional"),
            }
            match &steps[1].kind {
                ExprKind::SendHigh { target, message } => {
                    assert_eq!(target, "ops");
                    assert_eq!(message, "alert");
                },
                _ => panic!("Expected send_high"),
            }
        },
        _ => panic!("Expected DomainDecl statement"),
    }
}

#[test]
fn expression_span_runs_from_first_to_last_token() {
    let mut tokens = lex("  a + b * (c)");
    tokens.pop();
    let mut parser = Parser::new(tokens);
    let e = parser.parse_expression(0).unwrap();
    assert_eq!((e.span.offset, e.span.len, e.span.line, e.span.column), (2, 11, 1, 3));
}

#[test]
fn expression_stops_at_a_looser_operator() {
    let mut parser = Parser::new(lex("a * b + c"));
    let e = parser.parse_expression(3).unwrap();
    match e.kind {
        ExprKind::BinaryOp { op, .. } => assert_eq!(op, "*"),
        _ => panic!("Expected * operation"),
    }
    let rest = parser.parse_expression(0);
    assert!(rest.is_err());
}
