use lexum_compiler::ast::{ExprKind, StatementKind};
use lexum_compiler::lexer::lex;
use lexum_compiler::parser::{parse, Parser};

#[test]
fn test_parse_domain_pseudocode() {
    let input = r#"
        domain WebServer {
            state {
                status: string
                port: int
            }
            
            goal is_running {
                target status == "online"
            }
            
            transition start_server {
                slice step {
                    status = "online"
                }
            }
        }
        "#;

    let tokens = lex(input);
    let result = parse(tokens);

    assert!(
        result.is_ok(),
        "Failed to parse AST: {}",
        result.as_ref().err().map(|e| e.message.clone()).unwrap_or_default()
    );

    let ast = result.unwrap();
    assert_eq!(ast.statements.len(), 1);

    if let StatementKind::DomainDecl(domain) = &ast.statements[0].kind {
        assert_eq!(domain.name, "WebServer");
        assert_eq!(domain.state.len(), 2);
        assert_eq!(domain.state[0].name, "status");
        assert_eq!(domain.state[1].typ, "int");

        assert_eq!(domain.goals.len(), 1);
        assert_eq!(domain.goals[0].name, "is_running");

        assert_eq!(domain.transitions.len(), 1);
        assert_eq!(domain.transitions[0].name, "start_server");
    } else {
        panic!("Expected DomainDecl statement");
    }
}

#[test]
fn test_precedence() {
    let input = "a + b * c == d";
    let mut tokens = lex(input);
    tokens.pop(); // remove EOF
    let mut parser = Parser::new(tokens);
    let expr = parser.parse_expression(0).unwrap();
    // == is root
    if let ExprKind::BinaryOp { left, op, right } = expr.kind {
        assert_eq!(op, "==");
        if let ExprKind::Ident(r_name) = right.kind {
            assert_eq!(r_name, "d");
        } else {
            panic!("Right is not 'd'");
        }

        if let ExprKind::BinaryOp { left: ll, op: mop, right: rr } = left.kind {
            assert_eq!(mop, "+");
            if let ExprKind::Ident(lname) = ll.kind {
                assert_eq!(lname, "a");
            }

            if let ExprKind::BinaryOp { op: mmop, .. } = rr.kind {
                assert_eq!(mmop, "*"); // b * c tight binding
            } else {
                panic!("Expected * operation");
            }
        } else {
            panic!("Expected + operation");
        }
    } else {
        panic!("Expected == operation");
    }
}
