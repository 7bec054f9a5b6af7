use lexum_compiler::lexer::lex;
use lexum_compiler::parser::parse;
use lexum_compiler::semantic::SemanticValidator;

#[test]
fn test_valid_semantic() {
    let input = r#"
        domain WebServer {
            state {
                status: string
                port: int
            }
            goal is_running {
                target status == "online"
            }
            transition start_server {
                slice step {
                    status = "online"
                }
            }
        }
        "#;
    let ast = parse(lex(input)).unwrap();
    let mut validator = SemanticValidator::new();
    let result = validator.validate(&ast);
    assert!(result.is_ok(), "Should pass semantic validation");
}

#[test]
fn test_invalid_semantic_variable() {
    let input = r#"
        domain WebServer {
            state {
                port: int
            }
            transition start_server {
                slice step {
                    status = "online"
                }
            }
        }
        "#;
    let ast = parse(lex(input)).unwrap();
    let mut validator = SemanticValidator::new();
    let result = validator.validate(&ast);
    assert!(result.is_err());
    let errors = result.err().unwrap();
    assert_eq!(errors.len(), 1);
    assert!(errors[0].message.contains("undefined state variable 'status'"));
}

#[test]
fn test_invalid_goal_mutation() {
    let input = r#"
        domain WebServer {
            state {
                status: string
            }
            goal ensure_run {
                target status = "online"
            }
        }
        "#;
    let ast = parse(lex(input)).unwrap();
    let mut validator = SemanticValidator::new();
    let result = validator.validate(&ast);
    assert!(result.is_err());
    let errors = result.err().unwrap();
    assert!(errors.iter().any(|e| e.message.contains("Illegal mutation of 'status'")));
}
