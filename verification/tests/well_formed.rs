use syntax_tree::ast::expression::{ExpressionNode, Identifier, IntegerLiteral};
use syntax_tree::ast::statement::{
    ExpressionStatement, LetStatement, Program, ReturnStatement, StatementNode,
};
use syntax_tree::ast::Expression;
use syntax_tree::token::Token;

fn finished_identifier(name: &str) -> Identifier {
    Identifier { token: Some(Token::new("IDENT", name)), value: name.to_string() }
}

fn finished_integer() -> IntegerLiteral {
    IntegerLiteral { token: Token::new("INT", "5"), value: Some(5) }
}

fn finished_let() -> LetStatement {
    LetStatement {
        token: Token::new("LET", "let"),
        name: Some(finished_identifier("x")),
        value: Some(ExpressionNode::IntegerLiteral(finished_integer())),
    }
}

#[test]
fn identifier_is_finished_when_anchored_and_named_as_spelled() {
    assert!(finished_identifier("foo").is_well_formed());
    assert!(!Identifier { token: None, value: "foo".to_string() }.is_well_formed());
    let misnamed = Identifier { token: Some(Token::new("IDENT", "bar")), value: "foo".to_string() };
    assert!(!misnamed.is_well_formed());
}

#[test]
fn integer_literal_is_finished_when_it_holds_its_number() {
    assert!(finished_integer().is_well_formed());
    assert!(!IntegerLiteral { token: Token::new("INT", "5"), value: None }.is_well_formed());
}

#[test]
fn expression_handle_reports_its_node() {
    assert!(ExpressionNode::Identifier(finished_identifier("x")).is_well_formed());
    let pending = ExpressionNode::IntegerLiteral(IntegerLiteral {
        token: Token::new("INT", "5"),
        value: None,
    });
    assert!(!pending.is_well_formed());
}

#[test]
fn finished_expression_has_a_literal_equal_to_its_rendering() {
    let node = ExpressionNode::Identifier(finished_identifier("foo"));
    assert!(node.is_well_formed());
    assert_eq!(node.token_literal(), node.string());
    let number = ExpressionNode::IntegerLiteral(finished_integer());
    assert!(number.is_well_formed());
    assert_eq!(number.token_literal(), number.string());
}

#[test]
fn let_statement_needs_name_and_value() {
    assert!(finished_let().is_well_formed());
    let mut unnamed = finished_let();
    unnamed.name = None;
    assert!(!unnamed.is_well_formed());
    let mut unvalued = finished_let();
    unvalued.value = None;
    assert!(!unvalued.is_well_formed());
    let mut tokenless_name = finished_let();
    tokenless_name.name = Some(Identifier { token: None, value: "x".to_string() });
    assert!(!tokenless_name.is_well_formed());
    let mut pending_value = finished_let();
    pending_value.value = Some(ExpressionNode::IntegerLiteral(IntegerLiteral {
        token: Token::new("INT", "5"),
        value: None,
    }));
    assert!(!pending_value.is_well_formed());
}

#[test]
fn bare_return_is_finished() {
    let bare = ReturnStatement { token: Token::new("RETURN", "return"), return_value: None };
    assert!(bare.is_well_formed());
    let valued = ReturnStatement {
        token: Token::new("RETURN", "return"),
        return_value: Some(ExpressionNode::Identifier(finished_identifier("x"))),
    };
    assert!(valued.is_well_formed());
    let pending = ReturnStatement {
        token: Token::new("RETURN", "return"),
        return_value: Some(ExpressionNode::Identifier(Identifier {
            token: None,
            value: "x".to_string(),
        })),
    };
    assert!(!pending.is_well_formed());
}

#[test]
fn expression_statement_needs_its_expression() {
    let finished = ExpressionStatement {
        token: Token::new("INT", "5"),
        expression: Some(ExpressionNode::IntegerLiteral(finished_integer())),
    };
    assert!(finished.is_well_formed());
    let pending = ExpressionStatement { token: Token::new("INT", "5"), expression: None };
    assert!(!pending.is_well_formed());
}

#[test]
fn program_is_finished_when_every_statement_is() {
    assert!(Program { statements: Vec::new() }.is_well_formed());
    let finished = Program {
        statements: vec![
            StatementNode::Let(finished_let()),
            StatementNode::Return(ReturnStatement {
                token: Token::new("RETURN", "return"),
                return_value: None,
            }),
        ],
    };
    assert!(finished.is_well_formed());
    let pending = Program {
        statements: vec![
            StatementNode::Let(finished_let()),
            StatementNode::Expression(ExpressionStatement {
                token: Token::new("INT", "5"),
                expression: None,
            }),
        ],
    };
    assert!(!pending.is_well_formed());
    let nested = Program {
        statements: vec![StatementNode::Program(pending), StatementNode::Let(finished_let())],
    };
    assert!(!nested.is_well_formed());
    assert!(!StatementNode::Program(nested).is_well_formed());
    assert!(StatementNode::Program(finished).is_well_formed());
}
