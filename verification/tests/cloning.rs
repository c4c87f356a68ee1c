use syntax_tree::ast::expression::{ExpressionNode, Identifier, IntegerLiteral};
use syntax_tree::ast::statement::{
    ExpressionStatement, LetStatement, Program, ReturnStatement, StatementNode,
};
use syntax_tree::ast::{type_of, Expression, Statement};
use syntax_tree::token::Token;

fn sample_identifier() -> Identifier {
    Identifier { token: Some(Token::new("IDENT", "foo")), value: "foo".to_string() }
}

fn sample_integer() -> IntegerLiteral {
    IntegerLiteral { token: Token::new("INT", "007"), value: Some(7) }
}

fn sample_let() -> LetStatement {
    LetStatement {
        token: Token::new("LET", "let"),
        name: Some(sample_identifier()),
        value: Some(ExpressionNode::IntegerLiteral(sample_integer())),
    }
}

fn sample_return() -> ReturnStatement {
    ReturnStatement {
        token: Token::new("RETURN", "return"),
        return_value: Some(ExpressionNode::Identifier(sample_identifier())),
    }
}

fn sample_expression_statement() -> ExpressionStatement {
    ExpressionStatement {
        token: Token::new("INT", "007"),
        expression: Some(ExpressionNode::IntegerLiteral(sample_integer())),
    }
}

fn sample_program() -> Program {
    Program {
        statements: vec![
            StatementNode::Let(sample_let()),
            StatementNode::Return(sample_return()),
            StatementNode::Expression(sample_expression_statement()),
        ],
    }
}

#[test]
fn clone_of_each_variant_renders_alike() {
    assert_eq!(sample_identifier().clone().string(), sample_identifier().string());
    assert_eq!(sample_integer().clone().string(), sample_integer().string());
    assert_eq!(sample_let().clone().string(), sample_let().string());
    assert_eq!(sample_return().clone().string(), sample_return().string());
    assert_eq!(
        sample_expression_statement().clone().string(),
        sample_expression_statement().string()
    );
    assert_eq!(sample_program().clone().string(), sample_program().string());
    assert_eq!(sample_let().clone().string(), "let foo = 007");
    assert_eq!(sample_return().clone().string(), "return foo");
    assert_eq!(sample_program().clone().string(), "letreturn007");
}

#[test]
fn clone_keeps_every_field() {
    let copy = sample_let().clone();
    assert_eq!(copy.token.kind, "LET");
    assert_eq!(copy.token.literal, "let");
    let name = copy.name.expect("name");
    assert_eq!(name.value, "foo");
    assert_eq!(name.token.expect("token").literal, "foo");
    match copy.value {
        Some(ExpressionNode::IntegerLiteral(integer)) => {
            assert_eq!(integer.value, Some(7));
            assert_eq!(integer.token.literal, "007");
            assert_eq!(integer.token.kind, "INT");
        }
        _ => panic!("value should be an integer literal"),
    }
}

#[test]
fn clone_keeps_absent_fields_absent() {
    let bare = LetStatement { token: Token::new("LET", "let"), name: None, value: None };
    let copy = bare.clone();
    assert!(copy.name.is_none());
    assert!(copy.value.is_none());
    let tokenless = Identifier { token: None, value: "x".to_string() };
    assert!(tokenless.clone().token.is_none());
    let unvalued = IntegerLiteral { token: Token::new("INT", "1"), value: None };
    assert_eq!(unvalued.clone().value, None);
    let valueless = ReturnStatement { token: Token::new("RETURN", "return"), return_value: None };
    assert!(valueless.clone().return_value.is_none());
    let pending = ExpressionStatement { token: Token::new("INT", "1"), expression: None };
    assert!(pending.clone().expression.is_none());
}

#[test]
fn changing_a_clone_leaves_its_source() {
    let source = sample_let();
    let mut copy = source.clone();
    copy.token.literal = "var".to_string();
    copy.name = Some(Identifier { token: None, value: "renamed".to_string() });
    copy.value = None;
    assert_eq!(copy.string(), "var renamed = ");
    assert_eq!(source.string(), "let foo = 007");
}

#[test]
fn changing_a_cloned_program_leaves_its_source() {
    let source = sample_program();
    let mut copy = source.clone();
    copy.statements.pop();
    copy.statements.insert(0, StatementNode::Return(sample_return()));
    assert_eq!(copy.string(), "returnletreturn");
    assert_eq!(source.string(), "letreturn007");
    assert_eq!(source.statements.len(), 3);
}

#[test]
fn program_clone_copies_nested_programs() {
    let outer = Program {
        statements: vec![
            StatementNode::Program(sample_program()),
            StatementNode::Let(sample_let()),
        ],
    };
    let copy = outer.clone();
    assert_eq!(copy.statements.len(), 2);
    assert_eq!(copy.string(), outer.string());
    assert_eq!(copy.string(), "letlet");
    match &copy.statements[0] {
        StatementNode::Program(inner) => {
            assert_eq!(inner.statements.len(), 3);
            assert_eq!(inner.string(), "letreturn007");
            assert_eq!(inner.statements[0].string(), "let foo = 007");
        }
        _ => panic!("first statement should be a program"),
    }
}

#[test]
fn box_clone_wraps_a_copy_of_the_same_kind() {
    let statement = sample_return();
    let handle = Statement::box_clone(&statement);
    assert!(matches!(handle, StatementNode::Return(_)));
    assert_eq!(handle.string(), "return foo");
    assert_eq!(handle.kind_name(), statement.kind_name());

    let expression = sample_integer();
    let handle = Expression::box_clone(&expression);
    assert!(matches!(handle, ExpressionNode::IntegerLiteral(_)));
    assert_eq!(handle.string(), "007");
    assert_eq!(handle.kind_name(), expression.kind_name());

    let again = Expression::box_clone(&handle);
    assert_eq!(again.string(), "007");

    let program = Statement::box_clone(&sample_program());
    assert!(matches!(program, StatementNode::Program(_)));
    assert_eq!(program.string(), "letreturn007");
    assert!(matches!(Statement::box_clone(&sample_let()), StatementNode::Let(_)));
    assert!(matches!(
        Statement::box_clone(&sample_expression_statement()),
        StatementNode::Expression(_)
    ));
    assert!(matches!(Expression::box_clone(&sample_identifier()), ExpressionNode::Identifier(_)));
}

#[test]
fn kind_names_are_one_per_variant() {
    assert_eq!(sample_program().kind_name(), "Program");
    assert_eq!(sample_let().kind_name(), "LetStatement");
    assert_eq!(sample_return().kind_name(), "ReturnStatement");
    assert_eq!(sample_expression_statement().kind_name(), "ExpressionStatement");
    assert_eq!(sample_identifier().kind_name(), "Identifier");
    assert_eq!(sample_integer().kind_name(), "IntegerLiteral");
}

#[test]
fn kind_name_is_stable_across_calls_and_clones() {
    let node = sample_let();
    assert_eq!(node.kind_name(), node.kind_name());
    assert_eq!(node.clone().kind_name(), node.kind_name());
    let handle = StatementNode::Let(node);
    assert_eq!(handle.kind_name(), "LetStatement");
    assert_eq!(handle.clone().kind_name(), "LetStatement");
    let leaf = ExpressionNode::Identifier(sample_identifier());
    assert_eq!(leaf.kind_name(), "Identifier");
    assert_eq!(leaf.clone().kind_name(), leaf.kind_name());
}

#[test]
fn kind_name_does_not_depend_on_contents() {
    let bare = LetStatement { token: Token::new("X", "y"), name: None, value: None };
    assert_eq!(bare.kind_name(), sample_let().kind_name());
    let empty = Program { statements: Vec::new() };
    assert_eq!(empty.kind_name(), sample_program().kind_name());
}

#[test]
fn type_of_names_the_concrete_type() {
    assert_eq!(type_of(&sample_let()), "LetStatement");
    assert_eq!(type_of(&sample_program()), "Program");
    assert_eq!(type_of(&sample_identifier()), "Identifier");
    assert_eq!(type_of(&sample_integer()), "IntegerLiteral");
    assert_eq!(type_of(&sample_return()), "ReturnStatement");
    assert_eq!(type_of(&sample_expression_statement()), "ExpressionStatement");
}
