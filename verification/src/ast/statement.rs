//! Statement-like nodes: the program, its three statement forms, and the
//! handle that stores any of them.

use vstd::prelude::*;
use crate::ast::any::AnyNode;
use crate::ast::expression::{ExpressionNode, Identifier};
use crate::ast::model::{
    joined_literals, optional_rendering, ExpressionStatementView, ExpressionView, IdentifierView,
    LetStatementView, ProgramView, ReturnStatementView, StatementView,
};
use crate::ast::{type_of, Expression, Statement};
use crate::token::Token;

verus! {

/// A parsed source unit: its statements in source order.
#[derive(Debug)]
pub struct Program {
    pub statements: Vec<StatementNode>,
}

/// `let <name> = <value>`.
#[derive(Debug)]
pub struct LetStatement {
    pub token: Token,
    pub name: Option<Identifier>,
    pub value: Option<ExpressionNode>,
}

/// `return <value>`, or a bare `return` when the value is absent.
#[derive(Debug)]
pub struct ReturnStatement {
    pub token: Token,
    pub return_value: Option<ExpressionNode>,
}

/// An expression used as a statement.
#[derive(Debug)]
pub struct ExpressionStatement {
    pub token: Token,
    pub expression: Option<ExpressionNode>,
}

/// A handle on any statement-like node.
#[derive(Debug)]
pub enum StatementNode {
    Program(Program),
    Let(LetStatement),
    Return(ReturnStatement),
    Expression(ExpressionStatement),
}

/// Model of an optional sub-expression.
pub open spec fn optional_expression_view(expression: Option<ExpressionNode>) -> Option<
    ExpressionView,
> {
    match expression {
        Some(node) => Some(node@),
        None => None,
    }
}

/// Model of an optional name.
pub open spec fn optional_identifier_view(name: Option<Identifier>) -> Option<IdentifierView> {
    match name {
        Some(identifier) => Some(identifier@),
        None => None,
    }
}

impl View for LetStatement {
    type V = LetStatementView;

    open spec fn view(&self) -> LetStatementView {
        LetStatementView {
            token: self.token@,
            name: optional_identifier_view(self.name),
            value: optional_expression_view(self.value),
        }
    }
}

impl View for ReturnStatement {
    type V = ReturnStatementView;

    open spec fn view(&self) -> ReturnStatementView {
        ReturnStatementView {
            token: self.token@,
            return_value: optional_expression_view(self.return_value),
        }
    }
}

impl View for ExpressionStatement {
    type V = ExpressionStatementView;

    open spec fn view(&self) -> ExpressionStatementView {
        ExpressionStatementView {
            token: self.token@,
            expression: optional_expression_view(self.expression),
        }
    }
}

/// Model of a program: the models of its statements, in order.
pub open spec fn program_view(program: Program) -> ProgramView
    decreases program,
{
    ProgramView {
        statements: Seq::new(
            program.statements@.len(),
            |i: int|
                if 0 <= i < program.statements@.len() {
                    statement_view(program.statements@[i])
                } else {
                    arbitrary()
                },
        ),
    }
}

/// Model of the node behind a statement handle.
pub open spec fn statement_view(node: StatementNode) -> StatementView
    decreases node,
{
    match node {
        StatementNode::Program(program) => StatementView::Program(program_view(program)),
        StatementNode::Let(statement) => StatementView::Let(statement@),
        StatementNode::Return(statement) => StatementView::Return(statement@),
        StatementNode::Expression(statement) => StatementView::Expression(statement@),
    }
}

impl View for Program {
    type V = ProgramView;

    open spec fn view(&self) -> ProgramView {
        program_view(*self)
    }
}

impl View for StatementNode {
    type V = StatementView;

    open spec fn view(&self) -> StatementView {
        statement_view(*self)
    }
}

/// A deep copy of an optional sub-expression.
fn clone_optional_expression(expression: &Option<ExpressionNode>) -> (copy: Option<ExpressionNode>)
    ensures
        optional_expression_view(copy) == optional_expression_view(*expression),
{
    match expression {
        Some(node) => Some(node.clone()),
        None => None,
    }
}

/// Appends the rendering of an optional sub-expression, if there is one.
fn append_optional_rendering(out: &mut String, expression: &Option<ExpressionNode>)
    ensures
        final(out)@ == old(out)@ + optional_rendering(optional_expression_view(*expression)),
{
    match expression {
        Some(node) => {
            let text = node.string();
            out.append(text.as_str());
        },
        None => {
            assert(out@ + Seq::<char>::empty() =~= out@);
        },
    }
}

impl Clone for LetStatement {
    fn clone(&self) -> (copy: LetStatement)
        ensures
            copy@ == self@,
    {
        let name = match &self.name {
            Some(identifier) => Some(identifier.clone()),
            None => None,
        };
        LetStatement {
            token: self.token.clone(),
            name,
            value: clone_optional_expression(&self.value),
        }
    }
}

impl Clone for ReturnStatement {
    fn clone(&self) -> (copy: ReturnStatement)
        ensures
            copy@ == self@,
    {
        ReturnStatement {
            token: self.token.clone(),
            return_value: clone_optional_expression(&self.return_value),
        }
    }
}

impl Clone for ExpressionStatement {
    fn clone(&self) -> (copy: ExpressionStatement)
        ensures
            copy@ == self@,
    {
        ExpressionStatement {
            token: self.token.clone(),
            expression: clone_optional_expression(&self.expression),
        }
    }
}

impl Clone for Program {
    fn clone(&self) -> (copy: Program)
        ensures
            copy@ == self@,
        decreases self,
    {
        let mut statements: Vec<StatementNode> = Vec::new();
        let mut i: usize = 0;
        while i < self.statements.len()
            invariant
                i <= self.statements.len(),
                statements@.len() == i,
                forall|j: int| 0 <= j < i ==> statements@[j]@ == self.statements@[j]@,
            decreases self.statements.len() - i,
        {
            statements.push(self.statements[i].clone());
            i += 1;
        }
        let copy = Program { statements };
        proof {
            assert(copy@.statements =~= self@.statements);
        }
        copy
    }
}

impl Clone for StatementNode {
    fn clone(&self) -> (copy: StatementNode)
        ensures
            copy@ == self@,
        decreases self,
    {
        match self {
            StatementNode::Program(program) => StatementNode::Program(program.clone()),
            StatementNode::Let(statement) => StatementNode::Let(statement.clone()),
            StatementNode::Return(statement) => StatementNode::Return(statement.clone()),
            StatementNode::Expression(statement) => StatementNode::Expression(statement.clone()),
        }
    }
}

impl LetStatement {
    /// Whether the binding is finished: name and value present and finished.
    pub fn is_well_formed(&self) -> (finished: bool)
        ensures
            finished == self@.well_formed(),
    {
        let named = match &self.name {
            Some(name) => name.is_well_formed(),
            None => false,
        };
        let valued = match &self.value {
            Some(value) => value.is_well_formed(),
            None => false,
        };
        named && valued
    }
}

impl ReturnStatement {
    /// Whether the return is finished: bare, or with a finished value.
    pub fn is_well_formed(&self) -> (finished: bool)
        ensures
            finished == self@.well_formed(),
    {
        match &self.return_value {
            Some(value) => value.is_well_formed(),
            None => true,
        }
    }
}

impl ExpressionStatement {
    /// Whether the statement is finished: it wraps a finished expression.
    pub fn is_well_formed(&self) -> (finished: bool)
        ensures
            finished == self@.well_formed(),
    {
        match &self.expression {
            Some(expression) => expression.is_well_formed(),
            None => false,
        }
    }
}

impl Program {
    /// Whether every statement of the program is finished.
    pub fn is_well_formed(&self) -> (finished: bool)
        ensures
            finished == self@.well_formed(),
        decreases self,
    {
        let mut i: usize = 0;
        while i < self.statements.len()
            invariant
                i <= self.statements.len(),
                forall|j: int| 0 <= j < i ==> (#[trigger] self@.statements[j]).well_formed(),
            decreases self.statements.len() - i,
        {
            if !self.statements[i].is_well_formed() {
                assert(!self@.statements[i as int].well_formed());
                return false;
            }
            i += 1;
        }
        true
    }
}

impl StatementNode {
    /// Whether the node behind the handle is finished.
    pub fn is_well_formed(&self) -> (finished: bool)
        ensures
            finished == self@.well_formed(),
        decreases self,
    {
        match self {
            StatementNode::Program(program) => program.is_well_formed(),
            StatementNode::Let(statement) => statement.is_well_formed(),
            StatementNode::Return(statement) => statement.is_well_formed(),
            StatementNode::Expression(statement) => statement.is_well_formed(),
        }
    }
}

impl Statement for LetStatement {
    open spec fn model(&self) -> StatementView {
        StatementView::Let(self@)
    }

    fn token_literal(&self) -> (text: String) {
        self.token.literal.clone()
    }

    fn statement_node(&self) {
    }

    fn string(&self) -> (text: String) {
        let mut out = self.token_literal();
        out.append(" ");
        match &self.name {
            Some(identifier) => {
                out.append(identifier.value.as_str());
            },
            None => {
                assert(out@ + Seq::<char>::empty() =~= out@);
            },
        }
        out.append(" = ");
        append_optional_rendering(&mut out, &self.value);
        out
    }

    fn box_clone(&self) -> (copy: StatementNode) {
        StatementNode::Let(self.clone())
    }

    fn kind_name(&self) -> (name: String) {
        type_of(self)
    }

    fn to_any(&self) -> (copy: AnyNode) {
        AnyNode::Statement(self.box_clone())
    }
}

impl Statement for ReturnStatement {
    open spec fn model(&self) -> StatementView {
        StatementView::Return(self@)
    }

    fn token_literal(&self) -> (text: String) {
        self.token.literal.clone()
    }

    fn statement_node(&self) {
    }

    fn string(&self) -> (text: String) {
        let mut out = self.token_literal();
        out.append(" ");
        append_optional_rendering(&mut out, &self.return_value);
        out
    }

    fn box_clone(&self) -> (copy: StatementNode) {
        StatementNode::Return(self.clone())
    }

    fn kind_name(&self) -> (name: String) {
        type_of(self)
    }

    fn to_any(&self) -> (copy: AnyNode) {
        AnyNode::Statement(self.box_clone())
    }
}

impl Statement for ExpressionStatement {
    open spec fn model(&self) -> StatementView {
        StatementView::Expression(self@)
    }

    fn token_literal(&self) -> (text: String) {
        self.token.literal.clone()
    }

    fn statement_node(&self) {
    }

    fn string(&self) -> (text: String) {
        match &self.expression {
            Some(node) => node.string(),
            None => String::new(),
        }
    }

    fn box_clone(&self) -> (copy: StatementNode) {
        StatementNode::Expression(self.clone())
    }

    fn kind_name(&self) -> (name: String) {
        type_of(self)
    }

    fn to_any(&self) -> (copy: AnyNode) {
        AnyNode::Statement(self.box_clone())
    }
}

impl Statement for Program {
    open spec fn model(&self) -> StatementView {
        StatementView::Program(self@)
    }

    fn token_literal(&self) -> (text: String)
        decreases self,
    {
        if self.statements.len() > 0 {
            self.statements[0].token_literal()
        } else {
            String::new()
        }
    }

    fn statement_node(&self) {
    }

    fn string(&self) -> (text: String) {
        let mut out = String::new();
        let mut i: usize = 0;
        while i < self.statements.len()
            invariant
                i <= self.statements.len(),
                out@ == joined_literals(self@.statements.take(i as int)),
            decreases self.statements.len() - i,
        {
            let literal = self.statements[i].token_literal();
            proof {
                let upto = self@.statements.take(i + 1);
                assert(upto.drop_last() =~= self@.statements.take(i as int));
                assert(upto.last() == self.statements@[i as int]@);
            }
            out.append(literal.as_str());
            i += 1;
        }
        proof {
            assert(self@.statements.take(i as int) =~= self@.statements);
        }
        out
    }

    fn box_clone(&self) -> (copy: StatementNode) {
        StatementNode::Program(self.clone())
    }

    fn kind_name(&self) -> (name: String) {
        type_of(self)
    }

    fn to_any(&self) -> (copy: AnyNode) {
        AnyNode::Statement(self.box_clone())
    }
}

impl Statement for StatementNode {
    open spec fn model(&self) -> StatementView {
        self@
    }

    fn token_literal(&self) -> (text: String)
        decreases self,
    {
        match self {
            StatementNode::Program(program) => program.token_literal(),
            StatementNode::Let(statement) => statement.token_literal(),
            StatementNode::Return(statement) => statement.token_literal(),
            StatementNode::Expression(statement) => statement.token_literal(),
        }
    }

    fn statement_node(&self) {
    }

    fn string(&self) -> (text: String) {
        match self {
            StatementNode::Program(program) => program.string(),
            StatementNode::Let(statement) => statement.string(),
            StatementNode::Return(statement) => statement.string(),
            StatementNode::Expression(statement) => statement.string(),
        }
    }

    fn box_clone(&self) -> (copy: StatementNode) {
        self.clone()
    }

    fn kind_name(&self) -> (name: String) {
        match self {
            StatementNode::Program(program) => program.kind_name(),
            StatementNode::Let(statement) => statement.kind_name(),
            StatementNode::Return(statement) => statement.kind_name(),
            StatementNode::Expression(statement) => statement.kind_name(),
        }
    }

    fn to_any(&self) -> (copy: AnyNode) {
        AnyNode::Statement(self.clone())
    }
}

} // verus!
