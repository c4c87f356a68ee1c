//! Mathematical model of the tree: every node as a plain value over
//! sequences of characters, and what each node renders to.

use vstd::prelude::*;
use crate::ast::NodeKind;
use crate::token::TokenView;

verus! {

/// Model of a name reference.
pub struct IdentifierView {
    pub token: Option<TokenView>,
    pub value: Seq<char>,
}

/// Model of an integer constant.
pub struct IntegerLiteralView {
    pub token: TokenView,
    pub value: Option<i64>,
}

/// Model of any expression-like node.
pub enum ExpressionView {
    Identifier(IdentifierView),
    IntegerLiteral(IntegerLiteralView),
}

/// Model of `let <name> = <value>`.
pub struct LetStatementView {
    pub token: TokenView,
    pub name: Option<IdentifierView>,
    pub value: Option<ExpressionView>,
}

/// Model of `return <value>` or a bare `return`.
pub struct ReturnStatementView {
    pub token: TokenView,
    pub return_value: Option<ExpressionView>,
}

/// Model of an expression standing as a statement.
pub struct ExpressionStatementView {
    pub token: TokenView,
    pub expression: Option<ExpressionView>,
}

/// Model of a program: its statements in source order.
pub struct ProgramView {
    pub statements: Seq<StatementView>,
}

/// Model of any statement-like node.
pub enum StatementView {
    Program(ProgramView),
    Let(LetStatementView),
    Return(ReturnStatementView),
    Expression(ExpressionStatementView),
}

/// Model of any node, of either capability.
pub enum NodeView {
    Statement(StatementView),
    Expression(ExpressionView),
}

impl IdentifierView {
    /// Whether the identifier still has its anchor token.
    pub open spec fn anchored(self) -> bool {
        self.token is Some
    }

    /// Literal text of the anchor token; meaningful only when anchored.
    pub open spec fn literal(self) -> Seq<char>
        recommends
            self.anchored(),
    {
        self.token->0.literal
    }

    /// An identifier renders as its name, whatever its anchor.
    pub open spec fn rendering(self) -> Seq<char> {
        self.value
    }

    /// A finished identifier has its anchor, and its name is the anchor's
    /// text.
    pub open spec fn well_formed(self) -> bool {
        self.token matches Some(token) && token.literal == self.value
    }
}

impl IntegerLiteralView {
    pub open spec fn literal(self) -> Seq<char> {
        self.token.literal
    }

    /// An integer renders as the exact source spelling of its token.
    pub open spec fn rendering(self) -> Seq<char> {
        self.token.literal
    }

    /// A finished integer literal holds its number. That the number is the
    /// one its token spells is the parser's to uphold.
    pub open spec fn well_formed(self) -> bool {
        self.value is Some
    }
}

impl ExpressionView {
    pub open spec fn kind(self) -> NodeKind {
        match self {
            ExpressionView::Identifier(_) => NodeKind::Identifier,
            ExpressionView::IntegerLiteral(_) => NodeKind::IntegerLiteral,
        }
    }

    /// Whether the node has an anchor token to read a literal from.
    pub open spec fn anchored(self) -> bool {
        match self {
            ExpressionView::Identifier(identifier) => identifier.anchored(),
            ExpressionView::IntegerLiteral(_) => true,
        }
    }

    pub open spec fn literal(self) -> Seq<char>
        recommends
            self.anchored(),
    {
        match self {
            ExpressionView::Identifier(identifier) => identifier.literal(),
            ExpressionView::IntegerLiteral(integer) => integer.literal(),
        }
    }

    pub open spec fn rendering(self) -> Seq<char> {
        match self {
            ExpressionView::Identifier(identifier) => identifier.rendering(),
            ExpressionView::IntegerLiteral(integer) => integer.rendering(),
        }
    }

    /// Whether the node is finished: nothing in it is still missing.
    pub open spec fn well_formed(self) -> bool {
        match self {
            ExpressionView::Identifier(identifier) => identifier.well_formed(),
            ExpressionView::IntegerLiteral(integer) => integer.well_formed(),
        }
    }
}

/// Rendering of an optional sub-expression: a missing part is left out.
pub open spec fn optional_rendering(expression: Option<ExpressionView>) -> Seq<char> {
    match expression {
        Some(node) => node.rendering(),
        None => Seq::empty(),
    }
}

/// Name text of an optional identifier: a missing name is left out.
pub open spec fn optional_name(name: Option<IdentifierView>) -> Seq<char> {
    match name {
        Some(identifier) => identifier.value,
        None => Seq::empty(),
    }
}

impl LetStatementView {
    pub open spec fn literal(self) -> Seq<char> {
        self.token.literal
    }

    /// `<literal> <name> = <value>`, with absent parts left out.
    pub open spec fn rendering(self) -> Seq<char> {
        self.token.literal + " "@ + optional_name(self.name) + " = "@ + optional_rendering(
            self.value,
        )
    }

    /// A finished binding has a finished name and a finished value.
    pub open spec fn well_formed(self) -> bool {
        &&& self.name matches Some(name) && name.well_formed()
        &&& self.value matches Some(value) && value.well_formed()
    }
}

impl ReturnStatementView {
    pub open spec fn literal(self) -> Seq<char> {
        self.token.literal
    }

    /// `<literal> <value>`; a bare return keeps the trailing space.
    pub open spec fn rendering(self) -> Seq<char> {
        self.token.literal + " "@ + optional_rendering(self.return_value)
    }

    /// A return may lack a value; a value that is there must be finished.
    pub open spec fn well_formed(self) -> bool {
        self.return_value matches Some(value) ==> value.well_formed()
    }
}

impl ExpressionStatementView {
    pub open spec fn literal(self) -> Seq<char> {
        self.token.literal
    }

    /// The wrapped expression's rendering, or nothing while it is absent.
    pub open spec fn rendering(self) -> Seq<char> {
        optional_rendering(self.expression)
    }

    /// A finished expression statement wraps a finished expression.
    pub open spec fn well_formed(self) -> bool {
        self.expression matches Some(expression) && expression.well_formed()
    }
}

/// The literals of a run of statements, joined in order.
pub open spec fn joined_literals(statements: Seq<StatementView>) -> Seq<char>
    decreases statements.len(),
{
    if statements.len() == 0 {
        Seq::empty()
    } else {
        joined_literals(statements.drop_last()) + statements.last().literal()
    }
}

impl ProgramView {
    /// The literal of the first statement, or nothing for an empty program.
    pub open spec fn literal(self) -> Seq<char>
        decreases self,
    {
        if self.statements.len() > 0 {
            self.statements[0].literal()
        } else {
            Seq::empty()
        }
    }

    /// The statements' literals joined in order (their literals, not their
    /// renderings).
    pub open spec fn rendering(self) -> Seq<char> {
        joined_literals(self.statements)
    }

    /// A program is finished when each of its statements is.
    pub open spec fn well_formed(self) -> bool
        decreases self,
    {
        forall|i: int|
            0 <= i < self.statements.len() ==> (#[trigger] self.statements[i]).well_formed()
    }
}

impl StatementView {
    pub open spec fn kind(self) -> NodeKind {
        match self {
            StatementView::Program(_) => NodeKind::Program,
            StatementView::Let(_) => NodeKind::LetStatement,
            StatementView::Return(_) => NodeKind::ReturnStatement,
            StatementView::Expression(_) => NodeKind::ExpressionStatement,
        }
    }

    pub open spec fn literal(self) -> Seq<char>
        decreases self,
    {
        match self {
            StatementView::Program(program) => program.literal(),
            StatementView::Let(statement) => statement.literal(),
            StatementView::Return(statement) => statement.literal(),
            StatementView::Expression(statement) => statement.literal(),
        }
    }

    pub open spec fn rendering(self) -> Seq<char> {
        match self {
            StatementView::Program(program) => program.rendering(),
            StatementView::Let(statement) => statement.rendering(),
            StatementView::Return(statement) => statement.rendering(),
            StatementView::Expression(statement) => statement.rendering(),
        }
    }

    /// Whether the node is finished: nothing in it is still missing.
    pub open spec fn well_formed(self) -> bool
        decreases self,
    {
        match self {
            StatementView::Program(program) => program.well_formed(),
            StatementView::Let(statement) => statement.well_formed(),
            StatementView::Return(statement) => statement.well_formed(),
            StatementView::Expression(statement) => statement.well_formed(),
        }
    }
}

impl NodeView {
    pub open spec fn kind(self) -> NodeKind {
        match self {
            NodeView::Statement(statement) => statement.kind(),
            NodeView::Expression(expression) => expression.kind(),
        }
    }
}

} // verus!
