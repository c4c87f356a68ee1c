//! The node model: two capability traits, six concrete node kinds, and the
//! handles that store them side by side.

use vstd::prelude::*;
use crate::ast::any::{AnyNode, Concrete};
use crate::ast::expression::ExpressionNode;
use crate::ast::model::{ExpressionView, NodeView, StatementView};
use crate::ast::statement::StatementNode;

pub mod any;
pub mod expression;
pub mod laws;
pub mod model;
pub mod statement;

verus! {

/// The concrete kind of a node.
#[derive(Clone, Copy, PartialEq, Eq, Structural, Debug)]
pub enum NodeKind {
    Program,
    LetStatement,
    ReturnStatement,
    ExpressionStatement,
    Identifier,
    IntegerLiteral,
}

impl NodeKind {
    /// The name under which a kind is registered.
    pub open spec fn name(self) -> Seq<char> {
        match self {
            NodeKind::Program => "Program"@,
            NodeKind::LetStatement => "LetStatement"@,
            NodeKind::ReturnStatement => "ReturnStatement"@,
            NodeKind::ExpressionStatement => "ExpressionStatement"@,
            NodeKind::Identifier => "Identifier"@,
            NodeKind::IntegerLiteral => "IntegerLiteral"@,
        }
    }

    /// The registered name as text.
    pub fn spelled(&self) -> (name: String)
        ensures
            name@ == self.name(),
    {
        match self {
            NodeKind::Program => "Program".to_owned(),
            NodeKind::LetStatement => "LetStatement".to_owned(),
            NodeKind::ReturnStatement => "ReturnStatement".to_owned(),
            NodeKind::ExpressionStatement => "ExpressionStatement".to_owned(),
            NodeKind::Identifier => "Identifier".to_owned(),
            NodeKind::IntegerLiteral => "IntegerLiteral".to_owned(),
        }
    }

    /// Two kinds with the same registered name are the same kind.
    pub proof fn lemma_name_injective(self, other: NodeKind)
        ensures
            self.name() == other.name() <==> self == other,
    {
        reveal_strlit("Program");
        reveal_strlit("LetStatement");
        reveal_strlit("ReturnStatement");
        reveal_strlit("ExpressionStatement");
        reveal_strlit("Identifier");
        reveal_strlit("IntegerLiteral");
        assert(NodeKind::Program.name().len() == 7);
        assert(NodeKind::LetStatement.name().len() == 12);
        assert(NodeKind::ReturnStatement.name().len() == 15);
        assert(NodeKind::ExpressionStatement.name().len() == 19);
        assert(NodeKind::Identifier.name().len() == 10);
        assert(NodeKind::IntegerLiteral.name().len() == 14);
    }
}

/// The capability of standing as a statement.
///
/// Every operation is tied to the node's model, so two nodes with the same
/// model answer alike.
pub trait Statement {
    /// The node as a statement of the model.
    spec fn model(&self) -> StatementView;

    /// Literal text of the node's anchor token.
    fn token_literal(&self) -> (text: String)
        ensures
            text@ == self.model().literal(),
    ;

    /// Marks the node as statement-like; does nothing.
    fn statement_node(&self);

    /// Canonical text of the node, defined for incomplete nodes too.
    fn string(&self) -> (text: String)
        ensures
            text@ == self.model().rendering(),
    ;

    /// A deep copy of the node behind a statement handle.
    fn box_clone(&self) -> (copy: StatementNode)
        ensures
            copy@ == self.model(),
    ;

    /// The registered name of the node's concrete kind.
    fn kind_name(&self) -> (name: String)
        ensures
            name@ == self.model().kind().name(),
    ;

    /// A deep copy of the node with its capability erased, ready for a
    /// checked downcast.
    fn to_any(&self) -> (copy: AnyNode)
        ensures
            copy@ == NodeView::Statement(self.model()),
    ;
}

/// The capability of standing as an expression.
pub trait Expression {
    /// The node as an expression of the model.
    spec fn model(&self) -> ExpressionView;

    /// Literal text of the node's anchor token. A node without an anchor has
    /// no literal, and asking for it is an invalid call.
    fn token_literal(&self) -> (text: String)
        requires
            self.model().anchored(),
        ensures
            text@ == self.model().literal(),
    ;

    /// Marks the node as expression-like; does nothing.
    fn expression_node(&self);

    /// Canonical text of the node.
    fn string(&self) -> (text: String)
        ensures
            text@ == self.model().rendering(),
    ;

    /// A deep copy of the node behind an expression handle.
    fn box_clone(&self) -> (copy: ExpressionNode)
        ensures
            copy@ == self.model(),
    ;

    /// The registered name of the node's concrete kind.
    fn kind_name(&self) -> (name: String)
        ensures
            name@ == self.model().kind().name(),
    ;

    /// A deep copy of the node with its capability erased, ready for a
    /// checked downcast.
    fn to_any(&self) -> (copy: AnyNode)
        ensures
            copy@ == NodeView::Expression(self.model()),
    ;
}

/// The registered name of the concrete kind that `T` is, whatever the value.
pub fn type_of<T: Concrete>(_node: &T) -> (name: String)
    ensures
        name@ == T::registered_kind().name(),
{
    T::kind().spelled()
}

} // verus!
