//! Nodes with their capability erased, and the checked way back to a
//! concrete kind.

use vstd::prelude::*;
use crate::ast::expression::{ExpressionNode, Identifier, IntegerLiteral};
use crate::ast::model::{ExpressionView, NodeView, StatementView};
use crate::ast::statement::{
    ExpressionStatement, LetStatement, Program, ReturnStatement, StatementNode,
};
use crate::ast::{Expression, NodeKind, Statement};

verus! {

/// A node of either capability.
#[derive(Debug)]
pub enum AnyNode {
    Statement(StatementNode),
    Expression(ExpressionNode),
}

impl View for AnyNode {
    type V = NodeView;

    open spec fn view(&self) -> NodeView {
        match self {
            AnyNode::Statement(node) => NodeView::Statement(node@),
            AnyNode::Expression(node) => NodeView::Expression(node@),
        }
    }
}

/// A concrete node type: one of the six kinds a handle can hold.
pub trait Concrete: Sized {
    /// The kind this type is registered under.
    spec fn registered_kind() -> NodeKind;

    /// The node as a value of the model, capability erased.
    spec fn erased(self) -> NodeView;

    /// The kind this type is registered under.
    fn kind() -> (kind: NodeKind)
        ensures
            kind == Self::registered_kind(),
    ;

    /// Recovers a node of this type from an erased one. Succeeds exactly
    /// when the erased node is of this type's kind, and then yields the very
    /// node that was erased; otherwise hands the erased node back untouched.
    fn downcast_from(node: AnyNode) -> (outcome: Result<Self, AnyNode>)
        ensures
            outcome is Ok <==> node@.kind() == Self::registered_kind(),
            outcome matches Ok(concrete) ==> concrete.erased() == node@,
            outcome matches Err(rejected) ==> rejected == node,
    ;

    /// Looks at an erased node as a node of this type, without taking it.
    /// Succeeds exactly when the erased node is of this type's kind.
    fn downcast_ref_from(node: &AnyNode) -> (outcome: Option<&Self>)
        ensures
            outcome is Some <==> node@.kind() == Self::registered_kind(),
            outcome matches Some(concrete) ==> concrete.erased() == node@,
    ;

    /// An erased node of this type reports this type's kind.
    proof fn lemma_erased_kind(self)
        ensures
            self.erased().kind() == Self::registered_kind(),
    ;
}

impl AnyNode {
    /// Checked recovery of the concrete node. Succeeds exactly when the
    /// node's kind name is the name `T` is registered under; a mismatch
    /// returns the node itself as the error.
    pub fn downcast<T: Concrete>(self) -> (outcome: Result<T, AnyNode>)
        ensures
            outcome is Ok <==> self@.kind().name() == T::registered_kind().name(),
            outcome is Ok <==> self@.kind() == T::registered_kind(),
            outcome matches Ok(concrete) ==> concrete.erased() == self@,
            outcome matches Err(rejected) ==> rejected == self,
    {
        proof {
            self@.kind().lemma_name_injective(T::registered_kind());
        }
        T::downcast_from(self)
    }

    /// Checked view of the concrete node, by reference. Yields the node
    /// exactly when its kind name is the name `T` is registered under.
    pub fn downcast_ref<T: Concrete>(&self) -> (outcome: Option<&T>)
        ensures
            outcome is Some <==> self@.kind().name() == T::registered_kind().name(),
            outcome is Some <==> self@.kind() == T::registered_kind(),
            outcome matches Some(concrete) ==> concrete.erased() == self@,
    {
        proof {
            self@.kind().lemma_name_injective(T::registered_kind());
        }
        T::downcast_ref_from(self)
    }

    /// The registered name of the node's concrete kind.
    pub fn kind_name(&self) -> (name: String)
        ensures
            name@ == self@.kind().name(),
    {
        match self {
            AnyNode::Statement(node) => node.kind_name(),
            AnyNode::Expression(node) => node.kind_name(),
        }
    }
}

impl Concrete for Program {
    open spec fn registered_kind() -> NodeKind {
        NodeKind::Program
    }

    open spec fn erased(self) -> NodeView {
        NodeView::Statement(StatementView::Program(self@))
    }

    fn kind() -> (kind: NodeKind) {
        NodeKind::Program
    }

    fn downcast_from(node: AnyNode) -> (outcome: Result<Self, AnyNode>) {
        match node {
            AnyNode::Statement(StatementNode::Program(program)) => Ok(program),
            other => Err(other),
        }
    }

    fn downcast_ref_from(node: &AnyNode) -> (outcome: Option<&Self>) {
        match node {
            AnyNode::Statement(StatementNode::Program(program)) => Some(program),
            _ => None,
        }
    }

    proof fn lemma_erased_kind(self) {
    }
}

impl Concrete for LetStatement {
    open spec fn registered_kind() -> NodeKind {
        NodeKind::LetStatement
    }

    open spec fn erased(self) -> NodeView {
        NodeView::Statement(StatementView::Let(self@))
    }

    fn kind() -> (kind: NodeKind) {
        NodeKind::LetStatement
    }

    fn downcast_from(node: AnyNode) -> (outcome: Result<Self, AnyNode>) {
        match node {
            AnyNode::Statement(StatementNode::Let(statement)) => Ok(statement),
            other => Err(other),
        }
    }

    fn downcast_ref_from(node: &AnyNode) -> (outcome: Option<&Self>) {
        match node {
            AnyNode::Statement(StatementNode::Let(statement)) => Some(statement),
            _ => None,
        }
    }

    proof fn lemma_erased_kind(self) {
    }
}

impl Concrete for ReturnStatement {
    open spec fn registered_kind() -> NodeKind {
        NodeKind::ReturnStatement
    }

    open spec fn erased(self) -> NodeView {
        NodeView::Statement(StatementView::Return(self@))
    }

    fn kind() -> (kind: NodeKind) {
        NodeKind::ReturnStatement
    }

    fn downcast_from(node: AnyNode) -> (outcome: Result<Self, AnyNode>) {
        match node {
            AnyNode::Statement(StatementNode::Return(statement)) => Ok(statement),
            other => Err(other),
        }
    }

    fn downcast_ref_from(node: &AnyNode) -> (outcome: Option<&Self>) {
        match node {
            AnyNode::Statement(StatementNode::Return(statement)) => Some(statement),
            _ => None,
        }
    }

    proof fn lemma_erased_kind(self) {
    }
}

impl Concrete for ExpressionStatement {
    open spec fn registered_kind() -> NodeKind {
        NodeKind::ExpressionStatement
    }

    open spec fn erased(self) -> NodeView {
        NodeView::Statement(StatementView::Expression(self@))
    }

    fn kind() -> (kind: NodeKind) {
        NodeKind::ExpressionStatement
    }

    fn downcast_from(node: AnyNode) -> (outcome: Result<Self, AnyNode>) {
        match node {
            AnyNode::Statement(StatementNode::Expression(statement)) => Ok(statement),
            other => Err(other),
        }
    }

    fn downcast_ref_from(node: &AnyNode) -> (outcome: Option<&Self>) {
        match node {
            AnyNode::Statement(StatementNode::Expression(statement)) => Some(statement),
            _ => None,
        }
    }

    proof fn lemma_erased_kind(self) {
    }
}

impl Concrete for Identifier {
    open spec fn registered_kind() -> NodeKind {
        NodeKind::Identifier
    }

    open spec fn erased(self) -> NodeView {
        NodeView::Expression(ExpressionView::Identifier(self@))
    }

    fn kind() -> (kind: NodeKind) {
        NodeKind::Identifier
    }

    fn downcast_from(node: AnyNode) -> (outcome: Result<Self, AnyNode>) {
        match node {
            AnyNode::Expression(ExpressionNode::Identifier(identifier)) => Ok(identifier),
            other => Err(other),
        }
    }

    fn downcast_ref_from(node: &AnyNode) -> (outcome: Option<&Self>) {
        match node {
            AnyNode::Expression(ExpressionNode::Identifier(identifier)) => Some(identifier),
            _ => None,
        }
    }

    proof fn lemma_erased_kind(self) {
    }
}

impl Concrete for IntegerLiteral {
    open spec fn registered_kind() -> NodeKind {
        NodeKind::IntegerLiteral
    }

    open spec fn erased(self) -> NodeView {
        NodeView::Expression(ExpressionView::IntegerLiteral(self@))
    }

    fn kind() -> (kind: NodeKind) {
        NodeKind::IntegerLiteral
    }

    fn downcast_from(node: AnyNode) -> (outcome: Result<Self, AnyNode>) {
        match node {
            AnyNode::Expression(ExpressionNode::IntegerLiteral(integer)) => Ok(integer),
            other => Err(other),
        }
    }

    fn downcast_ref_from(node: &AnyNode) -> (outcome: Option<&Self>) {
        match node {
            AnyNode::Expression(ExpressionNode::IntegerLiteral(integer)) => Some(integer),
            _ => None,
        }
    }

    proof fn lemma_erased_kind(self) {
    }
}

} // verus!
