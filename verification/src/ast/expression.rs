//! Expression-like nodes: the two leaves and the handle that stores either.

use vstd::prelude::*;
use crate::ast::any::AnyNode;
use crate::ast::model::{ExpressionView, IdentifierView, IntegerLiteralView};
use crate::ast::{type_of, Expression};
use crate::token::Token;

verus! {

/// A name that refers to a binding.
#[derive(Debug)]
pub struct Identifier {
    pub token: Option<Token>,
    pub value: String,
}

/// An integer constant, kept with the token it was read from.
#[derive(Debug)]
pub struct IntegerLiteral {
    pub token: Token,
    pub value: Option<i64>,
}

/// A handle on any expression-like node.
#[derive(Debug)]
pub enum ExpressionNode {
    Identifier(Identifier),
    IntegerLiteral(IntegerLiteral),
}

impl View for Identifier {
    type V = IdentifierView;

    open spec fn view(&self) -> IdentifierView {
        IdentifierView {
            token: match self.token {
                Some(token) => Some(token@),
                None => None,
            },
            value: self.value@,
        }
    }
}

impl View for IntegerLiteral {
    type V = IntegerLiteralView;

    open spec fn view(&self) -> IntegerLiteralView {
        IntegerLiteralView { token: self.token@, value: self.value }
    }
}

impl View for ExpressionNode {
    type V = ExpressionView;

    open spec fn view(&self) -> ExpressionView {
        match self {
            ExpressionNode::Identifier(identifier) => ExpressionView::Identifier(identifier@),
            ExpressionNode::IntegerLiteral(integer) => ExpressionView::IntegerLiteral(integer@),
        }
    }
}

impl Clone for Identifier {
    fn clone(&self) -> (copy: Identifier)
        ensures
            copy@ == self@,
    {
        let token = match &self.token {
            Some(token) => Some(token.clone()),
            None => None,
        };
        Identifier { token, value: self.value.clone() }
    }
}

impl Clone for IntegerLiteral {
    fn clone(&self) -> (copy: IntegerLiteral)
        ensures
            copy@ == self@,
    {
        IntegerLiteral { token: self.token.clone(), value: self.value }
    }
}

impl Clone for ExpressionNode {
    fn clone(&self) -> (copy: ExpressionNode)
        ensures
            copy@ == self@,
    {
        match self {
            ExpressionNode::Identifier(identifier) => ExpressionNode::Identifier(
                identifier.clone(),
            ),
            ExpressionNode::IntegerLiteral(integer) => ExpressionNode::IntegerLiteral(
                integer.clone(),
            ),
        }
    }
}

impl Identifier {
    /// Whether the identifier is finished: anchored, and named as its
    /// anchor spells it.
    pub fn is_well_formed(&self) -> (finished: bool)
        ensures
            finished == self@.well_formed(),
    {
        match &self.token {
            Some(token) => token.literal == self.value,
            None => false,
        }
    }
}

impl IntegerLiteral {
    /// Whether the literal is finished: it holds its number.
    pub fn is_well_formed(&self) -> (finished: bool)
        ensures
            finished == self@.well_formed(),
    {
        self.value.is_some()
    }
}

impl ExpressionNode {
    /// Whether the node behind the handle is finished.
    pub fn is_well_formed(&self) -> (finished: bool)
        ensures
            finished == self@.well_formed(),
    {
        match self {
            ExpressionNode::Identifier(identifier) => identifier.is_well_formed(),
            ExpressionNode::IntegerLiteral(integer) => integer.is_well_formed(),
        }
    }
}

impl Expression for Identifier {
    open spec fn model(&self) -> ExpressionView {
        ExpressionView::Identifier(self@)
    }

    fn token_literal(&self) -> (text: String) {
        self.token.as_ref().unwrap().literal.clone()
    }

    fn expression_node(&self) {
    }

    fn string(&self) -> (text: String) {
        self.value.clone()
    }

    fn box_clone(&self) -> (copy: ExpressionNode) {
        ExpressionNode::Identifier(self.clone())
    }

    fn kind_name(&self) -> (name: String) {
        type_of(self)
    }

    fn to_any(&self) -> (copy: AnyNode) {
        AnyNode::Expression(self.box_clone())
    }
}

impl Expression for IntegerLiteral {
    open spec fn model(&self) -> ExpressionView {
        ExpressionView::IntegerLiteral(self@)
    }

    fn token_literal(&self) -> (text: String) {
        self.token.literal.clone()
    }

    fn expression_node(&self) {
    }

    fn string(&self) -> (text: String) {
        self.token.literal.clone()
    }

    fn box_clone(&self) -> (copy: ExpressionNode) {
        ExpressionNode::IntegerLiteral(self.clone())
    }

    fn kind_name(&self) -> (name: String) {
        type_of(self)
    }

    fn to_any(&self) -> (copy: AnyNode) {
        AnyNode::Expression(self.box_clone())
    }
}

impl Expression for ExpressionNode {
    open spec fn model(&self) -> ExpressionView {
        self@
    }

    fn token_literal(&self) -> (text: String) {
        match self {
            ExpressionNode::Identifier(identifier) => identifier.token_literal(),
            ExpressionNode::IntegerLiteral(integer) => integer.token_literal(),
        }
    }

    fn expression_node(&self) {
    }

    fn string(&self) -> (text: String) {
        match self {
            ExpressionNode::Identifier(identifier) => identifier.string(),
            ExpressionNode::IntegerLiteral(integer) => integer.string(),
        }
    }

    fn box_clone(&self) -> (copy: ExpressionNode) {
        self.clone()
    }

    fn kind_name(&self) -> (name: String) {
        match self {
            ExpressionNode::Identifier(identifier) => identifier.kind_name(),
            ExpressionNode::IntegerLiteral(integer) => integer.kind_name(),
        }
    }

    fn to_any(&self) -> (copy: AnyNode) {
        AnyNode::Expression(self.clone())
    }
}

} // verus!
