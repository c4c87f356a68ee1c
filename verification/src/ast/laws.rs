//! Laws of the node model: what holds of every node, stated over the model
//! that the operations' contracts speak of.

use vstd::prelude::*;
use crate::ast::any::{AnyNode, Concrete};
use crate::ast::expression::ExpressionNode;
use crate::ast::model::{
    joined_literals, ExpressionView, IdentifierView, IntegerLiteralView, NodeView, ProgramView,
    StatementView,
};
use crate::ast::statement::StatementNode;
use crate::ast::{Expression, Statement};

verus! {

/// A deep copy of a statement renders as the statement itself does, has the
/// same literal and reports the same kind name.
pub proof fn lemma_statement_copy_agrees<S: Statement>(node: S, copy: StatementNode)
    requires
        copy@ == node.model(),
    ensures
        copy.model().rendering() == node.model().rendering(),
        copy.model().literal() == node.model().literal(),
        copy.model().kind().name() == node.model().kind().name(),
{
}

/// A deep copy of an expression renders as the expression itself does, has
/// the same literal and anchor, and reports the same kind name.
pub proof fn lemma_expression_copy_agrees<E: Expression>(node: E, copy: ExpressionNode)
    requires
        copy@ == node.model(),
    ensures
        copy.model().rendering() == node.model().rendering(),
        copy.model().anchored() == node.model().anchored(),
        copy.model().literal() == node.model().literal(),
        copy.model().kind().name() == node.model().kind().name(),
{
}

/// Erasing a statement keeps its kind, so the erased copy goes by the same
/// kind name as the statement itself.
pub proof fn lemma_erased_statement_keeps_kind<S: Statement>(node: S, erased: AnyNode)
    requires
        erased@ == NodeView::Statement(node.model()),
    ensures
        erased@.kind().name() == node.model().kind().name(),
{
}

/// Erasing an expression keeps its kind, so the erased copy goes by the same
/// kind name as the expression itself.
pub proof fn lemma_erased_expression_keeps_kind<E: Expression>(node: E, erased: AnyNode)
    requires
        erased@ == NodeView::Expression(node.model()),
    ensures
        erased@.kind().name() == node.model().kind().name(),
{
}

/// A node is of at most one concrete type: if it is what some `T` erases to,
/// then its kind name is the one `T` is registered under, and it is of any
/// other registered name only if that name is the same.
pub proof fn lemma_kind_name_decides_type<T: Concrete, U: Concrete>(concrete: T)
    ensures
        concrete.erased().kind().name() == T::registered_kind().name(),
        concrete.erased().kind().name() == U::registered_kind().name() <==> T::registered_kind()
            == U::registered_kind(),
{
    concrete.lemma_erased_kind();
    T::registered_kind().lemma_name_injective(U::registered_kind());
}

/// A program without statements renders as the empty text and has the empty
/// literal.
pub proof fn lemma_empty_program(program: ProgramView)
    requires
        program.statements.len() == 0,
    ensures
        program.rendering() == Seq::<char>::empty(),
        program.literal() == Seq::<char>::empty(),
{
}

/// A program of one statement renders as that statement's literal.
pub proof fn lemma_single_statement_program(program: ProgramView)
    requires
        program.statements.len() == 1,
    ensures
        program.rendering() == program.statements[0].literal(),
        program.literal() == program.statements[0].literal(),
{
    assert(program.statements.drop_last().len() == 0);
    assert(joined_literals(program.statements.drop_last()) == Seq::<char>::empty());
    assert(Seq::<char>::empty() + program.statements[0].literal()
        =~= program.statements[0].literal());
}

/// Adding a statement at the end of a program adds its literal at the end of
/// the rendering.
pub proof fn lemma_rendering_push(statements: Seq<StatementView>, last: StatementView)
    ensures
        (ProgramView { statements: statements.push(last) }).rendering() == (ProgramView {
            statements,
        }).rendering() + last.literal(),
{
    assert(statements.push(last).drop_last() =~= statements);
}

/// The rendering of a program is the concatenation, in order, of the
/// renderings of any two parts it is split into.
pub proof fn lemma_rendering_concat(front: Seq<StatementView>, back: Seq<StatementView>)
    ensures
        joined_literals(front + back) == joined_literals(front) + joined_literals(back),
    decreases back.len(),
{
    if back.len() == 0 {
        assert(front + back =~= front);
        assert(joined_literals(front) + Seq::<char>::empty() =~= joined_literals(front));
    } else {
        lemma_rendering_concat(front, back.drop_last());
        assert((front + back).drop_last() =~= front + back.drop_last());
        assert((front + back).last() == back.last());
        assert((joined_literals(front) + joined_literals(back.drop_last()))
            + back.last().literal() =~= joined_literals(front) + (joined_literals(
            back.drop_last(),
        ) + back.last().literal()));
    }
}

/// The rendering of a program is the flattening of its statements' literals.
pub proof fn lemma_rendering_is_flattened_literals(program: ProgramView)
    ensures
        program.rendering() == program.statements.map_values(
            |statement: StatementView| statement.literal(),
        ).flatten(),
{
    let literals = program.statements.map_values(|statement: StatementView| statement.literal());
    literals.lemma_flatten_and_flatten_alt_are_equivalent();
    lemma_joined_is_flatten_alt(program.statements);
}

/// `joined_literals` agrees with flattening from the back.
proof fn lemma_joined_is_flatten_alt(statements: Seq<StatementView>)
    ensures
        joined_literals(statements) == statements.map_values(
            |statement: StatementView| statement.literal(),
        ).flatten_alt(),
    decreases statements.len(),
{
    let literals = statements.map_values(|statement: StatementView| statement.literal());
    if statements.len() > 0 {
        lemma_joined_is_flatten_alt(statements.drop_last());
        assert(statements.drop_last().map_values(|statement: StatementView| statement.literal())
            =~= literals.drop_last());
    }
}

/// A finished expression has an anchor, so its literal can be asked for, and
/// a finished identifier's literal is its rendering.
pub proof fn lemma_well_formed_is_anchored(expression: ExpressionView)
    requires
        expression.well_formed(),
    ensures
        expression.anchored(),
        expression.literal() == expression.rendering(),
{
}

/// An identifier renders as its name, with or without an anchor token.
pub proof fn lemma_identifier_rendering_ignores_anchor(a: IdentifierView, b: IdentifierView)
    requires
        a.value == b.value,
    ensures
        a.rendering() == b.rendering(),
        a.rendering() == a.value,
{
}

/// An integer literal renders as its token's text, whatever number it holds.
pub proof fn lemma_integer_rendering_keeps_spelling(a: IntegerLiteralView, b: IntegerLiteralView)
    requires
        a.token.literal == b.token.literal,
    ensures
        a.rendering() == b.rendering(),
        a.rendering() == a.token.literal,
{
}

} // verus!
