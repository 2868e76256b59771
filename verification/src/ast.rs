//! The part of a TypeScript syntax tree that the mock-assertion rules read.
//!
//! A front end that owns a parser builds these values from its own tree: one
//! [`AstNode`] per node the rules are run on, with the kinds of the node's
//! ancestors from its parent up to the program.
use vstd::prelude::*;

use crate::span::Span;

verus! {

/// The name in a type reference.
#[derive(Debug)]
pub enum TSTypeName {
    /// A plain name, as in `x as Mock`.
    IdentifierReference(String),
    /// A name qualified by a namespace, as in `x as jest.Mock`.
    QualifiedName(Box<TSQualifiedName>),
    /// `this`, as in `x as this`.
    ThisExpression,
}

/// `left.right` in type position.
#[derive(Debug)]
pub struct TSQualifiedName {
    pub left: TSTypeName,
    pub right: String,
}

/// A reference to a named type, such as `jest.MockedFunction<typeof f>`.
/// Type arguments play no part in the rules and are not kept.
#[derive(Debug)]
pub struct TSTypeReference {
    pub name: TSTypeName,
}

/// The type that an expression is asserted to have.
#[derive(Debug)]
pub enum TSType {
    TSTypeReference(TSTypeReference),
    /// Any type that is not a type reference (`unknown`, `string`, object types, ...).
    Other,
}

/// `expression as T`.
#[derive(Debug)]
pub struct TSAsExpression {
    /// The span of the whole assertion.
    pub span: Span,
    /// The span of the asserted expression with every layer of parentheses and of
    /// TypeScript assertions around it (`as`, `satisfies`, `!`, `<T>x`, instantiation
    /// expressions) taken off: the `foo` of `(foo as unknown) as jest.Mock`.
    pub inner_expression_span: Span,
    pub type_annotation: TSType,
}

/// `<T>expression`.
#[derive(Debug)]
pub struct TSTypeAssertion {
    /// The span of the whole assertion.
    pub span: Span,
    /// The span of the asserted expression once parentheses and TypeScript
    /// assertions around it are taken off, as for [`TSAsExpression`].
    pub inner_expression_span: Span,
    pub type_annotation: TSType,
}

/// The kind of the node that a rule is run on.
#[derive(Debug)]
pub enum AstKind {
    TSAsExpression(TSAsExpression),
    TSTypeAssertion(TSTypeAssertion),
    /// Any other node, with its span.
    Other(Span),
}

/// The kind of an ancestor of the node that a rule is run on.
#[derive(Clone, Copy, Debug, PartialEq, Eq, Structural)]
pub enum AncestorKind {
    ParenthesizedExpression,
    TSAsExpression,
    /// An assignment; `left` is the span of its assignment target.
    AssignmentExpression { left: Span },
    IdentifierReference,
    ComputedMemberExpression,
    PrivateFieldExpression,
    /// Any other node.
    Other,
}

/// A node of the syntax tree together with what the rules read of its surroundings.
#[derive(Debug)]
pub struct AstNode {
    pub kind: AstKind,
    /// The kinds of the node's ancestors: its parent first, the program last.
    pub ancestors: Vec<AncestorKind>,
}

/// The span of the node: that of the assertion it is, or the one it was given.
pub open spec fn node_span(node: AstNode) -> Span {
    match node.kind {
        AstKind::TSAsExpression(as_expr) => as_expr.span,
        AstKind::TSTypeAssertion(assert_type) => assert_type.span,
        AstKind::Other(span) => span,
    }
}

/// The kind of the node's parent, if it has one.
pub open spec fn spec_parent_kind(node: AstNode) -> Option<AncestorKind> {
    if node.ancestors@.len() == 0 {
        None
    } else {
        Some(node.ancestors@[0])
    }
}

/// The nearest ancestor of a node that is not a parenthesized expression.
pub open spec fn spec_outermost_paren_parent(ancestors: Seq<AncestorKind>) -> Option<AncestorKind>
    decreases ancestors.len(),
{
    if ancestors.len() == 0 {
        None
    } else if ancestors[0] is ParenthesizedExpression {
        spec_outermost_paren_parent(ancestors.drop_first())
    } else {
        Some(ancestors[0])
    }
}

impl AstNode {
    /// The span of the node.
    pub fn span(&self) -> (span: Span)
        ensures
            span == node_span(*self),
    {
        match &self.kind {
            AstKind::TSAsExpression(as_expr) => as_expr.span,
            AstKind::TSTypeAssertion(assert_type) => assert_type.span,
            AstKind::Other(span) => *span,
        }
    }

    /// The kind of the node's parent, if it has one.
    pub fn parent_kind(&self) -> (kind: Option<AncestorKind>)
        ensures
            kind == spec_parent_kind(*self),
    {
        if self.ancestors.len() == 0 {
            None
        } else {
            Some(self.ancestors[0])
        }
    }

    /// The nearest ancestor of the node that is not a parenthesized expression.
    pub fn outermost_paren_parent(&self) -> (parent: Option<AncestorKind>)
        ensures
            parent == spec_outermost_paren_parent(self.ancestors@),
    {
        let ghost ancestors = self.ancestors@;
        let mut i: usize = 0;
        assert(ancestors.skip(0) =~= ancestors);
        while i < self.ancestors.len()
            invariant
                0 <= i <= ancestors.len(),
                ancestors == self.ancestors@,
                spec_outermost_paren_parent(ancestors) == spec_outermost_paren_parent(
                    ancestors.skip(i as int),
                ),
            decreases ancestors.len() - i,
        {
            let kind = self.ancestors[i];
            assert(ancestors.skip(i as int)[0] == kind);
            match kind {
                AncestorKind::ParenthesizedExpression => {
                    assert(ancestors.skip(i as int).drop_first() =~= ancestors.skip(i + 1));
                },
                _ => {
                    return Some(kind);
                },
            }
            i = i + 1;
        }
        assert(ancestors.skip(i as int).len() == 0);
        None
    }
}

} // verus!
