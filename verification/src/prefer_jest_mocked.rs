use vstd::prelude::*;

use crate::ast::{AncestorKind, AstKind, AstNode};
use crate::context::LintContext;
use crate::diagnostic::{report_view, Report};
use crate::prefer_jest_vi_mocked::{
    check_assert_type, check_ts_as_expression, run_requires, spec_run, TestingFramework,
};

verus! {

/// Prefer `jest.mocked()` over type assertions to Jest's mock types.
///
/// ### What it does
///
/// When working with mocks of functions using Jest, it's recommended to use the
/// `jest.mocked()` helper function to properly type the mocked functions. This rule
/// enforces the use of `jest.mocked()` for better type safety and readability.
///
/// Restricted types:
/// - `jest.Mock`
/// - `jest.MockedFunction`
/// - `jest.MockedClass`
/// - `jest.MockedObject`
///
/// ### Why is this bad?
///
/// Using type assertions like `fn as jest.Mock` is a less safe approach
/// than using `jest.mocked()`. The `jest.mocked()` helper provides better
/// type safety by preserving the original function signature while adding
/// mock capabilities. It also makes the code more readable and explicit
/// about mocking intentions.
///
/// ### Examples
///
/// Examples of **incorrect** code for this rule:
/// ```typescript
/// (foo as jest.Mock).mockReturnValue(1);
/// const mock = (foo as jest.Mock).mockReturnValue(1);
/// (foo as unknown as jest.Mock).mockReturnValue(1);
/// (Obj.foo as jest.Mock).mockReturnValue(1);
/// ([].foo as jest.Mock).mockReturnValue(1);
/// ```
///
/// Examples of **correct** code for this rule:
/// ```typescript
/// jest.mocked(foo).mockReturnValue(1);
/// const mock = jest.mocked(foo).mockReturnValue(1);
/// jest.mocked(Obj.foo).mockReturnValue(1);
/// jest.mocked([].foo).mockReturnValue(1);
/// ```
///
/// The restricted types are also reported when written plain (`Mock`), and the
/// `jest` qualifier is matched in any ASCII case (`JEST.Mock`).
///
/// The rule belongs to the `jest` plugin, in the `style` category, and its fix
/// is offered only where it can be applied (see `spec_can_fix`).
#[derive(Debug, Default, Clone, Copy)]
pub struct PreferJestMocked;

impl PreferJestMocked {
    /// Runs the rule on one node.
    pub fn run(&self, node: &AstNode, ctx: &LintContext) -> (report: Option<Report>)
        requires
            run_requires(TestingFramework::Jest, *node, ctx.source_text@),
        ensures
            report_view(report) == spec_run(TestingFramework::Jest, *node, ctx.source_text@),
    {
        match &node.kind {
            AstKind::TSAsExpression(ts_expr) => {
                if !matches!(node.parent_kind(), Some(AncestorKind::TSAsExpression)) {
                    check_ts_as_expression(node, ts_expr, &TestingFramework::Jest, ctx)
                } else {
                    None
                }
            },
            AstKind::TSTypeAssertion(assert_type) => {
                check_assert_type(node, assert_type, &TestingFramework::Jest, ctx)
            },
            AstKind::Other(_) => None,
        }
    }
}

} // verus!
