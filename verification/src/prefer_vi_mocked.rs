use vstd::prelude::*;

use crate::ast::{AncestorKind, AstKind, AstNode};
use crate::context::LintContext;
use crate::diagnostic::{report_view, Report};
use crate::prefer_jest_vi_mocked::{
    check_assert_type, check_ts_as_expression, run_requires, spec_run, TestingFramework,
};

verus! {

/// Prefer `vi.mocked()` over type assertions to Vitest's mock types.
///
/// ### What it does
///
/// When working with mocks of functions using Vitest, it's recommended to use the
/// `vi.mocked()` helper function to properly type the mocked functions. This rule
/// enforces the use of `vi.mocked()` for better type safety and readability.
///
/// Restricted types:
/// - `Mock`
/// - `MockedFunction`
/// - `MockedClass`
/// - `MockedObject`
///
/// ### Why is this bad?
///
/// Using type assertions like `fn as Mock` is a less safe approach
/// than using `vi.mocked()`. The `vi.mocked()` helper provides better
/// type safety by preserving the original function signature while adding
/// mock capabilities. It also makes the code more readable and explicit
/// about mocking intentions.
///
/// ### Examples
///
/// Examples of **incorrect** code for this rule:
/// ```typescript
/// (foo as vi.Mock).mockReturnValue(1);
/// const mock = (foo as vi.Mock).mockReturnValue(1);
/// (foo as unknown as vi.Mock).mockReturnValue(1);
/// (Obj.foo as vi.Mock).mockReturnValue(1);
/// ([].foo as vi.Mock).mockReturnValue(1);
/// ```
///
/// Examples of **correct** code for this rule:
/// ```typescript
/// vi.mocked(foo).mockReturnValue(1);
/// const mock = vi.mocked(foo).mockReturnValue(1);
/// vi.mocked(Obj.foo).mockReturnValue(1);
/// vi.mocked([].foo).mockReturnValue(1);
/// ```
///
/// The restricted types are reported whether written plain (`Mock`) or qualified
/// by `vi` exactly (`vi.Mock`), as the examples above show.
///
/// The rule belongs to the `vitest` plugin, in the `style` category, and its fix
/// is offered only where it can be applied (see `spec_can_fix`).
#[derive(Debug, Default, Clone, Copy)]
pub struct PreferViMocked;

impl PreferViMocked {
    /// Runs the rule on one node.
    pub fn run(&self, node: &AstNode, ctx: &LintContext) -> (report: Option<Report>)
        requires
            run_requires(TestingFramework::Vitest, *node, ctx.source_text@),
        ensures
            report_view(report) == spec_run(TestingFramework::Vitest, *node, ctx.source_text@),
    {
        match &node.kind {
            AstKind::TSAsExpression(ts_expr) => {
                if !matches!(node.parent_kind(), Some(AncestorKind::TSAsExpression)) {
                    check_ts_as_expression(node, ts_expr, &TestingFramework::Vitest, ctx)
                } else {
                    None
                }
            },
            AstKind::TSTypeAssertion(assert_type) => {
                check_assert_type(node, assert_type, &TestingFramework::Vitest, ctx)
            },
            AstKind::Other(_) => None,
        }
    }
}

} // verus!
