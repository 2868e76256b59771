//! What the Jest and the Vitest rule share: which type assertions they report, and
//! the warning and fix they report them with.
use vstd::prelude::*;

use crate::ast::{
    node_span, spec_outermost_paren_parent, spec_parent_kind, AncestorKind, AstKind, AstNode,
    TSAsExpression, TSType, TSTypeAssertion, TSTypeName, TSTypeReference,
};
use crate::context::{span_text, valid_span, LintContext};
use crate::diagnostic::{report_view, Diagnostic, Fix, FixView, Report, ReportView};
use crate::span::Span;
use crate::text::{ascii_case_insensitive_eq, eq_ignore_ascii_case, str_equals};

verus! {

/// The test framework whose mock helpers a rule asks for.
#[derive(Clone, Copy, Debug, PartialEq, Eq, Structural)]
pub enum TestingFramework {
    Jest,
    Vitest,
}

/// The name under which the framework's global object is written in test code:
/// `jest` for Jest and `vi` for Vitest.
pub open spec fn framework_name(framework: TestingFramework) -> Seq<char> {
    match framework {
        TestingFramework::Jest => "jest"@,
        TestingFramework::Vitest => "vi"@,
    }
}

impl TestingFramework {
    /// The framework's global object name.
    pub fn as_str(&self) -> (name: &'static str)
        ensures
            name@ == framework_name(*self),
    {
        match self {
            TestingFramework::Jest => "jest",
            TestingFramework::Vitest => "vi",
        }
    }

    /// The framework's global object name, which is how the framework displays.
    pub fn to_string(&self) -> (name: String)
        ensures
            name@ == framework_name(*self),
    {
        String::from_str(self.as_str())
    }
}

/// The mock helper types that the rules ask to replace by a `mocked()` call.
pub open spec fn is_mock_type_name(name: Seq<char>) -> bool {
    ||| name == "Mock"@
    ||| name == "MockedFunction"@
    ||| name == "MockedClass"@
    ||| name == "MockedObject"@
}

fn is_mock_type(name: &str) -> (found: bool)
    ensures
        found == is_mock_type_name(name@),
{
    str_equals(name, "Mock") || str_equals(name, "MockedFunction") || str_equals(
        name,
        "MockedClass",
    ) || str_equals(name, "MockedObject")
}

/// Whether `left` is the qualifier that names the framework: `jest` in any ASCII
/// case for Jest (`jest.Mock`, `JEST.Mock`), and exactly `vi` for Vitest
/// (`vi.Mock`, the qualified form that the Vitest rule's documentation lists).
pub open spec fn is_framework_qualifier(left: Seq<char>, framework: TestingFramework) -> bool {
    match framework {
        TestingFramework::Jest => ascii_case_insensitive_eq(left, "jest"@),
        TestingFramework::Vitest => left == "vi"@,
    }
}

/// Whether an assertion to a type of this name is reported for `framework`: a
/// plain mock type name (`Mock`, ...), or a mock type whose qualifier is a plain
/// name that names the framework (see [`is_framework_qualifier`]).
pub open spec fn is_restricted_type_name(name: TSTypeName, framework: TestingFramework) -> bool {
    match name {
        TSTypeName::QualifiedName(qualified) => match qualified.left {
            TSTypeName::IdentifierReference(left) => {
                &&& is_framework_qualifier(left@, framework)
                &&& is_mock_type_name(qualified.right@)
            },
            _ => false,
        },
        TSTypeName::IdentifierReference(name) => is_mock_type_name(name@),
        TSTypeName::ThisExpression => false,
    }
}

/// `jest.mocked(argument)` or `vi.mocked(argument)`.
pub open spec fn mocked_call(framework: TestingFramework, argument: Seq<char>) -> Seq<char> {
    framework_name(framework) + ".mocked("@ + argument + ")"@
}

/// The warning's message: ``Prefer `jest.mocked(foo)` over `foo as jest.Mock`.``
pub open spec fn mocked_message(
    framework: TestingFramework,
    argument: Seq<char>,
    replaced: Seq<char>,
) -> Seq<char> {
    "Prefer `"@ + mocked_call(framework, argument) + "` over `"@ + replaced + "`."@
}

/// The warning's help: ``Prefer `jest.mocked()` ``.
pub open spec fn mocked_help(framework: TestingFramework) -> Seq<char> {
    "Prefer `"@ + framework_name(framework) + ".mocked()`"@
}

/// Whether the fix may be offered for the assertion `node`: it has an ancestor
/// other than parentheses, and that ancestor is neither an assignment whose target
/// is the node, nor an identifier reference, a computed member expression or a
/// private field expression.
pub open spec fn spec_can_fix(node: AstNode) -> bool {
    match spec_outermost_paren_parent(node.ancestors@) {
        None => false,
        Some(AncestorKind::AssignmentExpression { left }) => left != node_span(node),
        Some(AncestorKind::IdentifierReference) => false,
        Some(AncestorKind::ComputedMemberExpression) => false,
        Some(AncestorKind::PrivateFieldExpression) => false,
        Some(_) => true,
    }
}

/// The report for an assertion of the expression under `arg_span` to the type
/// named `name`, the assertion covering `span`: none unless the name is
/// restricted; otherwise a warning at `span` and, where it may be offered, a fix
/// that replaces `span` with the `mocked()` call on the asserted expression.
pub open spec fn spec_check(
    node: AstNode,
    name: TSTypeName,
    arg_span: Span,
    span: Span,
    framework: TestingFramework,
    source: Seq<char>,
) -> Option<ReportView> {
    if is_restricted_type_name(name, framework) {
        let argument = span_text(source, arg_span);
        Some(
            ReportView {
                message: mocked_message(framework, argument, span_text(source, span)),
                help: mocked_help(framework),
                label: span,
                fix: if spec_can_fix(node) {
                    Some(FixView { span, content: mocked_call(framework, argument) })
                } else {
                    None
                },
            },
        )
    } else {
        None
    }
}

/// The report for an assertion to `annotation`: only a type reference can be reported.
pub open spec fn spec_check_type(
    node: AstNode,
    annotation: TSType,
    arg_span: Span,
    span: Span,
    framework: TestingFramework,
    source: Seq<char>,
) -> Option<ReportView> {
    match annotation {
        TSType::TSTypeReference(reference) => spec_check(
            node,
            reference.name,
            arg_span,
            span,
            framework,
            source,
        ),
        TSType::Other => None,
    }
}

/// Reading the source text under the spans that a report quotes does not fail.
pub open spec fn check_requires(
    name: TSTypeName,
    arg_span: Span,
    span: Span,
    framework: TestingFramework,
    source: Seq<char>,
) -> bool {
    is_restricted_type_name(name, framework) ==> valid_span(source, arg_span) && valid_span(
        source,
        span,
    )
}

/// As [`check_requires`], for an assertion to `annotation`.
pub open spec fn check_type_requires(
    annotation: TSType,
    arg_span: Span,
    span: Span,
    framework: TestingFramework,
    source: Seq<char>,
) -> bool {
    match annotation {
        TSType::TSTypeReference(reference) => check_requires(
            reference.name,
            arg_span,
            span,
            framework,
            source,
        ),
        TSType::Other => true,
    }
}

/// Whether the node's parent is an `as` expression.
pub open spec fn parent_is_as_expression(node: AstNode) -> bool {
    spec_parent_kind(node) == Some(AncestorKind::TSAsExpression)
}

/// What a rule reports on `node`: a `<T>x` assertion is checked; an `x as T`
/// expression is checked unless its parent is itself an `as` expression (in a
/// chain `x as A as B` only the outermost assertion is checked); nothing else is
/// reported.
pub open spec fn spec_run(framework: TestingFramework, node: AstNode, source: Seq<char>) -> Option<
    ReportView,
> {
    match node.kind {
        AstKind::TSAsExpression(as_expr) => if parent_is_as_expression(node) {
            None
        } else {
            spec_check_type(
                node,
                as_expr.type_annotation,
                as_expr.inner_expression_span,
                as_expr.span,
                framework,
                source,
            )
        },
        AstKind::TSTypeAssertion(assert_type) => spec_check_type(
            node,
            assert_type.type_annotation,
            assert_type.inner_expression_span,
            assert_type.span,
            framework,
            source,
        ),
        AstKind::Other(_) => None,
    }
}

/// Reading the source text under the spans that a rule's report on `node` quotes
/// does not fail.
pub open spec fn run_requires(framework: TestingFramework, node: AstNode, source: Seq<char>) -> bool {
    match node.kind {
        AstKind::TSAsExpression(as_expr) => !parent_is_as_expression(node) ==> check_type_requires(
            as_expr.type_annotation,
            as_expr.inner_expression_span,
            as_expr.span,
            framework,
            source,
        ),
        AstKind::TSTypeAssertion(assert_type) => check_type_requires(
            assert_type.type_annotation,
            assert_type.inner_expression_span,
            assert_type.span,
            framework,
            source,
        ),
        AstKind::Other(_) => true,
    }
}

/// The warning for the assertion at `span` of the expression at `arg_span`.
fn use_jest_vi_mocked(
    span: Span,
    framework: &TestingFramework,
    arg_span: Span,
    ctx: &LintContext,
) -> (diagnostic: Diagnostic)
    requires
        valid_span(ctx.source_text@, span),
        valid_span(ctx.source_text@, arg_span),
    ensures
        diagnostic.message@ == mocked_message(
            *framework,
            span_text(ctx.source_text@, arg_span),
            span_text(ctx.source_text@, span),
        ),
        diagnostic.help@ == mocked_help(*framework),
        diagnostic.label == span,
{
    let replacement = ctx.source_range(span);
    let arg = ctx.source_range(arg_span);
    let call = mocked_call_text(framework, arg);
    let mut message = String::from_str("Prefer `");
    message.append(call.as_str());
    message.append("` over `");
    message.append(replacement);
    message.append("`.");
    let mut help = String::from_str("Prefer `");
    help.append(framework.as_str());
    help.append(".mocked()`");
    Diagnostic { message, help, label: span }
}

/// The text `jest.mocked(argument)` or `vi.mocked(argument)`.
fn mocked_call_text(framework: &TestingFramework, argument: &str) -> (call: String)
    ensures
        call@ == mocked_call(*framework, argument@),
{
    let mut call = framework.to_string();
    call.append(".mocked(");
    call.append(argument);
    call.append(")");
    call
}

/// Checks an `as` expression for an assertion to a mock type.
pub fn check_ts_as_expression(
    node: &AstNode,
    as_expr: &TSAsExpression,
    framework: &TestingFramework,
    ctx: &LintContext,
) -> (report: Option<Report>)
    requires
        check_type_requires(
            as_expr.type_annotation,
            as_expr.inner_expression_span,
            as_expr.span,
            *framework,
            ctx.source_text@,
        ),
    ensures
        report_view(report) == spec_check_type(
            *node,
            as_expr.type_annotation,
            as_expr.inner_expression_span,
            as_expr.span,
            *framework,
            ctx.source_text@,
        ),
{
    match &as_expr.type_annotation {
        TSType::TSTypeReference(ts_reference) => check(
            node,
            ts_reference,
            as_expr.inner_expression_span,
            as_expr.span,
            framework,
            ctx,
        ),
        TSType::Other => None,
    }
}

/// Checks a `<T>expression` assertion for an assertion to a mock type.
pub fn check_assert_type(
    node: &AstNode,
    assert_type: &TSTypeAssertion,
    framework: &TestingFramework,
    ctx: &LintContext,
) -> (report: Option<Report>)
    requires
        check_type_requires(
            assert_type.type_annotation,
            assert_type.inner_expression_span,
            assert_type.span,
            *framework,
            ctx.source_text@,
        ),
    ensures
        report_view(report) == spec_check_type(
            *node,
            assert_type.type_annotation,
            assert_type.inner_expression_span,
            assert_type.span,
            *framework,
            ctx.source_text@,
        ),
{
    match &assert_type.type_annotation {
        TSType::TSTypeReference(ts_reference) => check(
            node,
            ts_reference,
            assert_type.inner_expression_span,
            assert_type.span,
            framework,
            ctx,
        ),
        TSType::Other => None,
    }
}

fn check(
    node: &AstNode,
    ts_reference: &TSTypeReference,
    arg_span: Span,
    span: Span,
    framework: &TestingFramework,
    ctx: &LintContext,
) -> (report: Option<Report>)
    requires
        check_requires(ts_reference.name, arg_span, span, *framework, ctx.source_text@),
    ensures
        report_view(report) == spec_check(
            *node,
            ts_reference.name,
            arg_span,
            span,
            *framework,
            ctx.source_text@,
        ),
{
    match &ts_reference.name {
        TSTypeName::QualifiedName(qualified_name) => {
            let ident = match &qualified_name.left {
                TSTypeName::IdentifierReference(ident) => ident,
                _ => {
                    return None;
                },
            };
            let names_framework = match framework {
                TestingFramework::Jest => eq_ignore_ascii_case(ident.as_str(), "jest"),
                TestingFramework::Vitest => str_equals(ident.as_str(), "vi"),
            };
            if !names_framework || !is_mock_type(
                qualified_name.right.as_str(),
            ) {
                return None;
            }
        },
        TSTypeName::IdentifierReference(ident) => {
            if !is_mock_type(ident.as_str()) {
                return None;
            }
        },
        TSTypeName::ThisExpression => {
            return None;
        },
    }

    let diagnostic = use_jest_vi_mocked(span, framework, arg_span, ctx);
    if can_fix(node) {
        let span_source_code = ctx.source_range(arg_span);
        let content = mocked_call_text(framework, span_source_code);
        Some(Report { diagnostic, fix: Some(Fix { span, content }) })
    } else {
        Some(Report { diagnostic, fix: None })
    }
}

fn can_fix(node: &AstNode) -> (fixable: bool)
    ensures
        fixable == spec_can_fix(*node),
{
    match node.outermost_paren_parent() {
        None => false,
        Some(parent_kind) => {
            // The fix would turn an assignment target into a call, which is not
            // a valid target.
            if let AncestorKind::AssignmentExpression { left } = parent_kind {
                if is_left_hand_side_of_assignment(left, node) {
                    return false;
                }
            }
            !matches!(
                parent_kind,
                AncestorKind::IdentifierReference | AncestorKind::ComputedMemberExpression
                    | AncestorKind::PrivateFieldExpression
            )
        },
    }
}

/// Whether the node is the target (the left-hand side) of an assignment whose
/// target covers `assignment_target`.
fn is_left_hand_side_of_assignment(assignment_target: Span, node: &AstNode) -> (is_target: bool)
    ensures
        is_target == (assignment_target == node_span(*node)),
{
    assignment_target == node.span()
}

} // verus!
