use prefer_mocked::ast::{
    AncestorKind, AstKind, AstNode, TSAsExpression, TSType, TSTypeAssertion, TSTypeName,
    TSTypeReference,
};
use prefer_mocked::context::LintContext;
use prefer_mocked::diagnostic::Fix;
use prefer_mocked::span::Span;
use prefer_mocked::text::{eq_ignore_ascii_case, str_equals};
use prefer_mocked::{check_assert_type, check_ts_as_expression, PreferJestMocked, TestingFramework};

#[test]
fn framework_names() {
    assert_eq!(TestingFramework::Jest.as_str(), "jest");
    assert_eq!(TestingFramework::Vitest.as_str(), "vi");
    assert_eq!(TestingFramework::Jest.to_string(), "jest");
    assert_eq!(TestingFramework::Vitest.to_string(), "vi");
}

#[test]
fn ascii_case_insensitive_matching() {
    assert!(eq_ignore_ascii_case("JEST", "jest"));
    assert!(eq_ignore_ascii_case("jEsT", "JeSt"));
    assert!(!eq_ignore_ascii_case("jest", "jes"));
    assert!(!eq_ignore_ascii_case("jest", "test"));
    assert!(!eq_ignore_ascii_case("ÑANDÚ", "ñandú"));
    assert!(eq_ignore_ascii_case("", ""));
}

#[test]
fn string_equality() {
    assert!(str_equals("Mock", "Mock"));
    assert!(!str_equals("Mock", "mock"));
    assert!(!str_equals("Mock", "MockedClass"));
    assert!(str_equals("ñandú", "ñandú"));
}

#[test]
fn source_range_reads_bytes_of_the_source() {
    let ctx = LintContext::new("a = ñandú;".to_string());
    assert_eq!(ctx.source_range(Span::new(4, 11)), "ñandú");
    assert_eq!(ctx.source_range(Span::new(0, 1)), "a");
    assert_eq!(ctx.source_range(Span::new(3, 3)), "");
}

#[test]
fn outermost_paren_parent_skips_parentheses() {
    let node = |ancestors: Vec<AncestorKind>| AstNode { kind: AstKind::Other(Span::new(0, 1)), ancestors };
    let left = Span::new(0, 1);
    assert_eq!(
        node(vec![
            AncestorKind::ParenthesizedExpression,
            AncestorKind::ParenthesizedExpression,
            AncestorKind::AssignmentExpression { left },
            AncestorKind::Other,
        ])
        .outermost_paren_parent(),
        Some(AncestorKind::AssignmentExpression { left })
    );
    assert_eq!(node(vec![AncestorKind::ParenthesizedExpression]).outermost_paren_parent(), None);
    assert_eq!(node(vec![]).outermost_paren_parent(), None);
    assert_eq!(node(vec![AncestorKind::TSAsExpression]).parent_kind(), Some(AncestorKind::TSAsExpression));
    assert_eq!(node(vec![]).parent_kind(), None);
}

fn mock_reference() -> TSType {
    TSType::TSTypeReference(TSTypeReference {
        name: TSTypeName::IdentifierReference("MockedClass".to_string()),
    })
}

#[test]
fn checks_of_as_and_angle_assertions_agree() {
    // "x = <MockedClass>foo;" and "x = foo as MockedClass;" have `foo` at different
    // places; one source holding both keeps the spans of one text.
    let ctx = LintContext::new("x = (foo as MockedClass);".to_string());
    let ancestors = vec![AncestorKind::ParenthesizedExpression, AncestorKind::AssignmentExpression { left: Span::new(0, 1) }];
    let as_expr = TSAsExpression {
        span: Span::new(5, 23),
        inner_expression_span: Span::new(5, 8),
        type_annotation: mock_reference(),
    };
    let angle = TSTypeAssertion {
        span: Span::new(5, 23),
        inner_expression_span: Span::new(5, 8),
        type_annotation: mock_reference(),
    };
    let as_node = AstNode { kind: AstKind::TSAsExpression(as_expr), ancestors: ancestors.clone() };
    let angle_node = AstNode { kind: AstKind::TSTypeAssertion(angle), ancestors };
    let (AstKind::TSAsExpression(as_expr), AstKind::TSTypeAssertion(angle)) = (&as_node.kind, &angle_node.kind) else {
        unreachable!()
    };
    assert_eq!(as_node.span(), Span::new(5, 23));
    let a = check_ts_as_expression(&as_node, as_expr, &TestingFramework::Jest, &ctx).unwrap();
    let b = check_assert_type(&angle_node, angle, &TestingFramework::Jest, &ctx).unwrap();
    assert_eq!(a.diagnostic.message, "Prefer `jest.mocked(foo)` over `foo as MockedClass`.");
    assert_eq!(a.diagnostic.message, b.diagnostic.message);
    assert_eq!(a.fix.unwrap().content, b.fix.unwrap().content);
}

#[test]
fn nested_as_expression_is_skipped_by_run() {
    let ctx = LintContext::new("foo as Mock as Mock".to_string());
    let inner = AstNode {
        kind: AstKind::TSAsExpression(TSAsExpression {
            span: Span::new(0, 11),
            inner_expression_span: Span::new(0, 3),
            type_annotation: mock_reference(),
        }),
        ancestors: vec![AncestorKind::TSAsExpression, AncestorKind::Other],
    };
    assert!(PreferJestMocked.run(&inner, &ctx).is_none());
    let unrelated = AstNode { kind: AstKind::Other(Span::new(0, 3)), ancestors: vec![] };
    assert!(PreferJestMocked.run(&unrelated, &ctx).is_none());
}

#[test]
fn fix_apply_splices_the_content_in() {
    let fix = Fix { span: Span::new(4, 11), content: "vi.mocked(x)".to_string() };
    assert_eq!(fix.apply("a = ñandú;"), "a = vi.mocked(x);");
    let fix = Fix { span: Span::new(0, 0), content: "z".to_string() };
    assert_eq!(fix.apply("ab"), "zab");
}
