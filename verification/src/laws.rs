//! Properties of the rules as a whole, proved over the specifications that the
//! rules' own contracts use.
use vstd::prelude::*;
use vstd::utf8::{decode_utf8, encode_utf8};

use crate::ast::{
    node_span, spec_outermost_paren_parent, AncestorKind, AstKind, AstNode, TSQualifiedName,
    TSType, TSTypeName,
};
use crate::context::span_text;
use crate::diagnostic::{fixed_text, FixView, ReportView};
use crate::prefer_jest_vi_mocked::{
    framework_name, is_mock_type_name, is_restricted_type_name,
    mocked_call, mocked_help, mocked_message, parent_is_as_expression, spec_can_fix, spec_check,
    spec_run, TestingFramework,
};
use crate::span::Span;
use crate::text::{
    ascii_case_insensitive_eq, ascii_case_insensitive_eq_is_symmetric,
    ascii_case_insensitive_eq_is_transitive,
};

verus! {

/// The type that the node asserts, if the node is an assertion.
pub open spec fn asserted_type(node: AstNode) -> Option<TSType> {
    match node.kind {
        AstKind::TSAsExpression(as_expr) => Some(as_expr.type_annotation),
        AstKind::TSTypeAssertion(assert_type) => Some(assert_type.type_annotation),
        AstKind::Other(_) => None,
    }
}

/// The name of the type that the node asserts, if the node is an assertion to a
/// type reference.
pub open spec fn asserted_type_name(node: AstNode) -> Option<TSTypeName> {
    match asserted_type(node) {
        Some(TSType::TSTypeReference(reference)) => Some(reference.name),
        _ => None,
    }
}

/// The span of the expression that the node asserts a type of, once parentheses
/// and TypeScript assertions are taken off.
pub open spec fn asserted_expression_span(node: AstNode) -> Span {
    match node.kind {
        AstKind::TSAsExpression(as_expr) => as_expr.inner_expression_span,
        AstKind::TSTypeAssertion(assert_type) => assert_type.inner_expression_span,
        AstKind::Other(span) => span,
    }
}

/// In a chain `x as A as B`, an `as` expression whose parent is an `as` expression
/// is never reported, by either rule.
pub proof fn law_inner_as_expression_is_not_reported(
    framework: TestingFramework,
    node: AstNode,
    source: Seq<char>,
)
    requires
        node.kind is TSAsExpression,
        parent_is_as_expression(node),
    ensures
        spec_run(framework, node, source) is None,
{
}

/// Only type assertions are reported, and only assertions to a type reference.
pub proof fn law_only_assertions_to_type_references_are_reported(
    framework: TestingFramework,
    node: AstNode,
    source: Seq<char>,
)
    requires
        spec_run(framework, node, source) is Some,
    ensures
        asserted_type_name(node) is Some,
{
}

/// The Jest rule reports an assertion to a type name exactly when the name is one
/// of the mock types, or is a mock type qualified by a plain name that is `jest`
/// in any ASCII case.
pub proof fn law_jest_reports_mock_types_plain_or_qualified_by_jest(
    node: AstNode,
    name: TSTypeName,
    arg_span: Span,
    span: Span,
    source: Seq<char>,
)
    ensures
        (spec_check(node, name, arg_span, span, TestingFramework::Jest, source) is Some) == ({
            ||| name matches TSTypeName::IdentifierReference(ident) && is_mock_type_name(ident@)
            ||| name matches TSTypeName::QualifiedName(qualified)
                && qualified.left matches TSTypeName::IdentifierReference(left)
                && ascii_case_insensitive_eq(left@, "jest"@) && is_mock_type_name(
                qualified.right@,
            )
        }),
{
}

/// The Vitest rule reports an assertion to a type name exactly when the name is
/// one of the mock types, or is a mock type qualified by the plain name `vi`
/// (`vi.Mock`); `Mock.vi`, `MockType` and `jest.Mock` are left alone.
pub proof fn law_vitest_reports_mock_types_plain_or_qualified_by_vi(
    node: AstNode,
    name: TSTypeName,
    arg_span: Span,
    span: Span,
    source: Seq<char>,
)
    ensures
        (spec_check(node, name, arg_span, span, TestingFramework::Vitest, source) is Some) == ({
            ||| name matches TSTypeName::IdentifierReference(ident) && is_mock_type_name(ident@)
            ||| name matches TSTypeName::QualifiedName(qualified)
                && qualified.left matches TSTypeName::IdentifierReference(left) && left@
                == "vi"@ && is_mock_type_name(qualified.right@)
        }),
{
}

/// A qualified name whose qualifier is not a plain name (`a.jest.Mock`,
/// `this.Mock`), and the name `this`, are never reported.
pub proof fn law_qualifier_must_be_a_plain_name(
    framework: TestingFramework,
    node: AstNode,
    name: TSTypeName,
    arg_span: Span,
    span: Span,
    source: Seq<char>,
)
    requires
        name is ThisExpression || (name matches TSTypeName::QualifiedName(qualified)
            && !(qualified.left is IdentifierReference)),
    ensures
        spec_check(node, name, arg_span, span, framework, source) is None,
{
}

/// Neither rule reports a mock type qualified by the other framework's name: the
/// Vitest rule leaves `jest.Mock` alone, the Jest rule leaves `vi.Mock` alone.
pub proof fn law_other_framework_qualifier_is_not_reported(
    framework: TestingFramework,
    other: TestingFramework,
    node: AstNode,
    source: Seq<char>,
)
    requires
        framework != other,
        asserted_type_name(node) matches Some(TSTypeName::QualifiedName(qualified))
            && qualified.left matches TSTypeName::IdentifierReference(left) && left@
            == framework_name(other),
    ensures
        spec_run(framework, node, source) is None,
{
    reveal_strlit("jest");
    reveal_strlit("vi");
}

/// An assertion to `this` is never reported.
pub proof fn law_this_type_is_not_reported(
    framework: TestingFramework,
    node: AstNode,
    source: Seq<char>,
)
    requires
        asserted_type_name(node) == Some(TSTypeName::ThisExpression),
    ensures
        spec_run(framework, node, source) is None,
{
}

/// On an assertion to a plain type name the two rules agree: one reports it if and
/// only if the other does, at the same span, with a fix in the same cases, and
/// with messages that differ only in the framework's name.
pub proof fn law_rules_agree_on_plain_names(node: AstNode, source: Seq<char>)
    requires
        asserted_type_name(node) matches Some(TSTypeName::IdentifierReference(_)),
    ensures
        (spec_run(TestingFramework::Jest, node, source) is Some) == (spec_run(
            TestingFramework::Vitest,
            node,
            source,
        ) is Some),
        spec_run(TestingFramework::Jest, node, source) matches Some(jest) ==> {
            &&& spec_run(TestingFramework::Vitest, node, source) matches Some(vi)
            &&& jest.label == vi.label
            &&& (jest.fix is Some) == (vi.fix is Some)
            &&& jest.message == mocked_message(
                TestingFramework::Jest,
                span_text(source, asserted_expression_span(node)),
                span_text(source, node_span(node)),
            )
            &&& vi.message == mocked_message(
                TestingFramework::Vitest,
                span_text(source, asserted_expression_span(node)),
                span_text(source, node_span(node)),
            )
        },
{
}

/// The Jest rule compares the `jest` qualifier without regard to ASCII case: two
/// qualified names whose qualifiers match up to case are reported alike.
pub proof fn law_jest_qualifier_ignores_ascii_case(left1: String, left2: String, right: String)
    requires
        ascii_case_insensitive_eq(left1@, left2@),
    ensures
        is_restricted_type_name(
            TSTypeName::QualifiedName(
                Box::new(TSQualifiedName { left: TSTypeName::IdentifierReference(left1), right }),
            ),
            TestingFramework::Jest,
        ) == is_restricted_type_name(
            TSTypeName::QualifiedName(
                Box::new(TSQualifiedName { left: TSTypeName::IdentifierReference(left2), right }),
            ),
            TestingFramework::Jest,
        ),
{
    ascii_case_insensitive_eq_is_symmetric(left1@, left2@);
    if ascii_case_insensitive_eq(left1@, "jest"@) {
        ascii_case_insensitive_eq_is_transitive(left2@, left1@, "jest"@);
    }
    if ascii_case_insensitive_eq(left2@, "jest"@) {
        ascii_case_insensitive_eq_is_transitive(left1@, left2@, "jest"@);
    }
}

/// What a report says: the message quotes the `mocked()` call on the asserted
/// expression and the text of the assertion, the help names the helper, the
/// warning points at the assertion, and a fix replacing the assertion with the
/// call comes with it exactly when a fix may be offered.
pub proof fn law_report_contents(
    framework: TestingFramework,
    node: AstNode,
    name: TSTypeName,
    arg_span: Span,
    span: Span,
    source: Seq<char>,
)
    requires
        spec_check(node, name, arg_span, span, framework, source) is Some,
    ensures
        ({
            let report = spec_check(node, name, arg_span, span, framework, source).unwrap();
            &&& report.message == mocked_message(
                framework,
                span_text(source, arg_span),
                span_text(source, span),
            )
            &&& report.help == mocked_help(framework)
            &&& report.label == span
            &&& report.fix == if spec_can_fix(node) {
                Some(FixView { span, content: mocked_call(framework, span_text(source, arg_span)) })
            } else {
                None
            }
        }),
{
}

/// A rule's report covers exactly the node it was run on: the warning points at
/// the node's span, and the fix, if any, replaces that span.
pub proof fn law_report_covers_the_node(
    framework: TestingFramework,
    node: AstNode,
    source: Seq<char>,
)
    requires
        spec_run(framework, node, source) is Some,
    ensures
        spec_run(framework, node, source).unwrap().label == node_span(node),
        spec_run(framework, node, source).unwrap().fix matches Some(fix) ==> fix.span == node_span(
            node,
        ),
{
}

/// Applying a rule's fix changes only the text of the assertion, which becomes the
/// `mocked()` call on the asserted expression; the text before and after it, outer
/// parentheses included, stays.
pub proof fn law_fix_replaces_only_the_assertion(
    framework: TestingFramework,
    node: AstNode,
    source: Seq<char>,
)
    requires
        spec_run(framework, node, source) matches Some(report) && report.fix is Some,
    ensures
        ({
            let bytes = encode_utf8(source);
            let span = node_span(node);
            fixed_text(source, spec_run(framework, node, source).unwrap().fix.unwrap())
                == decode_utf8(bytes.subrange(0, span.start as int)) + mocked_call(
                framework,
                span_text(source, asserted_expression_span(node)),
            ) + decode_utf8(bytes.subrange(span.end as int, bytes.len() as int))
        }),
{
}

/// A fix is offered exactly when the nearest ancestor that is not a parenthesis
/// exists, is not an assignment whose target is the node, and is not an
/// identifier reference, a computed member expression or a private field
/// expression.
pub proof fn law_when_a_fix_is_offered(node: AstNode)
    ensures
        spec_can_fix(node) == ({
            let parent = spec_outermost_paren_parent(node.ancestors@);
            &&& parent is Some
            &&& !(parent matches Some(AncestorKind::AssignmentExpression { left }) && left
                == node_span(node))
            &&& !(parent == Some(AncestorKind::IdentifierReference))
            &&& !(parent == Some(AncestorKind::ComputedMemberExpression))
            &&& !(parent == Some(AncestorKind::PrivateFieldExpression))
        }),
{
}

/// Under a member access, a declaration, a statement or an `as` expression (all
/// ancestors other than those listed in [`law_when_a_fix_is_offered`]) the fix is
/// offered.
pub proof fn law_other_parents_allow_the_fix(node: AstNode)
    requires
        spec_outermost_paren_parent(node.ancestors@) == Some(AncestorKind::Other)
            || spec_outermost_paren_parent(node.ancestors@) == Some(AncestorKind::TSAsExpression),
    ensures
        spec_can_fix(node),
{
}

/// An assertion that is the target of an assignment (`(foo as jest.Mock) = f`) is
/// reported without a fix: replacing it by a call would leave an invalid target.
/// An assignment to something else does not stop the fix.
pub proof fn law_assignment_target_is_not_fixed(
    framework: TestingFramework,
    node: AstNode,
    left: Span,
    source: Seq<char>,
)
    requires
        spec_outermost_paren_parent(node.ancestors@) == Some(
            AncestorKind::AssignmentExpression { left },
        ),
    ensures
        spec_can_fix(node) == (left != node_span(node)),
        left == node_span(node) ==> (spec_run(framework, node, source) matches Some(report)
            ==> report.fix is None),
{
}

/// Whether a fix can be offered does not change whether the assertion is reported,
/// nor the warning: two nodes that differ only in their ancestors get the same
/// warning, or none.
pub proof fn law_warning_does_not_depend_on_fixability(
    framework: TestingFramework,
    node1: AstNode,
    node2: AstNode,
    name: TSTypeName,
    arg_span: Span,
    span: Span,
    source: Seq<char>,
)
    ensures
        (spec_check(node1, name, arg_span, span, framework, source) is Some) == (spec_check(
            node2,
            name,
            arg_span,
            span,
            framework,
            source,
        ) is Some),
        spec_check(node1, name, arg_span, span, framework, source) matches Some(r1) ==> {
            &&& spec_check(node2, name, arg_span, span, framework, source) matches Some(r2)
            &&& r1.message == r2.message
            &&& r1.help == r2.help
            &&& r1.label == r2.label
        },
{
}

/// `x as T` and `<T>x` are reported alike: an `as` expression whose parent is not
/// an `as` expression gets the same report as a `<T>x` assertion with the same
/// type, spans and ancestors.
pub proof fn law_as_expression_and_angle_assertion_agree(
    framework: TestingFramework,
    as_node: AstNode,
    angle_node: AstNode,
    source: Seq<char>,
)
    requires
        as_node.kind matches AstKind::TSAsExpression(a) && angle_node.kind matches AstKind::TSTypeAssertion(b)
            && a.span == b.span && a.inner_expression_span == b.inner_expression_span
            && a.type_annotation == b.type_annotation,
        as_node.ancestors@ == angle_node.ancestors@,
        !parent_is_as_expression(as_node),
    ensures
        spec_run(framework, as_node, source) == spec_run(framework, angle_node, source),
{
}


/// The four type names that the rules restrict, written out: `Mock`,
/// `MockedFunction`, `MockedClass` and `MockedObject`, and nothing else.
pub open spec fn is_one_of_the_four_mock_types(name: Seq<char>) -> bool {
    ||| name == "Mock"@
    ||| name == "MockedFunction"@
    ||| name == "MockedClass"@
    ||| name == "MockedObject"@
}

/// `jest` with each letter in either case.
pub open spec fn spells_jest_in_any_case(name: Seq<char>) -> bool {
    &&& name.len() == 4
    &&& (name[0] == 'j' || name[0] == 'J')
    &&& (name[1] == 'e' || name[1] == 'E')
    &&& (name[2] == 's' || name[2] == 'S')
    &&& (name[3] == 't' || name[3] == 'T')
}

/// Folding a character to ASCII lower case gives the code of a given lower-case
/// letter exactly for that letter and its upper-case form.
proof fn lemma_folds_to_letter(c: char, lower: char, upper: char)
    requires
        'a' <= lower <= 'z',
        upper as u32 + 32 == lower as u32,
    ensures
        (crate::text::ascii_folded(c) == crate::text::ascii_folded(lower)) == (c == lower || c
            == upper),
{
    assert(crate::text::ascii_folded(lower) == lower as u32);
    if crate::text::ascii_folded(c) == lower as u32 {
        if 'A' <= c && c <= 'Z' {
            assert(c as u32 == upper as u32);
        } else {
            assert(c as u32 == lower as u32);
        }
    }
}

/// Matching `jest` up to ASCII case is spelling `jest` with each letter in either case.
proof fn lemma_jest_qualifier(name: Seq<char>)
    ensures
        ascii_case_insensitive_eq(name, "jest"@) == spells_jest_in_any_case(name),
{
    reveal_strlit("jest");
    let jest = "jest"@;
    assert(jest[0] == 'j' && jest[1] == 'e' && jest[2] == 's' && jest[3] == 't');
    lemma_folds_to_letter(name[0], 'j', 'J');
    lemma_folds_to_letter(name[1], 'e', 'E');
    lemma_folds_to_letter(name[2], 's', 'S');
    lemma_folds_to_letter(name[3], 't', 'T');
    if name.len() == 4 {
        if spells_jest_in_any_case(name) {
            assert forall|i: int| 0 <= i < name.len() implies #[trigger] crate::text::ascii_folded(
                name[i],
            ) == crate::text::ascii_folded(jest[i]) by {
                if i == 0 {
                } else if i == 1 {
                } else if i == 2 {
                } else {
                }
            }
        }
        if ascii_case_insensitive_eq(name, jest) {
            assert(crate::text::ascii_folded(name[0]) == crate::text::ascii_folded(jest[0]));
            assert(crate::text::ascii_folded(name[1]) == crate::text::ascii_folded(jest[1]));
            assert(crate::text::ascii_folded(name[2]) == crate::text::ascii_folded(jest[2]));
            assert(crate::text::ascii_folded(name[3]) == crate::text::ascii_folded(jest[3]));
        }
    }
}

/// Exactly which nodes a rule reports, over every node and every list of
/// ancestors: a `<T>x` assertion, or an `x as T` expression whose first ancestor
/// (its parent) is not an `as` expression, whatever its farther ancestors are; and
/// only when `T` is a reference to one of the four names `Mock`, `MockedFunction`,
/// `MockedClass`, `MockedObject`, written plain or after a qualifier that is a
/// plain name: `jest` in any letter case for Jest, exactly `vi` for Vitest.
pub proof fn law_which_nodes_are_reported(
    framework: TestingFramework,
    node: AstNode,
    source: Seq<char>,
)
    ensures
        (spec_run(framework, node, source) is Some) == ({
            let checked = match node.kind {
                AstKind::TSAsExpression(_) => !(node.ancestors@.len() > 0 && node.ancestors@[0]
                    == AncestorKind::TSAsExpression),
                AstKind::TSTypeAssertion(_) => true,
                AstKind::Other(_) => false,
            };
            let annotation = match node.kind {
                AstKind::TSAsExpression(as_expr) => as_expr.type_annotation,
                AstKind::TSTypeAssertion(assert_type) => assert_type.type_annotation,
                AstKind::Other(_) => TSType::Other,
            };
            &&& checked
            &&& annotation matches TSType::TSTypeReference(reference)
            &&& match reference.name {
                TSTypeName::IdentifierReference(ident) => is_one_of_the_four_mock_types(ident@),
                TSTypeName::QualifiedName(qualified) => {
                    &&& qualified.left matches TSTypeName::IdentifierReference(left)
                    &&& match framework {
                        TestingFramework::Jest => spells_jest_in_any_case(left@),
                        TestingFramework::Vitest => left@ == "vi"@,
                    }
                    &&& is_one_of_the_four_mock_types(qualified.right@)
                },
                TSTypeName::ThisExpression => false,
            }
        }),
{
    let annotation = match node.kind {
        AstKind::TSAsExpression(as_expr) => as_expr.type_annotation,
        AstKind::TSTypeAssertion(assert_type) => assert_type.type_annotation,
        AstKind::Other(_) => TSType::Other,
    };
    if let TSType::TSTypeReference(reference) = annotation {
        if let TSTypeName::QualifiedName(qualified) = reference.name {
            if let TSTypeName::IdentifierReference(left) = qualified.left {
                lemma_jest_qualifier(left@);
            }
        }
    }
}

/// The report's texts, written out: the fix replaces the node's span with
/// `jest.mocked(` (or `vi.mocked(`), the source text under the asserted
/// expression's span, and `)`; the message is ``Prefer `<that call>` over
/// `<the node's text>`.`` and the help ``Prefer `jest.mocked()` `` (or `vi`).
pub proof fn law_report_texts(framework: TestingFramework, node: AstNode, source: Seq<char>)
    requires
        spec_run(framework, node, source) is Some,
    ensures
        ({
            let report = spec_run(framework, node, source).unwrap();
            let name = match framework {
                TestingFramework::Jest => "jest"@,
                TestingFramework::Vitest => "vi"@,
            };
            let (span, inner) = match node.kind {
                AstKind::TSAsExpression(e) => (e.span, e.inner_expression_span),
                AstKind::TSTypeAssertion(e) => (e.span, e.inner_expression_span),
                AstKind::Other(span) => (span, span),
            };
            let call = name + ".mocked("@ + span_text(source, inner) + ")"@;
            &&& report.label == span
            &&& report.message == "Prefer `"@ + call + "` over `"@ + span_text(source, span)
                + "`."@
            &&& report.help == "Prefer `"@ + name + ".mocked()`"@
            &&& report.fix matches Some(fix) ==> fix.span == span && fix.content == call
        }),
{
}

/// The nearest ancestor that is not a parenthesis, over ancestor lists of any
/// length: if `ancestors[k]` is not a parenthesized expression and every ancestor
/// before it is, the result is `ancestors[k]`; if every ancestor is a
/// parenthesized expression, there is none.
pub proof fn law_outermost_paren_parent_is_first_non_paren(ancestors: Seq<AncestorKind>, k: int)
    requires
        0 <= k <= ancestors.len(),
        forall|j: int| 0 <= j < k ==> #[trigger] ancestors[j] is ParenthesizedExpression,
        k < ancestors.len() ==> !(ancestors[k] is ParenthesizedExpression),
    ensures
        spec_outermost_paren_parent(ancestors) == if k < ancestors.len() {
            Some(ancestors[k])
        } else {
            None::<AncestorKind>
        },
    decreases k,
{
    if k > 0 {
        assert(ancestors[0] is ParenthesizedExpression);
        let rest = ancestors.drop_first();
        assert forall|j: int| 0 <= j < k - 1 implies #[trigger] rest[j] is ParenthesizedExpression by {
            assert(rest[j] == ancestors[j + 1]);
        }
        law_outermost_paren_parent_is_first_non_paren(rest, k - 1);
    }
}

/// The kind given as a node's parent is the first of its ancestors, and there is
/// none when it has no ancestors.
pub proof fn law_parent_is_first_ancestor(node: AstNode)
    ensures
        crate::ast::spec_parent_kind(node) == if node.ancestors@.len() == 0 {
            None::<AncestorKind>
        } else {
            Some(node.ancestors@[0])
        },
{
}

/// Whether a reported node gets a fix depends only on its first ancestor that is
/// not a parenthesis, `ancestors[k]`, however long the list: the fix is given
/// unless that ancestor is an assignment whose target is the node, an identifier
/// reference, a computed member expression or a private field expression; and no
/// fix is given when every ancestor is a parenthesis.
pub proof fn law_fix_given_by_first_non_paren_ancestor(
    framework: TestingFramework,
    node: AstNode,
    source: Seq<char>,
    k: int,
)
    requires
        spec_run(framework, node, source) is Some,
        0 <= k <= node.ancestors@.len(),
        forall|j: int| 0 <= j < k ==> #[trigger] node.ancestors@[j] is ParenthesizedExpression,
        k < node.ancestors@.len() ==> !(node.ancestors@[k] is ParenthesizedExpression),
    ensures
        (spec_run(framework, node, source).unwrap().fix is Some) == ({
            let span = match node.kind {
                AstKind::TSAsExpression(e) => e.span,
                AstKind::TSTypeAssertion(e) => e.span,
                AstKind::Other(span) => span,
            };
            &&& k < node.ancestors@.len()
            &&& node.ancestors@[k] != AncestorKind::AssignmentExpression { left: span }
            &&& node.ancestors@[k] != AncestorKind::IdentifierReference
            &&& node.ancestors@[k] != AncestorKind::ComputedMemberExpression
            &&& node.ancestors@[k] != AncestorKind::PrivateFieldExpression
        }),
{
    law_outermost_paren_parent_is_first_non_paren(node.ancestors@, k);
}

} // verus!
