//! What a rule reports: a warning, and possibly a fix for it.
use vstd::prelude::*;

use vstd::string::StringSliceAdditionalSpecFns;
use vstd::utf8::{decode_utf8, encode_utf8};

use crate::context::{lemma_char_boundary_in_suffix, valid_span};
use crate::span::Span;

verus! {

/// A warning (the rules report nothing more severe) about a piece of source text.
#[derive(Debug)]
pub struct Diagnostic {
    pub message: String,
    pub help: String,
    /// The span that the warning points at.
    pub label: Span,
}

/// An edit that replaces the source text under `span` with `content`.
#[derive(Debug)]
pub struct Fix {
    pub span: Span,
    pub content: String,
}

/// A warning together with the fix that goes with it, when one can be offered.
#[derive(Debug)]
pub struct Report {
    pub diagnostic: Diagnostic,
    pub fix: Option<Fix>,
}

/// A fix, as text.
pub struct FixView {
    pub span: Span,
    pub content: Seq<char>,
}

/// A report, as text.
pub struct ReportView {
    pub message: Seq<char>,
    pub help: Seq<char>,
    pub label: Span,
    pub fix: Option<FixView>,
}

impl View for Fix {
    type V = FixView;

    open spec fn view(&self) -> FixView {
        FixView { span: self.span, content: self.content@ }
    }
}

impl View for Report {
    type V = ReportView;

    open spec fn view(&self) -> ReportView {
        ReportView {
            message: self.diagnostic.message@,
            help: self.diagnostic.help@,
            label: self.diagnostic.label,
            fix: match self.fix {
                Some(fix) => Some(fix@),
                None => None,
            },
        }
    }
}

/// The source text after the fix: the text before the fix's span, the fix's
/// content, and the text after the span.
pub open spec fn fixed_text(source: Seq<char>, fix: FixView) -> Seq<char> {
    let bytes = encode_utf8(source);
    decode_utf8(bytes.subrange(0, fix.span.start as int)) + fix.content + decode_utf8(
        bytes.subrange(fix.span.end as int, bytes.len() as int),
    )
}

impl Fix {
    /// Applies the fix to the source text.
    pub fn apply(&self, source: &str) -> (fixed: String)
        requires
            valid_span(source@, self.span),
        ensures
            fixed@ == fixed_text(source@, self@),
    {
        broadcast use vstd::utf8::encode_utf8_valid_utf8, vstd::utf8::encode_utf8_decode_utf8;

        let ghost bytes = encode_utf8(source@);
        let (prefix, rest) = source.split_at(self.span.start as usize);
        proof {
            lemma_char_boundary_in_suffix(bytes, self.span.start as int, self.span.end as int);
            assert(prefix.spec_bytes() =~= bytes.subrange(0, self.span.start as int));
            assert(rest.spec_bytes() =~= bytes.subrange(self.span.start as int, bytes.len() as int));
        }
        let (_, suffix) = rest.split_at((self.span.end - self.span.start) as usize);
        proof {
            assert(suffix.spec_bytes() =~= bytes.subrange(self.span.end as int, bytes.len() as int));
        }
        let mut fixed = String::from_str(prefix);
        fixed.append(self.content.as_str());
        fixed.append(suffix);
        fixed
    }
}

/// The view of an optional report.
pub open spec fn report_view(report: Option<Report>) -> Option<ReportView> {
    match report {
        Some(report) => Some(report@),
        None => None,
    }
}

} // verus!
