use vstd::prelude::*;
use vstd::string::StringSliceAdditionalSpecFns;
use vstd::utf8::*;

use crate::span::Span;

verus! {

broadcast use vstd::utf8::encode_utf8_valid_utf8, vstd::utf8::encode_utf8_decode_utf8;

/// A span can be read from the text: it does not run backwards, and both of its
/// ends fall on character boundaries of the text's UTF-8 encoding (so neither
/// lies past the end).
pub open spec fn valid_span(text: Seq<char>, span: Span) -> bool {
    &&& span.start <= span.end
    &&& is_char_boundary(encode_utf8(text), span.start as int)
    &&& is_char_boundary(encode_utf8(text), span.end as int)
}

/// The characters of `text` that the byte range `span` covers.
pub open spec fn span_text(text: Seq<char>, span: Span) -> Seq<char> {
    decode_utf8(encode_utf8(text).subrange(span.start as int, span.end as int))
}

/// Cutting a valid UTF-8 byte sequence at a character boundary `i` leaves a valid
/// sequence whose character boundaries are those of the original past `i`.
pub(crate) proof fn lemma_char_boundary_in_suffix(bytes: Seq<u8>, i: int, j: int)
    requires
        valid_utf8(bytes),
        is_char_boundary(bytes, i),
        is_char_boundary(bytes, j),
        i <= j,
    ensures
        valid_utf8(bytes.subrange(i, bytes.len() as int)),
        is_char_boundary(bytes.subrange(i, bytes.len() as int), j - i),
    decreases bytes.len(),
{
    if i == 0 {
        assert(bytes.subrange(0, bytes.len() as int) =~= bytes);
    } else {
        let tail = pop_first_scalar(bytes);
        let width = length_of_first_scalar(bytes);
        assert(bytes.len() > 0);
        assert(valid_utf8(tail));
        assert(is_char_boundary(tail, i - width));
        assert(is_char_boundary(tail, j - width));
        lemma_char_boundary_in_suffix(tail, i - width, j - width);
        assert(tail.subrange(i - width, tail.len() as int) =~= bytes.subrange(
            i,
            bytes.len() as int,
        ));
    }
}

/// What a rule sees of the file being linted: its source text.
pub struct LintContext {
    pub source_text: String,
}

impl LintContext {
    pub fn new(source_text: String) -> (ctx: LintContext)
        ensures
            ctx.source_text@ == source_text@,
    {
        LintContext { source_text }
    }

    /// The part of the source text that `span` covers.
    pub fn source_range(&self, span: Span) -> (text: &str)
        requires
            valid_span(self.source_text@, span),
        ensures
            text@ == span_text(self.source_text@, span),
    {
        let source: &str = self.source_text.as_str();
        let ghost bytes = encode_utf8(self.source_text@);
        let (_, tail) = source.split_at(span.start as usize);
        proof {
            lemma_char_boundary_in_suffix(bytes, span.start as int, span.end as int);
            assert(tail.spec_bytes() =~= bytes.subrange(span.start as int, bytes.len() as int));
        }
        let (text, _) = tail.split_at((span.end - span.start) as usize);
        proof {
            assert(text.spec_bytes() =~= bytes.subrange(span.start as int, span.end as int));
        }
        text
    }
}

} // verus!
