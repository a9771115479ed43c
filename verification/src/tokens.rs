//! Token streams: the failure marker and the emitter.
//!
//! The streams are `proc_macro2`'s. What a stream holds is modelled as a
//! sequence of [`Token`]s, each with the span that it carries.

use vstd::prelude::*;
use proc_macro2::{Span, TokenStream};
use crate::error::ClassifiedError;

verus! {

/// `proc_macro2::TokenStream`, a sequence of token trees.
#[verifier::external_type_specification]
#[verifier::external_body]
pub struct ExTokenStream(proc_macro2::TokenStream);

/// `proc_macro2::Span`, a region of source code.
#[verifier::external_type_specification]
#[verifier::external_body]
pub struct ExSpan(proc_macro2::Span);

/// The brackets around a group of tokens.
#[derive(Clone, Copy, Debug, PartialEq, Eq, Structural)]
pub enum Delimiter {
    /// `( ... )`
    Parenthesis,
    /// `{ ... }`
    Brace,
    /// `[ ... ]`
    Bracket,
    /// No visible brackets.
    Invisible,
}

/// Model of one token tree.
pub enum Token {
    /// An identifier, by its name.
    Ident { name: Seq<char>, span: Span },
    /// A punctuation character; `joint` where the next token follows it
    /// immediately to form one operator with it.
    Punct { ch: char, joint: bool, span: Span },
    /// A string literal, by the text that it denotes.
    Str { text: Seq<char>, span: Span },
    /// Any other literal, as written.
    Literal { text: Seq<char>, span: Span },
    /// A bracketed stream of tokens.
    Group { delimiter: Delimiter, stream: Seq<Token>, span: Span },
}

/// The token trees that a stream holds, in order.
pub uninterp spec fn stream_tokens(stream: TokenStream) -> Seq<Token>;

/// Whether `c` is an ASCII letter.
pub open spec fn is_letter(c: char) -> bool {
    ('a' <= c && c <= 'z') || ('A' <= c && c <= 'Z')
}

/// Whether `c` is an ASCII letter, an ASCII digit or an underscore.
pub open spec fn is_word_char(c: char) -> bool {
    is_letter(c) || ('0' <= c && c <= '9') || c == '_'
}

/// Whether `name` is an ASCII letter followed by ASCII letters, digits and
/// underscores. Every such name is an identifier or a keyword.
pub open spec fn is_plain_identifier(name: Seq<char>) -> bool {
    &&& name.len() > 0
    &&& is_letter(name[0])
    &&& forall|i: int| 0 < i < name.len() ==> is_word_char(#[trigger] name[i])
}

/// Whether `c` is one of the characters that a punctuation token can hold.
pub open spec fn is_punctuation(c: char) -> bool {
    c == '!' || c == '#' || c == '$' || c == '%' || c == '&' || c == '\'' || c == '*' || c == '+'
        || c == ',' || c == '-' || c == '.' || c == '/' || c == ':' || c == ';' || c == '<'
        || c == '=' || c == '>' || c == '?' || c == '@' || c == '^' || c == '|' || c == '~'
}

/// `proc_macro2::Ident::new`, as a stream of its own. The stream holds one
/// identifier, named `name` and with the span `span`. The outside function
/// panics on a `name` that is no identifier or keyword; plain identifiers are
/// accepted.
#[verifier::external_body]
fn ident_stream(name: &str, span: Span) -> (stream: TokenStream)
    requires
        is_plain_identifier(name@),
    ensures
        stream_tokens(stream) == seq![Token::Ident { name: name@, span }],
{
    TokenStream::from(proc_macro2::TokenTree::Ident(proc_macro2::Ident::new(name, span)))
}

/// `proc_macro2::Punct::new` and `Punct::set_span`, as a stream of its own.
/// The stream holds one punctuation token with the character `ch`, joint or
/// alone as asked, and with the span `span`. The outside function panics on a
/// character that is not punctuation.
#[verifier::external_body]
fn punct_stream(ch: char, joint: bool, span: Span) -> (stream: TokenStream)
    requires
        is_punctuation(ch),
    ensures
        stream_tokens(stream) == seq![Token::Punct { ch, joint, span }],
{
    let spacing = if joint {
        proc_macro2::Spacing::Joint
    } else {
        proc_macro2::Spacing::Alone
    };
    let mut punct = proc_macro2::Punct::new(ch, spacing);
    punct.set_span(span);
    TokenStream::from(proc_macro2::TokenTree::Punct(punct))
}

/// `proc_macro2::Literal::string` and `Literal::set_span`, as a stream of its
/// own. The stream holds one string literal, which denotes `text` and has
/// the span `span`.
#[verifier::external_body]
fn string_literal_stream(text: &str, span: Span) -> (stream: TokenStream)
    ensures
        stream_tokens(stream) == seq![Token::Str { text: text@, span }],
{
    let mut literal = proc_macro2::Literal::string(text);
    literal.set_span(span);
    TokenStream::from(proc_macro2::TokenTree::Literal(literal))
}

/// `proc_macro2::Group::new` and `Group::set_span`, as a stream of its own.
/// The stream holds one group, with the given brackets around the tokens of
/// `inner` and with the span `span`.
#[verifier::external_body]
fn group_stream(delimiter: Delimiter, inner: TokenStream, span: Span) -> (stream: TokenStream)
    ensures
        stream_tokens(stream) == seq![
            Token::Group { delimiter, stream: stream_tokens(inner), span },
        ],
{
    let delimiter = match delimiter {
        Delimiter::Parenthesis => proc_macro2::Delimiter::Parenthesis,
        Delimiter::Brace => proc_macro2::Delimiter::Brace,
        Delimiter::Bracket => proc_macro2::Delimiter::Bracket,
        Delimiter::Invisible => proc_macro2::Delimiter::None,
    };
    let mut group = proc_macro2::Group::new(delimiter, inner);
    group.set_span(span);
    TokenStream::from(proc_macro2::TokenTree::Group(group))
}

/// `TokenStream`'s `FromIterator<TokenStream>`, on two streams. The result
/// holds the tokens of `first` followed by those of `second`.
#[verifier::external_body]
fn concat_streams(first: TokenStream, second: TokenStream) -> (stream: TokenStream)
    ensures
        stream_tokens(stream) == stream_tokens(first) + stream_tokens(second),
{
    [first, second].into_iter().collect()
}

/// The tokens of the failure marker for `message` at `span`: the call
/// `compile_error! { "message" }`, which fails the build with that message
/// where it is compiled, every token of it with that span.
pub open spec fn failure_marker(message: Seq<char>, span: Span) -> Seq<Token> {
    seq![
        Token::Ident { name: "compile_error"@, span },
        Token::Punct { ch: '!', joint: false, span },
        Token::Group {
            delimiter: Delimiter::Brace,
            stream: seq![Token::Str { text: message, span }],
            span,
        },
    ]
}

/// Builds the failure marker for `message`, every token of it with the span
/// `span`, so that the failure is reported there.
///
/// `proc_macro2` makes its values either with the compiler's implementation
/// or with its own, and panics where a span of the one meets a token of the
/// other. That takes a caller who switches between the two, with
/// `proc_macro2::fallback::force` or `unforce`, after `span` was made and
/// before this call. Nothing in the arguments tells the two kinds apart, so
/// no `requires` rules it out.
pub fn to_compile_error(message: String, span: Span) -> (marker: TokenStream)
    ensures
        stream_tokens(marker) == failure_marker(message@, span),
{
    proof {
        reveal_strlit("compile_error");
    }
    let name = ident_stream("compile_error", span);
    let bang = punct_stream('!', false, span);
    let literal = string_literal_stream(message.as_str(), span);
    let group = group_stream(Delimiter::Brace, literal, span);
    let marker = concat_streams(concat_streams(name, bang), group);
    assert(stream_tokens(marker) =~= failure_marker(message@, span));
    marker
}

/// A failed validation, as it is reported: the error and the span of the
/// construct that its location names.
pub struct Failure {
    pub error: ClassifiedError,
    pub span: Span,
}

/// Reports a failure: the failure marker for the error's message, at the
/// failure's span.
///
/// As [`to_compile_error`], this panics where the failure's span was made
/// with the other of `proc_macro2`'s two implementations than the one in use
/// at the call.
pub fn report(failure: Failure) -> (marker: TokenStream)
    ensures
        stream_tokens(marker) == failure_marker(
            failure.error.violation.spec_message(),
            failure.span,
        ),
{
    to_compile_error(failure.error.message(), failure.span)
}

/// What is emitted after a mirror was built or refused.
pub open spec fn emitted(original: TokenStream, outcome: Result<TokenStream, Failure>) -> Seq<
    Token,
> {
    match outcome {
        Ok(mirror) => stream_tokens(original) + stream_tokens(mirror),
        Err(failure) => failure_marker(failure.error.violation.spec_message(), failure.span),
    }
}

/// What stands in place of the record when all is done. After a successful
/// mirroring that is the original record, unchanged, followed by its mirror;
/// after a failure it is the failure marker alone.
///
/// `proc_macro2` panics where one of the two streams, or the failure's span,
/// was made with the other of its two implementations than the one in use at
/// the call: see [`to_compile_error`]. A caller who never switches between
/// them, with `proc_macro2::fallback::force` or `unforce`, cannot meet this.
pub fn emit(original: TokenStream, outcome: Result<TokenStream, Failure>) -> (output: TokenStream)
    ensures
        stream_tokens(output) == emitted(original, outcome),
{
    match outcome {
        Ok(mirror) => concat_streams(original, mirror),
        Err(failure) => report(failure),
    }
}

} // verus!
