//! Tokens of the macro's input and of its output.
use crate::span::Location;
use vstd::prelude::*;

verus! {

/// A token of the macro's input, as far as a diagnostic reads it.
#[derive(Clone, Debug, PartialEq, Eq)]
pub struct SourceToken {
    /// The token as the source spells it.
    pub text: String,
    /// Where the token sits.
    pub span: Location,
}

/// What a [`SourceToken`] stands for in contracts.
pub struct SourceTokenView {
    pub text: Seq<char>,
    pub span: Location,
}

impl View for SourceToken {
    type V = SourceTokenView;

    open spec fn view(&self) -> SourceTokenView {
        SourceTokenView { text: self.text@, span: self.span }
    }
}

/// Whether a punctuation character is glued to the one that follows it.
#[derive(Clone, Copy, Debug, PartialEq, Eq, Structural)]
pub enum Spacing {
    /// Something other than punctuation follows, or nothing.
    Alone,
    /// The next token is punctuation too, and both form one operator.
    Joint,
}

/// The pair of brackets around a group.
#[derive(Clone, Copy, Debug, PartialEq, Eq, Structural)]
pub enum Delimiter {
    /// `( ... )`
    Parenthesis,
    /// `{ ... }`
    Brace,
    /// `[ ... ]`
    Bracket,
}

/// A token of the macro's output.
#[derive(Debug, PartialEq, Eq)]
pub enum Token {
    /// One character of punctuation.
    Punct { ch: char, spacing: Spacing, span: Location },
    /// An identifier.
    Ident { name: String, span: Location },
    /// A string literal. `value` is the text that the literal stands for, not
    /// its spelling with quotes and escapes.
    StringLiteral { value: String, span: Location },
    /// Tokens between a pair of brackets. `span` is the place of the brackets.
    Group { delimiter: Delimiter, stream: Vec<Token>, span: Location },
}

/// What a [`Token`] stands for in contracts.
pub enum TokenView {
    Punct { ch: char, spacing: Spacing, span: Location },
    Ident { name: Seq<char>, span: Location },
    StringLiteral { value: Seq<char>, span: Location },
    Group { delimiter: Delimiter, stream: Seq<TokenView>, span: Location },
}

/// The view of one token, groups followed down to their leaves.
pub open spec fn token_view(token: Token) -> TokenView
    decreases token,
{
    match token {
        Token::Punct { ch, spacing, span } => TokenView::Punct { ch, spacing, span },
        Token::Ident { name, span } => TokenView::Ident { name: name@, span },
        Token::StringLiteral { value, span } => TokenView::StringLiteral { value: value@, span },
        Token::Group { delimiter, stream, span } => TokenView::Group {
            delimiter,
            stream: Seq::new(
                stream@.len(),
                |i: int|
                    if 0 <= i < stream@.len() {
                        token_view(stream@[i])
                    } else {
                        arbitrary()
                    },
            ),
            span,
        },
    }
}

impl View for Token {
    type V = TokenView;

    open spec fn view(&self) -> TokenView {
        token_view(*self)
    }
}

/// The views of a run of tokens, in their order.
pub open spec fn stream_view(stream: Seq<Token>) -> Seq<TokenView> {
    Seq::new(stream.len(), |i: int| stream[i]@)
}

/// The view of a group is the view of what stands between its brackets.
pub proof fn group_view(delimiter: Delimiter, stream: Vec<Token>, span: Location)
    ensures
        (Token::Group { delimiter, stream, span })@ == (TokenView::Group {
            delimiter,
            stream: stream_view(stream@),
            span,
        }),
{
    let group = Token::Group { delimiter, stream, span };
    assert(token_view(group)->Group_stream =~= stream_view(stream@));
}

impl TokenView {
    /// Where the token sits.
    pub open spec fn span(self) -> Location {
        match self {
            TokenView::Punct { span, .. } => span,
            TokenView::Ident { span, .. } => span,
            TokenView::StringLiteral { span, .. } => span,
            TokenView::Group { span, .. } => span,
        }
    }

    /// The same token at another place. Of a group only the brackets move.
    pub open spec fn with_span(self, span: Location) -> TokenView {
        match self {
            TokenView::Punct { ch, spacing, .. } => TokenView::Punct { ch, spacing, span },
            TokenView::Ident { name, .. } => TokenView::Ident { name, span },
            TokenView::StringLiteral { value, .. } => TokenView::StringLiteral { value, span },
            TokenView::Group { delimiter, stream, .. } => TokenView::Group {
                delimiter,
                stream,
                span,
            },
        }
    }
}

impl Token {
    /// Moves the token to `span` and leaves what it says as it is.
    pub fn with_span(self, span: Location) -> (moved: Token)
        ensures
            moved@ == self@.with_span(span),
    {
        match self {
            Token::Punct { ch, spacing, .. } => Token::Punct { ch, spacing, span },
            Token::Ident { name, .. } => Token::Ident { name, span },
            Token::StringLiteral { value, .. } => Token::StringLiteral { value, span },
            Token::Group { delimiter, stream, .. } => {
                proof {
                    group_view(delimiter, stream, span);
                    group_view(delimiter, stream, self->Group_span);
                }
                Token::Group { delimiter, stream, span }
            },
        }
    }
}

} // verus!
