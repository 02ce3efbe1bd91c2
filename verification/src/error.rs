//! What can go wrong while the macro reads its input, and how it is reported.
use crate::span::Location;
use crate::syntax::{compile_error_call, compile_error_call_is_macro_call, is_macro_call};
use crate::token::{
    group_view, stream_view, Delimiter, SourceToken, SourceTokenView, Spacing, Token, TokenView,
};
use vstd::prelude::*;

verus! {

/// An error of the parser of format descriptions, as far as this layer reads
/// it: the text that the error displays.
#[derive(Clone, Debug, PartialEq, Eq)]
pub struct InvalidFormatDescription {
    /// The text that the error displays.
    pub message: String,
}

impl View for InvalidFormatDescription {
    type V = Seq<char>;

    open spec fn view(&self) -> Seq<char> {
        self.message@
    }
}

impl InvalidFormatDescription {
    /// The text that the error displays.
    pub fn to_string(&self) -> (text: String)
        ensures
            text@ == self@,
    {
        self.message.clone()
    }
}

/// Why the macro gave up on its input.
///
/// `span_start` and `span_end`, where a variant has them, are the ends of the
/// part of the input that the error is about, as far as whoever made the error
/// knew them.
#[derive(Clone, Debug, PartialEq, Eq)]
pub enum Error {
    /// The input lacks a component that it must have.
    MissingComponent { name: &'static str, span_start: Option<Location>, span_end: Option<Location> },
    /// The input has the component, with a value that it cannot have.
    InvalidComponent {
        name: &'static str,
        value: String,
        span_start: Option<Location>,
        span_end: Option<Location>,
    },
    /// A string literal was due, and something else came.
    ExpectedString,
    /// A token that nothing accounts for.
    UnexpectedToken { token: SourceToken },
    /// The input ended where more was due.
    UnexpectedEndOfInput,
    /// The format description in the input is not a valid one.
    InvalidFormatDescription {
        error: InvalidFormatDescription,
        span_start: Option<Location>,
        span_end: Option<Location>,
    },
    /// Anything else, in the words of whoever made the error.
    Custom { message: String, span_start: Option<Location>, span_end: Option<Location> },
}

/// What an [`Error`] stands for in contracts.
pub enum ErrorView {
    MissingComponent { name: Seq<char>, span_start: Option<Location>, span_end: Option<Location> },
    InvalidComponent {
        name: Seq<char>,
        value: Seq<char>,
        span_start: Option<Location>,
        span_end: Option<Location>,
    },
    ExpectedString,
    UnexpectedToken { token: SourceTokenView },
    UnexpectedEndOfInput,
    InvalidFormatDescription {
        error: Seq<char>,
        span_start: Option<Location>,
        span_end: Option<Location>,
    },
    Custom { message: Seq<char>, span_start: Option<Location>, span_end: Option<Location> },
}

impl View for Error {
    type V = ErrorView;

    open spec fn view(&self) -> ErrorView {
        match *self {
            Error::MissingComponent { name, span_start, span_end } => ErrorView::MissingComponent {
                name: name@,
                span_start,
                span_end,
            },
            Error::InvalidComponent {
                name,
                value,
                span_start,
                span_end,
            } => ErrorView::InvalidComponent { name: name@, value: value@, span_start, span_end },
            Error::ExpectedString => ErrorView::ExpectedString,
            Error::UnexpectedToken { token } => ErrorView::UnexpectedToken { token: token@ },
            Error::UnexpectedEndOfInput => ErrorView::UnexpectedEndOfInput,
            Error::InvalidFormatDescription {
                error,
                span_start,
                span_end,
            } => ErrorView::InvalidFormatDescription { error: error@, span_start, span_end },
            Error::Custom { message, span_start, span_end } => ErrorView::Custom {
                message: message@,
                span_start,
                span_end,
            },
        }
    }
}

impl ErrorView {
    /// The text that the error displays.
    pub open spec fn message(self) -> Seq<char> {
        match self {
            ErrorView::MissingComponent { name, .. } => "missing component: "@ + name,
            ErrorView::InvalidComponent { name, value, .. } => "invalid component: "@ + name
                + " was "@ + value,
            ErrorView::ExpectedString => "expected string"@,
            ErrorView::UnexpectedToken { token } => "unexpected token: "@ + token.text,
            ErrorView::UnexpectedEndOfInput => "unexpected end of input"@,
            ErrorView::InvalidFormatDescription { error, .. } => error,
            ErrorView::Custom { message, .. } => message,
        }
    }

    /// Where the error begins as its maker gave it, if the error has a place
    /// for that and the maker filled it.
    pub open spec fn start_hint(self) -> Option<Location> {
        match self {
            ErrorView::MissingComponent { span_start, .. } => span_start,
            ErrorView::InvalidComponent { span_start, .. } => span_start,
            ErrorView::InvalidFormatDescription { span_start, .. } => span_start,
            ErrorView::Custom { span_start, .. } => span_start,
            _ => None,
        }
    }

    /// Where the error ends as its maker gave it, if the error has a place for
    /// that and the maker filled it.
    pub open spec fn end_hint(self) -> Option<Location> {
        match self {
            ErrorView::MissingComponent { span_end, .. } => span_end,
            ErrorView::InvalidComponent { span_end, .. } => span_end,
            ErrorView::InvalidFormatDescription { span_end, .. } => span_end,
            ErrorView::Custom { span_end, .. } => span_end,
            _ => None,
        }
    }

    /// Where the diagnostic begins: at the token, for a token that nothing
    /// accounts for; else where the maker said; else at the macro invocation.
    pub open spec fn start(self) -> Location {
        match self {
            ErrorView::UnexpectedToken { token } => token.span,
            _ => Location::or_mixed_site(self.start_hint()),
        }
    }

    /// Where the diagnostic ends: at the token, for a token that nothing
    /// accounts for; else where the maker said; else where the diagnostic begins.
    pub open spec fn end(self) -> Location {
        match self {
            ErrorView::UnexpectedToken { token } => token.span,
            _ => match self.end_hint() {
                Some(location) => location,
                None => self.start(),
            },
        }
    }

    /// The tokens that report the error to the compiler.
    pub open spec fn diagnostic(self) -> Seq<TokenView> {
        compile_error_call(self.message(), self.start(), self.end())
    }
}

impl Error {
    /// The text that the error displays.
    pub fn to_string(&self) -> (text: String)
        ensures
            text@ == self@.message(),
    {
        match self {
            Self::MissingComponent { name, .. } => {
                let mut text = String::from_str("missing component: ");
                text.append(name);
                text
            },
            Self::InvalidComponent { name, value, .. } => {
                let mut text = String::from_str("invalid component: ");
                text.append(name);
                text.append(" was ");
                text.append(value.as_str());
                text
            },
            Self::ExpectedString => String::from_str("expected string"),
            Self::UnexpectedToken { token } => {
                let mut text = String::from_str("unexpected token: ");
                text.append(token.text.as_str());
                text
            },
            Self::UnexpectedEndOfInput => String::from_str("unexpected end of input"),
            Self::InvalidFormatDescription { error, .. } => error.to_string(),
            Self::Custom { message, .. } => message.clone(),
        }
    }

    /// Where the diagnostic begins.
    pub fn span_start(&self) -> (span: Location)
        ensures
            span == self@.start(),
    {
        let known = match self {
            Self::MissingComponent { span_start, .. }
            | Self::InvalidComponent { span_start, .. }
            | Self::InvalidFormatDescription { span_start, .. }
            | Self::Custom { span_start, .. } => *span_start,
            Self::UnexpectedToken { token } => Some(token.span),
            Self::ExpectedString | Self::UnexpectedEndOfInput => Some(Location::MixedSite),
        };
        match known {
            Some(span) => span,
            None => Location::MixedSite,
        }
    }

    /// Where the diagnostic ends.
    pub fn span_end(&self) -> (span: Location)
        ensures
            span == self@.end(),
    {
        let known = match self {
            Self::MissingComponent { span_end, .. }
            | Self::InvalidComponent { span_end, .. }
            | Self::InvalidFormatDescription { span_end, .. }
            | Self::Custom { span_end, .. } => *span_end,
            Self::UnexpectedToken { token } => Some(token.span),
            Self::ExpectedString | Self::UnexpectedEndOfInput => Some(Location::MixedSite),
        };
        match known {
            Some(span) => span,
            None => self.span_start(),
        }
    }

    /// The tokens that report the error to the compiler, in place of whatever
    /// the macro would have expanded to: `::core::compile_error!` called with
    /// the error's text. The path and the `!` sit where the diagnostic begins,
    /// the text and the parentheses around it where the diagnostic ends.
    pub fn to_compile_error(&self) -> (tokens: Vec<Token>)
        ensures
            stream_view(tokens@) == self@.diagnostic(),
            is_macro_call(stream_view(tokens@)),
    {
        let start = self.span_start();
        let end = self.span_end();
        let mut argument: Vec<Token> = Vec::new();
        argument.push(Token::StringLiteral { value: self.to_string(), span: end });
        let mut tokens: Vec<Token> = Vec::new();
        tokens.push(Token::Punct { ch: ':', spacing: Spacing::Joint, span: start });
        tokens.push(Token::Punct { ch: ':', spacing: Spacing::Alone, span: start });
        tokens.push(Token::Ident { name: String::from_str("core"), span: start });
        tokens.push(Token::Punct { ch: ':', spacing: Spacing::Joint, span: start });
        tokens.push(Token::Punct { ch: ':', spacing: Spacing::Alone, span: start });
        tokens.push(Token::Ident { name: String::from_str("compile_error"), span: start });
        tokens.push(Token::Punct { ch: '!', spacing: Spacing::Alone, span: start });
        proof {
            group_view(Delimiter::Parenthesis, argument, end);
            assert(stream_view(argument@) =~= seq![
                TokenView::StringLiteral { value: self@.message(), span: end },
            ]);
        }
        tokens.push(Token::Group { delimiter: Delimiter::Parenthesis, stream: argument, span: end });
        proof {
            assert(stream_view(tokens@) =~= self@.diagnostic());
            compile_error_call_is_macro_call(self@.message(), start, end);
        }
        tokens
    }
}

} // verus!
