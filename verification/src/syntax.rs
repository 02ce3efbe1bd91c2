//! The shape of the tokens that stand for a diagnostic.
//!
//! The compiler reports an error of a macro's making where the macro's output
//! is a call of `::core::compile_error!`. [`compile_error_call`] is that call,
//! token by token, and [`is_macro_call`] says what makes a run of tokens a call
//! of a macro that is named from the root: nothing before it, nothing after
//! it, and no name that depends on what the surrounding code has in scope.
use crate::span::Location;
use crate::token::{Delimiter, Spacing, TokenView};
use vstd::prelude::*;

verus! {

/// `c` can begin an identifier: an ASCII letter or an underscore.
pub open spec fn is_identifier_start(c: char) -> bool {
    ||| c == '_'
    ||| 'a' <= c <= 'z'
    ||| 'A' <= c <= 'Z'
}

/// `c` can stand in an identifier: an ASCII letter, an ASCII digit or an underscore.
pub open spec fn is_identifier_continue(c: char) -> bool {
    ||| is_identifier_start(c)
    ||| '0' <= c <= '9'
}

/// `name` is spelled as an identifier in ASCII: it begins with a letter or an
/// underscore, goes on in letters, digits and underscores, and is not the
/// single underscore.
pub open spec fn is_identifier(name: Seq<char>) -> bool {
    &&& name.len() > 0
    &&& is_identifier_start(name[0])
    &&& forall|i: int| 0 <= i < name.len() ==> is_identifier_continue(#[trigger] name[i])
    &&& !(name.len() == 1 && name[0] == '_')
}

/// `first` and `second` are the two colons of a `::`.
pub open spec fn is_path_separator(first: TokenView, second: TokenView) -> bool {
    &&& first matches TokenView::Punct { ch, spacing, .. }
    &&& ch == ':'
    &&& spacing == Spacing::Joint
    &&& second matches TokenView::Punct { ch, spacing, .. }
    &&& ch == ':'
    &&& spacing == Spacing::Alone
}

/// The three tokens of `tokens` from `3 * k` on are a `::` and an identifier.
pub open spec fn is_path_segment(tokens: Seq<TokenView>, k: int) -> bool {
    &&& is_path_separator(tokens[3 * k], tokens[3 * k + 1])
    &&& tokens[3 * k + 2] matches TokenView::Ident { name, .. }
    &&& is_identifier(name)
}

/// `tokens` is a path from the root: one segment or more, each a `::` and an
/// identifier.
pub open spec fn is_absolute_path(tokens: Seq<TokenView>) -> bool {
    &&& tokens.len() > 0
    &&& tokens.len() % 3 == 0
    &&& forall|k: int| 0 <= k < tokens.len() / 3 ==> #[trigger] is_path_segment(tokens, k)
}

/// `tokens` is the call of a macro and nothing else: a path from the root,
/// a `!`, and one group that holds the arguments.
pub open spec fn is_macro_call(tokens: Seq<TokenView>) -> bool {
    &&& tokens.len() >= 2
    &&& is_absolute_path(tokens.take(tokens.len() - 2))
    &&& tokens[tokens.len() - 2] matches TokenView::Punct { ch, spacing, .. }
    &&& ch == '!'
    &&& spacing == Spacing::Alone
    &&& tokens[tokens.len() - 1] is Group
}

/// The tokens of `::core::compile_error!("...")`, where the literal stands for
/// `message`. The path and the `!` sit at `start`; the literal and the
/// parentheses around it sit at `end`.
pub open spec fn compile_error_call(message: Seq<char>, start: Location, end: Location) -> Seq<
    TokenView,
> {
    seq![
        TokenView::Punct { ch: ':', spacing: Spacing::Joint, span: start },
        TokenView::Punct { ch: ':', spacing: Spacing::Alone, span: start },
        TokenView::Ident { name: "core"@, span: start },
        TokenView::Punct { ch: ':', spacing: Spacing::Joint, span: start },
        TokenView::Punct { ch: ':', spacing: Spacing::Alone, span: start },
        TokenView::Ident { name: "compile_error"@, span: start },
        TokenView::Punct { ch: '!', spacing: Spacing::Alone, span: start },
        TokenView::Group {
            delimiter: Delimiter::Parenthesis,
            stream: seq![TokenView::StringLiteral { value: message, span: end }],
            span: end,
        },
    ]
}

/// Whatever the message and the two places, the tokens of
/// [`compile_error_call`] are the call of a macro and nothing else.
pub proof fn compile_error_call_is_macro_call(message: Seq<char>, start: Location, end: Location)
    ensures
        is_macro_call(compile_error_call(message, start, end)),
{
    let tokens = compile_error_call(message, start, end);
    let path = tokens.take(tokens.len() - 2);
    reveal_strlit("core");
    reveal_strlit("compile_error");
    assert(is_path_segment(path, 0));
    assert(is_path_segment(path, 1));
}

} // verus!
