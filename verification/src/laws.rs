//! What holds of every error, whatever it carries.
use crate::error::{Error, InvalidFormatDescription};
use crate::span::Location;
use crate::syntax::{compile_error_call_is_macro_call, is_macro_call};
use crate::token::{SourceToken, TokenView};
use vstd::prelude::*;

verus! {

/// An error whose maker gave neither end points at the macro invocation, with
/// both ends. A token that nothing accounts for is placed by the token alone,
/// so of such an error this holds where the token itself sits at the macro
/// invocation.
pub proof fn without_hints_at_mixed_site(error: Error)
    requires
        error@.start_hint() is None,
        error@.end_hint() is None,
        error matches Error::UnexpectedToken { token } ==> token.span == Location::MixedSite,
    ensures
        error@.start() == Location::MixedSite,
        error@.end() == Location::MixedSite,
        error@.end() == error@.start(),
{
}

/// An error whose maker gave only the beginning ends where it begins, and it
/// begins where the maker said.
pub proof fn end_follows_start(error: Error)
    requires
        error@.start_hint() is Some,
        error@.end_hint() is None,
    ensures
        error@.start() == error@.start_hint()->0,
        error@.end() == error@.start(),
{
}

/// An end that the maker gave is kept, unless the error is a token that
/// nothing accounts for: such an error has no place for one.
pub proof fn hints_are_kept(error: Error)
    ensures
        error@.start_hint() matches Some(location) ==> error@.start() == location,
        error@.end_hint() matches Some(location) ==> error@.end() == location,
        error is UnexpectedToken ==> error@.start_hint() is None && error@.end_hint() is None,
{
}

/// A token that nothing accounts for is reported where the token sits, at
/// both ends.
pub proof fn unexpected_token_at_token(token: SourceToken)
    ensures
        (Error::UnexpectedToken { token })@.start() == token.span,
        (Error::UnexpectedToken { token })@.end() == token.span,
{
}

/// An error of the parser of format descriptions displays the parser's own
/// text, letter for letter, wherever its ends are.
pub proof fn invalid_format_description_verbatim(
    error: InvalidFormatDescription,
    span_start: Option<Location>,
    span_end: Option<Location>,
)
    ensures
        (Error::InvalidFormatDescription { error, span_start, span_end })@.message() == error@,
{
}

/// Two errors that say the same are reported by the same tokens, places
/// included.
pub proof fn equal_errors_equal_diagnostics(a: Error, b: Error)
    requires
        a@ == b@,
    ensures
        a@.diagnostic() == b@.diagnostic(),
{
}

/// The tokens that report an error are the call of a macro and nothing else.
pub proof fn diagnostic_is_macro_call(error: Error)
    ensures
        is_macro_call(error@.diagnostic()),
{
    compile_error_call_is_macro_call(error@.message(), error@.start(), error@.end());
}

/// The tokens that report an error say where the diagnostic begins and where
/// it ends. All of them but the last sit at the beginning. The last is a
/// group that sits at the end, and all it holds is a string literal that sits
/// there too and stands for the error's text.
pub proof fn diagnostic_places(error: Error)
    ensures
        forall|i: int|
            0 <= i < error@.diagnostic().len() - 1 ==> (#[trigger] error@.diagnostic()[i]).span()
                == error@.start(),
        error@.diagnostic().last() matches TokenView::Group { stream, span, .. } && span
            == error@.end() && stream == seq![
            TokenView::StringLiteral { value: error@.message(), span: error@.end() },
        ],
{
}

} // verus!
