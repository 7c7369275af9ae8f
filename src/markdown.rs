use vstd::prelude::*;

verus! {

/// The characters that Telegram's MarkdownV2 style reserves.
pub open spec fn is_reserved(c: char) -> bool {
    c == '_' || c == '*' || c == '[' || c == ']' || c == '(' || c == ')' || c == '~'
        || c == '`' || c == '#' || c == '+' || c == '-' || c == '=' || c == '|'
        || c == '{' || c == '}' || c == '.' || c == '!'
}

/// One character as it is shown "as is": reserved ones get a backslash.
pub open spec fn escaped_char(c: char) -> Seq<char> {
    if is_reserved(c) {
        seq!['\\', c]
    } else {
        seq![c]
    }
}

/// `s` escaped for MarkdownV2, character by character.
pub open spec fn escaped(s: Seq<char>) -> Seq<char>
    decreases s.len(),
{
    if s.len() == 0 {
        Seq::empty()
    } else {
        escaped(s.drop_last()) + escaped_char(s.last())
    }
}

/// `s` in bold.
pub open spec fn bolded(s: Seq<char>) -> Seq<char> {
    seq!['*'] + s + seq!['*']
}

/// One character of a link's address: `` ` `` and `)` get a backslash.
pub open spec fn link_escaped_char(c: char) -> Seq<char> {
    if c == '`' || c == ')' {
        seq!['\\', c]
    } else {
        seq![c]
    }
}

/// A link's address, escaped character by character.
pub open spec fn link_escaped(s: Seq<char>) -> Seq<char>
    decreases s.len(),
{
    if s.len() == 0 {
        Seq::empty()
    } else {
        link_escaped(s.drop_last()) + link_escaped_char(s.last())
    }
}

/// An inline link showing `text` and leading to `url`.
pub open spec fn linked(url: Seq<char>, text: Seq<char>) -> Seq<char> {
    "["@ + text + "]("@ + link_escaped(url) + ")"@
}

/// `s` in italics; a text that begins and ends with `__` is closed so that
/// it is not read as underlined.
pub open spec fn italicized(s: Seq<char>) -> Seq<char> {
    if s.len() >= 2 && s.take(2) == "__"@ && s.skip(s.len() - 2) == "__"@ {
        "_"@ + s.take(s.len() - 1) + "\\r__"@
    } else {
        "_"@ + s + "_"@
    }
}

/// Relies on teloxide's `utils::markdown::escape`, which puts a backslash
/// before each of the characters ``_*[]()~`#+-=|{}.!`` and keeps the others.
#[verifier::external_body]
pub(crate) fn escape(s: &str) -> (r: String)
    ensures
        r@ == escaped(s@),
{
    teloxide::utils::markdown::escape(s)
}

/// Relies on teloxide's `utils::markdown::bold`, which writes `s` between two
/// asterisks.
#[verifier::external_body]
pub(crate) fn bold(s: &str) -> (r: String)
    ensures
        r@ == bolded(s@),
{
    teloxide::utils::markdown::bold(s)
}


/// Relies on teloxide's `utils::markdown::link`, which writes `[text](url)`
/// with `` ` `` and `)` in the address escaped by a backslash.
#[verifier::external_body]
pub(crate) fn link(url: &str, text: &str) -> (r: String)
    ensures
        r@ == linked(url@, text@),
{
    teloxide::utils::markdown::link(url, text)
}

/// Relies on teloxide's `utils::markdown::italic`, which writes `s` between
/// underscores, and ends a text that begins and ends with `__` by `\r__`.
#[verifier::external_body]
pub(crate) fn italic(s: &str) -> (r: String)
    ensures
        r@ == italicized(s@),
{
    teloxide::utils::markdown::italic(s)
}

} // verus!
