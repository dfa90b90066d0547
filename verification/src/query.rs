//! The Spotlight query that finds applications by their display name.

use fast_escape::Escaper;
use fast_fmt::Fmt;
use void::ResultVoidExt;
use vstd::prelude::*;
use vstd::string::StringExecFns;

verus! {

/// What stands in a query before the name that is looked for: applications
/// only, and the opening quote of the name.
pub const QUERY_HEAD: &'static str =
    "kMDItemContentTypeTree == \"com.apple.application\"c && kMDItemDisplayName == \"";

/// What stands after the name: the closing quote, and the modifiers that make
/// the comparison blind to case and to diacritics.
pub const QUERY_TAIL: &'static str = "\"cd";

/// The character that takes the special meaning from the one behind it.
pub const MQ_STRING_ESCAPE: char = '\\';

/// The characters that have a special meaning inside a quoted string of a
/// query.
pub const MQ_STRING_SPECIAL_CHARS: [char; 4] = ['?', '*', '\\', '"'];

/// A text in which the escape character stands before every character of the
/// special ones, and which is otherwise unchanged.
pub open spec fn escaped(text: Seq<char>, escape: char, special: Seq<char>) -> Seq<char>
    decreases text.len(),
{
    if text.len() == 0 {
        Seq::empty()
    } else if special.contains(text[0]) {
        seq![escape, text[0]] + escaped(text.drop_first(), escape, special)
    } else {
        seq![text[0]] + escaped(text.drop_first(), escape, special)
    }
}

/// A text read with its escape characters taken out: each of them is
/// dropped, and the character behind it is taken as it stands.
pub open spec fn unescaped(text: Seq<char>, escape: char) -> Seq<char>
    decreases text.len(),
{
    if text.len() == 0 {
        Seq::empty()
    } else if text[0] == escape && text.len() >= 2 {
        seq![text[1]] + unescaped(text.skip(2), escape)
    } else {
        seq![text[0]] + unescaped(text.drop_first(), escape)
    }
}

/// Escaping loses nothing: where the escape character is one of the special
/// characters, a text is read back from its escaped form.
pub proof fn lemma_escaped_reads_back(text: Seq<char>, escape: char, special: Seq<char>)
    requires
        special.contains(escape),
    ensures
        unescaped(escaped(text, escape, special), escape) == text,
    decreases text.len(),
{
    if text.len() > 0 {
        let rest = text.drop_first();
        let tail = escaped(rest, escape, special);
        lemma_escaped_reads_back(rest, escape, special);
        if special.contains(text[0]) {
            let whole = seq![escape, text[0]] + tail;
            assert(whole.skip(2) == tail);
            assert(unescaped(whole, escape) == seq![text[0]] + rest);
        } else {
            let whole = seq![text[0]] + tail;
            assert(whole.drop_first() == tail);
            assert(unescaped(whole, escape) == seq![text[0]] + rest);
        }
        assert(seq![text[0]] + rest == text);
    }
}

/// Writes a text through a `fast_escape::Escaper` into a fresh string, with
/// `fast_fmt`'s `Fmt::transformed` and `Fmt::fmt`. The escaper writes its
/// escape character before each character that its set holds, and then the
/// character itself; writing into a `String` cannot fail.
#[verifier::external_body]
fn escape(text: &str, escape_char: char, special_chars: &[char]) -> (r: String)
    ensures
        r@ == escaped(text@, escape_char, special_chars@),
{
    let mut out = String::new();
    let escaper: Escaper<&[char]> = Escaper::new(escape_char, special_chars);
    text.transformed(escaper).fmt(&mut out, &fast_fmt::Display).void_unwrap();
    out
}

/// The text of the query for an application's display name.
pub open spec fn name_query_text(app_name: Seq<char>) -> Seq<char> {
    QUERY_HEAD@ + escaped(app_name, MQ_STRING_ESCAPE, MQ_STRING_SPECIAL_CHARS@) + QUERY_TAIL@
}

/// The name that is looked for can be read back from between the quotes of
/// the query, whatever characters it holds.
pub proof fn lemma_name_reads_back(app_name: Seq<char>)
    ensures
        unescaped(
            escaped(app_name, MQ_STRING_ESCAPE, MQ_STRING_SPECIAL_CHARS@),
            MQ_STRING_ESCAPE,
        ) == app_name,
{
    assert(MQ_STRING_SPECIAL_CHARS@[2] == MQ_STRING_ESCAPE);
    lemma_escaped_reads_back(app_name, MQ_STRING_ESCAPE, MQ_STRING_SPECIAL_CHARS@);
}

/// The query that finds the applications whose display name is `app_name`:
/// the name stands in it between quotes, with its special characters escaped.
pub fn name_query(app_name: &str) -> (query: String)
    ensures
        query@ == name_query_text(app_name@),
{
    let special = MQ_STRING_SPECIAL_CHARS;
    let name = escape(app_name, MQ_STRING_ESCAPE, special.as_slice());
    let mut query = String::from_str(QUERY_HEAD);
    query.append(name.as_str());
    query.append(QUERY_TAIL);
    query
}

} // verus!
