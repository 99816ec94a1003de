//! The character checks that requests go through before anything is run,
//! made with the `regex` crate.
use vstd::prelude::*;

verus! {

/// A name of a container, pod, network, volume, secret or file: any
/// character outside `A-Za-z0-9_-` is refused.
pub const NAME_PATTERN: &'static str = r"([^A-Za-z0-9_-])";

/// An image reference to inspect: any character outside `A-Za-z0-9./:_-`
/// is refused.
pub const IMAGE_REF_PATTERN: &'static str = r"([^A-Za-z0-9./:_-])";

/// A repository: any character outside `A-Za-z0-9./_-` is refused.
pub const REPOSITORY_PATTERN: &'static str = r"([^A-Za-z0-9.\/_-])";

/// An image version or a user name: any character outside `A-Za-z0-9._-`
/// is refused.
pub const VERSION_PATTERN: &'static str = r"([^A-Za-z0-9._-])";

/// A password: quotes, slashes, backslashes, backticks, acute accents and
/// `=` are refused.
pub const PASSWORD_PATTERN: &'static str = r#"([""'/\`´\\=])"#;

/// Secret labels: any character outside `A-Za-z0-9_-=,` is refused.
pub const LABELS_PATTERN: &'static str = r"([^A-Za-z0-9_\-\=\,])";

/// Whether `c` is an ASCII letter or digit.
pub open spec fn ascii_alnum(c: char) -> bool {
    ('A' <= c && c <= 'Z') || ('a' <= c && c <= 'z') || ('0' <= c && c <= '9')
}

/// The characters a name may hold: `A-Za-z0-9_-`.
pub open spec fn name_char(c: char) -> bool {
    ascii_alnum(c) || c == '_' || c == '-'
}

/// The characters an image reference may hold: `A-Za-z0-9./:_-`.
pub open spec fn image_ref_char(c: char) -> bool {
    name_char(c) || c == '.' || c == '/' || c == ':'
}

/// The characters a repository may hold: `A-Za-z0-9./_-`.
pub open spec fn repository_char(c: char) -> bool {
    name_char(c) || c == '.' || c == '/'
}

/// The characters a version or user name may hold: `A-Za-z0-9._-`.
pub open spec fn version_char(c: char) -> bool {
    name_char(c) || c == '.'
}

/// The characters labels may hold: `A-Za-z0-9_-=,`.
pub open spec fn labels_char(c: char) -> bool {
    name_char(c) || c == '=' || c == ','
}

/// The characters a password may not hold: double and single quotes, `/`,
/// backtick, acute accent, backslash and `=`.
pub open spec fn password_banned(c: char) -> bool {
    c == '"' || c == '\'' || c == '/' || c == '`' || c == '\u{b4}' || c == '\\' || c == '='
}

/// Whether some character of `text` is outside the class `allowed`.
pub open spec fn has_char_outside(text: Seq<char>, allowed: spec_fn(char) -> bool) -> bool {
    exists|i: int| 0 <= i < text.len() && !allowed(#[trigger] text[i])
}

/// What compiling `pattern` with `regex::Regex::new` and searching `text`
/// with `Regex::find` gives: `None` when the pattern does not compile,
/// else whether a match was found. Left open here: the six checks of this
/// module are stated by `class_match`.
pub uninterp spec fn regex_search(pattern: Seq<char>, text: Seq<char>) -> Option<bool>;

/// Whether `pattern` is one of the six checks of this module.
pub open spec fn is_check_pattern(pattern: Seq<char>) -> bool {
    pattern == NAME_PATTERN@ || pattern == IMAGE_REF_PATTERN@ || pattern == REPOSITORY_PATTERN@
        || pattern == VERSION_PATTERN@ || pattern == LABELS_PATTERN@ || pattern == PASSWORD_PATTERN@
}

/// The six checks are six different patterns.
pub proof fn lemma_check_patterns_distinct()
    ensures
        NAME_PATTERN@ != IMAGE_REF_PATTERN@,
        NAME_PATTERN@ != REPOSITORY_PATTERN@,
        NAME_PATTERN@ != VERSION_PATTERN@,
        NAME_PATTERN@ != LABELS_PATTERN@,
        NAME_PATTERN@ != PASSWORD_PATTERN@,
        IMAGE_REF_PATTERN@ != REPOSITORY_PATTERN@,
        IMAGE_REF_PATTERN@ != VERSION_PATTERN@,
        IMAGE_REF_PATTERN@ != LABELS_PATTERN@,
        IMAGE_REF_PATTERN@ != PASSWORD_PATTERN@,
        REPOSITORY_PATTERN@ != VERSION_PATTERN@,
        REPOSITORY_PATTERN@ != LABELS_PATTERN@,
        REPOSITORY_PATTERN@ != PASSWORD_PATTERN@,
        VERSION_PATTERN@ != LABELS_PATTERN@,
        VERSION_PATTERN@ != PASSWORD_PATTERN@,
        LABELS_PATTERN@ != PASSWORD_PATTERN@,
{
    reveal_strlit(r"([^A-Za-z0-9_-])");
    reveal_strlit(r"([^A-Za-z0-9./:_-])");
    reveal_strlit(r"([^A-Za-z0-9.\/_-])");
    reveal_strlit(r"([^A-Za-z0-9._-])");
    reveal_strlit(r#"([""'/\`´\\=])"#);
    reveal_strlit(r"([^A-Za-z0-9_\-\=\,])");
    assert(NAME_PATTERN@.len() != IMAGE_REF_PATTERN@.len());
    assert(IMAGE_REF_PATTERN@[13] != REPOSITORY_PATTERN@[13]);
    assert(REPOSITORY_PATTERN@.len() != VERSION_PATTERN@.len());
    assert(PASSWORD_PATTERN@[2] != NAME_PATTERN@[2]);
    assert(PASSWORD_PATTERN@[2] != IMAGE_REF_PATTERN@[2]);
    assert(PASSWORD_PATTERN@[2] != REPOSITORY_PATTERN@[2]);
    assert(PASSWORD_PATTERN@[2] != VERSION_PATTERN@[2]);
    assert(PASSWORD_PATTERN@[2] != LABELS_PATTERN@[2]);
}

/// Whether the check `pattern` finds a match in `text`. Each of the six
/// checks is a single character class, so it finds a match exactly when
/// `text` holds a character of the class: for the five negated classes, a
/// character outside the allowed set; for the password check, one of the
/// banned characters.
pub open spec fn class_match(pattern: Seq<char>, text: Seq<char>) -> bool {
    if pattern == NAME_PATTERN@ {
        has_char_outside(text, |c: char| name_char(c))
    } else if pattern == IMAGE_REF_PATTERN@ {
        has_char_outside(text, |c: char| image_ref_char(c))
    } else if pattern == REPOSITORY_PATTERN@ {
        has_char_outside(text, |c: char| repository_char(c))
    } else if pattern == VERSION_PATTERN@ {
        has_char_outside(text, |c: char| version_char(c))
    } else if pattern == LABELS_PATTERN@ {
        has_char_outside(text, |c: char| labels_char(c))
    } else {
        has_char_outside(text, |c: char| !password_banned(c))
    }
}

/// What searching `text` for `pattern` gives: for the six checks, the
/// match of their character class; for any other pattern, `regex_search`.
pub open spec fn pattern_search(pattern: Seq<char>, text: Seq<char>) -> Option<bool> {
    if is_check_pattern(pattern) {
        Some(class_match(pattern, text))
    } else {
        regex_search(pattern, text)
    }
}

/// Compiles `pattern` with `regex::Regex::new` and searches `text` with
/// `Regex::find`. For the six character classes of this module the
/// contract states what the crate's documented class syntax gives (see
/// `class_match`); for any other pattern it names the result
/// `regex_search` of the two arguments.
#[verifier::external_body]
fn regex_find(pattern: &str, text: &str) -> (r: Option<bool>)
    ensures
        is_check_pattern(pattern@) ==> r == Some(class_match(pattern@, text@)),
        !is_check_pattern(pattern@) ==> r == regex_search(pattern@, text@),
{
    match regex::Regex::new(pattern) {
        Ok(re) => Some(re.find(text).is_some()),
        Err(_) => None,
    }
}

/// Whether the check `pattern` refuses `text`: a match was found, or the
/// pattern does not compile.
pub open spec fn refused_by(pattern: Seq<char>, text: Seq<char>) -> bool {
    pattern_search(pattern, text) != Some(false)
}

/// Whether the check `pattern` refuses `text`, as `refused_by` states.
pub fn refuses(pattern: &str, text: &str) -> (r: bool)
    ensures
        r == refused_by(pattern@, text@),
{
    match regex_find(pattern, text) {
        Some(found) => found,
        None => true,
    }
}

} // verus!
