//! Variable expansion: every reference to a variable in a word is replaced by
//! the variable's value, or by nothing when the variable is unset.
//!
//! Where the references stand in a word is decided by the `regex` crate, on
//! [`VARIABLE_PATTERN`]. What is taken on trust is said at each item that
//! speaks of that crate.

use vstd::prelude::*;
use regex::Regex;
use crate::environment::{value_or_empty, Environment};

verus! {

/// A reference to a variable: `$` and then a run of ASCII letters, digits and
/// underscores, or `$`, or `!`. What follows the first `$` is the name.
pub const VARIABLE_PATTERN: &'static str = "\\$([a-zA-Z0-9_]+|\\$|!)";

/// `regex::Regex`, a compiled regular expression. Nothing is known of what
/// is inside one.
#[verifier::external_type_specification]
#[verifier::external_body]
pub struct ExRegex(regex::Regex);

/// `regex::Error`, the reason why a pattern was not compiled.
#[verifier::external_type_specification]
#[verifier::external_body]
pub struct ExRegexError(regex::Error);

/// The expression that `regex::Regex::new` makes of `pattern`, if it makes
/// one.
pub uninterp spec fn regex_of(pattern: Seq<char>) -> Option<Regex>;

/// The successive non-overlapping matches of `re` in `text`, as
/// `regex::Regex::replace_all` finds them, from left to right. Each match is
/// given as the text between the end of the match before it (or the start of
/// `text`) and its own start, and the text of its first capture group. The
/// second component is the text after the last match.
pub uninterp spec fn regex_matches(re: Regex, text: Seq<char>) -> (
    Seq<(Seq<char>, Seq<char>)>,
    Seq<char>,
);

/// The variable references of `word`: the matches of [`VARIABLE_PATTERN`].
pub open spec fn references(word: Seq<char>) -> (Seq<(Seq<char>, Seq<char>)>, Seq<char>) {
    regex_matches(regex_of(VARIABLE_PATTERN@)->0, word)
}

/// The text that stands between and after `matches`, with each match replaced
/// by the value in `env` of the name it captured, or by nothing when that name
/// is unset.
pub open spec fn substitute(
    matches: Seq<(Seq<char>, Seq<char>)>,
    rest: Seq<char>,
    env: Map<Seq<char>, Seq<char>>,
) -> Seq<char>
    decreases matches.len(),
{
    if matches.len() == 0 {
        rest
    } else {
        matches[0].0 + value_or_empty(env, matches[0].1) + substitute(
            matches.drop_first(),
            rest,
            env,
        )
    }
}

/// The text that stands between and after `matches`, the matches left out.
pub open spec fn unmatched(matches: Seq<(Seq<char>, Seq<char>)>, rest: Seq<char>) -> Seq<char>
    decreases matches.len(),
{
    if matches.len() == 0 {
        rest
    } else {
        matches[0].0 + unmatched(matches.drop_first(), rest)
    }
}

/// `word` with its variable references expanded in `env`.
pub open spec fn expanded(word: Seq<char>, env: Map<Seq<char>, Seq<char>>) -> Seq<char> {
    substitute(references(word).0, references(word).1, env)
}

/// Calls `regex::Regex::new`. Trusted: whether the call succeeds, and the
/// expression it makes, depend on `pattern` alone; two expressions made of
/// one pattern are not told apart. Nothing is claimed of which patterns
/// compile.
#[verifier::external_body]
pub(crate) fn compile(pattern: &str) -> (compiled: Result<Regex, regex::Error>)
    ensures
        match compiled {
            Ok(re) => regex_of(pattern@) == Some(re),
            Err(_) => regex_of(pattern@) is None,
        },
{
    Regex::new(pattern)
}

/// Calls `regex::Regex::replace_all` with a replacement that looks the first
/// capture group up in `env`. Trusted: the result is the text of `word`
/// outside the matches, in order, with the replacement's result in the place
/// of each match. The expression must be the one made of
/// [`VARIABLE_PATTERN`], in which every match has a first capture group.
#[verifier::external_body]
pub(crate) fn replace_references(re: &Regex, word: &str, env: &Environment) -> (out: String)
    requires
        regex_of(VARIABLE_PATTERN@) == Some(*re),
    ensures
        out@ == substitute(regex_matches(*re, word@).0, regex_matches(*re, word@).1, env@),
{
    re.replace_all(word, |caps: &regex::Captures| env.value_or_empty(&caps[1])).into_owned()
}

/// Where none of the names is set, substitution leaves the text around the
/// matches.
proof fn lemma_substitute_unset(
    matches: Seq<(Seq<char>, Seq<char>)>,
    rest: Seq<char>,
    env: Map<Seq<char>, Seq<char>>,
)
    requires
        forall|i: int| 0 <= i < matches.len() ==> !env.contains_key(#[trigger] matches[i].1),
    ensures
        substitute(matches, rest, env) == unmatched(matches, rest),
    decreases matches.len(),
{
    if matches.len() > 0 {
        let later = matches.drop_first();
        assert forall|i: int| 0 <= i < later.len() implies !env.contains_key(
            #[trigger] later[i].1,
        ) by {
            assert(later[i] == matches[i + 1]);
        }
        lemma_substitute_unset(later, rest, env);
        assert(!env.contains_key(matches[0].1));
        assert(matches[0].0 + Seq::<char>::empty() =~= matches[0].0);
    }
}

/// Whether no variable that `word` refers to is set in `env`.
pub open spec fn refers_to_unset_only(word: Seq<char>, env: Map<Seq<char>, Seq<char>>) -> bool {
    forall|i: int|
        0 <= i < references(word).0.len() ==> !env.contains_key(#[trigger] references(word).0[i].1)
}

/// A reference to an unset variable expands to nothing: where no variable
/// that `word` refers to is set, the expansion is the text of `word` around
/// its references, and no reference stays in place.
pub proof fn lemma_unset_references_vanish(word: Seq<char>, env: Map<Seq<char>, Seq<char>>)
    ensures
        refers_to_unset_only(word, env) ==> expanded(word, env) == unmatched(
            references(word).0,
            references(word).1,
        ),
{
    if refers_to_unset_only(word, env) {
        lemma_substitute_unset(references(word).0, references(word).1, env);
    }
}

/// Whether `word` is one reference, to `name`, and nothing else.
pub open spec fn is_lone_reference(word: Seq<char>, name: Seq<char>) -> bool {
    references(word) == (seq![(Seq::<char>::empty(), name)], Seq::<char>::empty())
}

/// A word that is one reference and nothing else expands to the variable's
/// value, and to the empty text when the variable is unset.
pub proof fn lemma_lone_reference(
    word: Seq<char>,
    name: Seq<char>,
    env: Map<Seq<char>, Seq<char>>,
)
    ensures
        is_lone_reference(word, name) ==> expanded(word, env) == value_or_empty(env, name),
        is_lone_reference(word, name) && !env.contains_key(name) ==> expanded(word, env)
            == Seq::<char>::empty(),
{
    if is_lone_reference(word, name) {
        let found = references(word);
        assert(found.0.drop_first().len() == 0);
        assert(substitute(found.0.drop_first(), found.1, env) == found.1);
        assert(expanded(word, env) =~= value_or_empty(env, name));
    }
}

} // verus!
