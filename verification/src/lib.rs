//! Shell-style path resolution: expand a leading `~` or `~/` in a path
//! specification against a home-directory string, following the conventions
//! of a `cd` command.
//!
//! The resolution is a pure, total, syntactic construction: no normalization,
//! canonicalization, or filesystem access is performed. Reading the
//! environment and changing the working directory are left to the caller.

use vstd::prelude::*;

verus! {

/// The path separator used when joining a home directory and a suffix.
pub open spec fn sep() -> char {
    '/'
}

/// Joining a base path and a suffix the way `PathBuf::push` does on a
/// Unix-like platform, over character sequences:
/// an absolute suffix replaces the base; otherwise a separator is inserted
/// unless the base is empty or already ends with one.
pub open spec fn join_spec(base: Seq<char>, suffix: Seq<char>) -> Seq<char> {
    if suffix.len() > 0 && suffix[0] == sep() {
        suffix
    } else if base.len() == 0 || base[base.len() - 1] == sep() {
        base + suffix
    } else {
        base.push(sep()) + suffix
    }
}

/// Appends `suffix` to `base` as additional path segments, with
/// `PathBuf::push` semantics (see [`join_spec`]).
pub fn join(base: &str, suffix: &str) -> (r: String)
    ensures
        r@ == join_spec(base@, suffix@),
{
    let suffix_len = suffix.unicode_len();
    if suffix_len > 0 && suffix.get_char(0) == '/' {
        String::from_str(suffix)
    } else {
        let base_len = base.unicode_len();
        let mut r = String::from_str(base);
        if base_len > 0 && base.get_char(base_len - 1) != '/' {
            proof {
                reveal_strlit("/");
            }
            r.append("/");
            proof {
                assert(r@ =~= base@.push(sep()));
            }
        }
        r.append(suffix);
        r
    }
}

/// The view of an optional path specification: the character sequence of the
/// string when one is present. An absent value and a present-but-empty string
/// are distinct, and resolution treats them differently.
pub open spec fn input_view(input: Option<&str>) -> Option<Seq<char>> {
    match input {
        Some(s) => Some(s@),
        None => None,
    }
}

/// What resolution returns, as an ordered case match on `input`:
/// absent goes home; exactly `~` goes home; a `~/` prefix is replaced by the
/// home directory with the rest joined on as path segments; anything else
/// (including the empty string and `~`-prefixed strings such as `~foo`)
/// is taken literally.
pub open spec fn resolve_spec(home: Seq<char>, input: Option<Seq<char>>) -> Seq<char> {
    match input {
        None => home,
        Some(s) => if s.len() == 1 && s[0] == '~' {
            home
        } else if s.len() >= 2 && s[0] == '~' && s[1] == sep() {
            join_spec(home, s.subrange(2, s.len() as int))
        } else {
            s
        },
    }
}

/// Resolves an optional path specification against a home-directory string,
/// per [`resolve_spec`]: no argument or `~` yields `home`, a `~/` prefix is
/// expanded to `home` followed by the remaining segments, and any other
/// string is returned unchanged. Total and side-effect-free.
pub fn resolve(home: &str, input: Option<&str>) -> (r: String)
    ensures
        r@ == resolve_spec(home@, input_view(input)),
{
    match input {
        None => String::from_str(home),
        Some(s) => {
            let n = s.unicode_len();
            if n == 1 && s.get_char(0) == '~' {
                String::from_str(home)
            } else if n >= 2 && s.get_char(0) == '~' && s.get_char(1) == '/' {
                let suffix = s.substring_char(2, n);
                join(home, suffix)
            } else {
                String::from_str(s)
            }
        },
    }
}

/// An absent input resolves to the home directory itself.
pub proof fn lemma_resolve_absent(home: Seq<char>)
    ensures
        resolve_spec(home, None) == home,
{
}

/// An input of exactly `~` resolves to the home directory itself.
pub proof fn lemma_resolve_tilde(home: Seq<char>, s: Seq<char>)
    requires
        s.len() == 1,
        s[0] == '~',
    ensures
        resolve_spec(home, Some(s)) == home,
{
}

/// An input of `~/` followed by a non-empty suffix with no leading separator
/// resolves to the home directory joined with the suffix as additional path
/// segments, with a separator inserted wherever the home directory does not
/// already end in one.
pub proof fn lemma_resolve_home_relative(home: Seq<char>, suffix: Seq<char>)
    requires
        suffix.len() > 0,
        suffix[0] != sep(),
    ensures
        resolve_spec(home, Some(seq!['~', '/'] + suffix)) == join_spec(home, suffix),
        home.len() > 0 && home[home.len() - 1] != sep() ==> resolve_spec(
            home,
            Some(seq!['~', '/'] + suffix),
        ) == home.push(sep()) + suffix,
{
    let s = seq!['~', '/'] + suffix;
    assert(s.subrange(2, s.len() as int) =~= suffix);
}

/// A non-empty input that does not start with `~` is returned literally:
/// the home directory is ignored.
pub proof fn lemma_resolve_literal(home: Seq<char>, s: Seq<char>)
    requires
        s.len() > 0,
        s[0] != '~',
    ensures
        resolve_spec(home, Some(s)) == s,
{
}

/// A present-but-empty input resolves to the empty relative path, and so
/// differs from an absent input whenever the home directory is non-empty:
/// the two states of the optional input are never conflated.
pub proof fn lemma_resolve_empty_distinct(home: Seq<char>)
    ensures
        resolve_spec(home, Some(Seq::empty())) == Seq::<char>::empty(),
        home.len() > 0 ==> resolve_spec(home, Some(Seq::empty())) != resolve_spec(home, None),
{
}

/// An input of `~` followed by anything but a separator (such as `~foo`)
/// is returned literally: no expansion toward another user's home directory
/// is attempted.
pub proof fn lemma_resolve_tilde_literal(home: Seq<char>, foo: Seq<char>)
    requires
        foo.len() > 0,
        foo[0] != sep(),
    ensures
        resolve_spec(home, Some(seq!['~'] + foo)) == seq!['~'] + foo,
{
    let s = seq!['~'] + foo;
    assert(s[1] == foo[0]);
}

} // verus!
