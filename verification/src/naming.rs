//! Singular and plural of names, by a few rules of thumb.

use crate::text::same_text;
use vstd::prelude::*;
use vstd::string::{StrSliceExecFns, StringExecFns};

verus! {

/// Gives the singular of a name.
pub trait ToSingular {
    fn to_singular(&self) -> String;
}

/// Gives the plural of a name.
pub trait ToPlural {
    fn to_plural(&self) -> String;
}

/// Whether `s` ends in `suffix`.
pub open spec fn has_suffix(s: Seq<char>, suffix: Seq<char>) -> bool {
    suffix.len() <= s.len() && s.subrange(s.len() - suffix.len(), s.len() as int) == suffix
}

/// `s` without its last `n` characters.
pub open spec fn without_last(s: Seq<char>, n: nat) -> Seq<char> {
    s.subrange(0, s.len() - n)
}

/// The plural of the few names that do not follow the rule.
pub open spec fn irregular_plural(s: Seq<char>) -> Option<Seq<char>> {
    if s == "man"@ {
        Some("men"@)
    } else if s == "woman"@ {
        Some("women"@)
    } else {
        None
    }
}

/// The plural of a name by the rule: a name that ends in `s` stays, any other
/// name gets an `s`.
pub open spec fn regular_plural(s: Seq<char>) -> Seq<char> {
    if has_suffix(s, "s"@) {
        s
    } else {
        s + "s"@
    }
}

/// The plural of a name: that of the rule, but for `man` and `woman`.
pub open spec fn plural_of(s: Seq<char>) -> Seq<char> {
    match irregular_plural(s) {
        Some(plural) => plural,
        None => regular_plural(s),
    }
}

/// The singular of the few names that do not follow the rule.
pub open spec fn irregular_singular(s: Seq<char>) -> Option<Seq<char>> {
    if s == "men"@ {
        Some("man"@)
    } else if s == "women"@ {
        Some("woman"@)
    } else if s == "boxes"@ {
        Some("box"@)
    } else if s == "foxes"@ {
        Some("fox"@)
    } else {
        None
    }
}

/// The singular of a name by the rule: `-ies` becomes `-y`, a single final
/// `s` is dropped, and any other name stays.
pub open spec fn regular_singular(s: Seq<char>) -> Seq<char> {
    if has_suffix(s, "ies"@) {
        without_last(s, 3) + "y"@
    } else if has_suffix(s, "s"@) && !has_suffix(without_last(s, 1), "s"@) {
        without_last(s, 1)
    } else {
        s
    }
}

/// The singular of a name: that of the rule, but for `men`, `women`, `boxes`
/// and `foxes`.
pub open spec fn singular_of(s: Seq<char>) -> Seq<char> {
    match irregular_singular(s) {
        Some(singular) => singular,
        None => regular_singular(s),
    }
}

/// Whether `s` ends in `suffix`.
pub fn ends_with(s: &str, suffix: &str) -> (r: bool)
    ensures
        r == has_suffix(s@, suffix@),
{
    let n = s.unicode_len();
    let k = suffix.unicode_len();
    if k > n {
        false
    } else {
        same_text(s.substring_char(n - k, n), suffix)
    }
}

/// `s` without its last `n` characters.
pub fn strip_last(s: &str, n: usize) -> (r: &str)
    requires
        n <= s@.len(),
    ensures
        r@ == without_last(s@, n as nat),
{
    let len = s.unicode_len();
    s.substring_char(0, len - n)
}

/// The plural of `s`.
pub fn naive_pluralize(s: &str) -> (r: String)
    ensures
        r@ == plural_of(s@),
{
    proof {
        reveal_strlit("s");
    }
    if same_text(s, "man") {
        String::from_str("men")
    } else if same_text(s, "woman") {
        String::from_str("women")
    } else if ends_with(s, "s") {
        String::from_str(s)
    } else {
        String::from_str(s).concat("s")
    }
}

/// The singular of `s`.
pub fn naive_singularize(s: &str) -> (r: String)
    ensures
        r@ == singular_of(s@),
{
    proof {
        reveal_strlit("ies");
        reveal_strlit("s");
    }
    if same_text(s, "men") {
        String::from_str("man")
    } else if same_text(s, "women") {
        String::from_str("woman")
    } else if same_text(s, "boxes") {
        String::from_str("box")
    } else if same_text(s, "foxes") {
        String::from_str("fox")
    } else if ends_with(s, "ies") {
        String::from_str(strip_last(s, 3)).concat("y")
    } else if ends_with(s, "s") {
        let stripped = strip_last(s, 1);
        if !ends_with(stripped, "s") {
            String::from_str(stripped)
        } else {
            String::from_str(s)
        }
    } else {
        String::from_str(s)
    }
}

impl ToSingular for &str {
    fn to_singular(&self) -> (r: String)
        ensures
            r@ == singular_of(self@),
    {
        naive_singularize(self)
    }
}

impl ToPlural for &str {
    fn to_plural(&self) -> (r: String)
        ensures
            r@ == plural_of(self@),
    {
        naive_pluralize(self)
    }
}

impl ToSingular for String {
    fn to_singular(&self) -> (r: String)
        ensures
            r@ == singular_of(self@),
    {
        naive_singularize(self.as_str())
    }
}

impl ToPlural for String {
    fn to_plural(&self) -> (r: String)
        ensures
            r@ == plural_of(self@),
    {
        naive_pluralize(self.as_str())
    }
}

} // verus!
