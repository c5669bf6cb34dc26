//! The directory names along a file's path, and the lookups made on them.

use crate::document::opt_text;
use vstd::prelude::*;

verus! {

/// The final component of the path and of each of its ancestors, from the
/// path itself up to the root; `None` for an ancestor with no final
/// component (the root, or an empty path).
pub uninterp spec fn ancestor_names_of(path: Seq<char>) -> Seq<Option<Seq<char>>>;

/// The texts of a sequence of optional strings.
pub open spec fn opt_texts(v: Seq<Option<String>>) -> Seq<Option<Seq<char>>> {
    Seq::new(v.len(), |i: int| opt_text(v[i]))
}

/// Relies on `std::path::Path::ancestors` to walk from the path up to the
/// root, and on `Path::file_name` for the final component of each step.
#[verifier::external_body]
pub(crate) fn ancestor_names(path: &str) -> (r: Vec<Option<String>>)
    ensures
        opt_texts(r@) == ancestor_names_of(path@),
{
    std::path::Path::new(path).ancestors().map(|a| a.file_name().and_then(|n| n.to_str()).map(|n| n.to_string())).collect()
}

/// The language directory for a framework: walking the names from the file
/// up, the first whose folded form is `target` is the framework's
/// directory, and the name right after it (its parent) is the language.
pub open spec fn language_among(
    names: Seq<Option<Seq<char>>>,
    folded: Seq<Option<Seq<char>>>,
    target: Seq<char>,
) -> Option<Seq<char>>
    decreases folded.len(),
{
    if folded.len() == 0 || names.len() == 0 {
        None
    } else if folded[0] == Some(target) {
        if names.len() > 1 {
            names[1]
        } else {
            None
        }
    } else {
        language_among(names.drop_first(), folded.drop_first(), target)
    }
}

/// Picks the language directory out of the names along a path, given the
/// folded form of each name and of the framework's name.
pub fn pick_language(names: &Vec<Option<String>>, folded: &Vec<Option<String>>, target: &String) -> (r: Option<
    String,
>)
    ensures
        opt_text(r) == language_among(opt_texts(names@), opt_texts(folded@), target@),
{
    let mut i: usize = 0;
    assert(opt_texts(names@).subrange(0, opt_texts(names@).len() as int) =~= opt_texts(names@));
    assert(opt_texts(folded@).subrange(0, opt_texts(folded@).len() as int) =~= opt_texts(folded@));
    while i < folded.len() && i < names.len()
        invariant
            i <= folded@.len(),
            i <= names@.len(),
            language_among(opt_texts(names@), opt_texts(folded@), target@) == language_among(
                opt_texts(names@).subrange(i as int, names@.len() as int),
                opt_texts(folded@).subrange(i as int, folded@.len() as int),
                target@,
            ),
        decreases folded@.len() - i,
    {
        let ghost ns = opt_texts(names@).subrange(i as int, names@.len() as int);
        let ghost fs = opt_texts(folded@).subrange(i as int, folded@.len() as int);
        assert(ns.drop_first() =~= opt_texts(names@).subrange(i + 1, names@.len() as int));
        assert(fs.drop_first() =~= opt_texts(folded@).subrange(i + 1, folded@.len() as int));
        let hit = match &folded[i] {
            Some(f) => f.eq(target),
            None => false,
        };
        if hit {
            assert(fs[0] == Some(target@));
            if i + 1 < names.len() {
                return match &names[i + 1] {
                    Some(n) => Some(n.clone()),
                    None => None,
                };
            } else {
                return None;
            }
        }
        i = i + 1;
    }
    None
}

} // verus!
