//! Reading the server's listing of its databases.
//!
//! The listing is a table in text form, one row per line. A row that names a
//! database starts with one space, directly followed by the name; the name
//! ends at the next white space. Titles, rulers, continuation rows and the
//! closing row count do not have that shape and are passed over.

use crate::text::{char_is_whitespace, chars_of, is_whitespace, text_eq};
use vstd::prelude::*;
use vstd::string::*;

verus! {

/// The names that are never backed up: the server's own database and its
/// two templates.
pub open spec fn is_reserved(name: Seq<char>) -> bool {
    ||| name == seq!['p', 'o', 's', 't', 'g', 'r', 'e', 's']
    ||| name == seq!['t', 'e', 'm', 'p', 'l', 'a', 't', 'e', '0']
    ||| name == seq!['t', 'e', 'm', 'p', 'l', 'a', 't', 'e', '1']
}

/// A name as a listing can hold it: not empty and free of white space.
pub open spec fn is_token(name: Seq<char>) -> bool {
    &&& name.len() > 0
    &&& forall|i: int| 0 <= i < name.len() ==> !is_whitespace(#[trigger] name[i])
}

/// A name that a listing can yield and a backup takes: a token that is not
/// reserved.
pub open spec fn is_database_name(name: Seq<char>) -> bool {
    is_token(name) && !is_reserved(name)
}

/// Whether a line of `listing` starts at `at`.
pub open spec fn is_line_start(listing: Seq<char>, at: int) -> bool {
    0 <= at < listing.len() && (at == 0 || listing[at - 1] == '\n')
}

/// The first position at or after `from` that holds white space, or the end
/// of `listing`.
pub open spec fn token_end(listing: Seq<char>, from: int) -> int
    decreases listing.len() - from,
{
    if from < 0 || from >= listing.len() || is_whitespace(listing[from]) {
        from
    } else {
        token_end(listing, from + 1)
    }
}

/// The name in the row that starts at `at`, where the row has the shape of
/// one that names a database.
pub open spec fn row_name(listing: Seq<char>, at: int) -> Option<Seq<char>> {
    if is_line_start(listing, at) && listing[at] == ' ' && at + 1 < listing.len()
        && !is_whitespace(listing[at + 1]) {
        Some(listing.subrange(at + 1, token_end(listing, at + 1)))
    } else {
        None
    }
}

/// The names in the rows of `listing` that start at or after `from`, in the
/// order of the rows.
pub open spec fn names_from(listing: Seq<char>, from: int) -> Seq<Seq<char>>
    decreases listing.len() - from,
{
    if from < 0 || from >= listing.len() {
        Seq::empty()
    } else {
        match row_name(listing, from) {
            Some(name) => seq![name] + names_from(listing, from + 1),
            None => names_from(listing, from + 1),
        }
    }
}

/// The names that `listing` holds, reserved ones included, in its order.
pub open spec fn listed_names(listing: Seq<char>) -> Seq<Seq<char>> {
    names_from(listing, 0)
}

/// The databases to back up that `listing` names, in its order.
pub open spec fn database_names(listing: Seq<char>) -> Seq<Seq<char>> {
    without_reserved(listed_names(listing))
}

/// `names` without the reserved ones, the order kept.
pub open spec fn without_reserved(names: Seq<Seq<char>>) -> Seq<Seq<char>>
    decreases names.len(),
{
    if names.len() == 0 {
        Seq::empty()
    } else if is_reserved(names.last()) {
        without_reserved(names.drop_last())
    } else {
        without_reserved(names.drop_last()).push(names.last())
    }
}

/// A token ends within the listing, at white space or at the end, and holds
/// no white space.
pub proof fn lemma_token_end(listing: Seq<char>, from: int)
    requires
        0 <= from <= listing.len(),
    ensures
        from <= token_end(listing, from) <= listing.len(),
        token_end(listing, from) < listing.len() ==> is_whitespace(
            listing[token_end(listing, from)],
        ),
        forall|i: int| from <= i < token_end(listing, from) ==> !is_whitespace(#[trigger] listing[i]),
    decreases listing.len() - from,
{
    if from < listing.len() && !is_whitespace(listing[from]) {
        lemma_token_end(listing, from + 1);
    }
}

/// Every name read from a listing is a token.
pub proof fn lemma_names_are_tokens(listing: Seq<char>, from: int)
    requires
        0 <= from,
    ensures
        forall|i: int|
            0 <= i < names_from(listing, from).len() ==> is_token(
                #[trigger] names_from(listing, from)[i],
            ),
    decreases listing.len() - from,
{
    if from < listing.len() {
        lemma_names_are_tokens(listing, from + 1);
        let rest = names_from(listing, from + 1);
        match row_name(listing, from) {
            Some(name) => {
                lemma_token_end(listing, from + 1);
                assert forall|k: int| 0 <= k < name.len() implies !is_whitespace(
                    #[trigger] name[k],
                ) by {
                    assert(name[k] == listing[from + 1 + k]);
                }
                assert(is_token(name));
                let all = names_from(listing, from);
                assert forall|i: int| 0 <= i < all.len() implies is_token(#[trigger] all[i]) by {
                    if i > 0 {
                        assert(all[i] == rest[i - 1]);
                    }
                }
            },
            None => {},
        }
    }
}

/// Nothing reserved is left after the reserved names were taken out, what is
/// left was there before, and nothing else is lost.
pub proof fn lemma_without_reserved(names: Seq<Seq<char>>)
    ensures
        forall|i: int|
            0 <= i < without_reserved(names).len() ==> !is_reserved(
                #[trigger] without_reserved(names)[i],
            ),
        forall|i: int|
            0 <= i < without_reserved(names).len() ==> names.contains(
                #[trigger] without_reserved(names)[i],
            ),
        forall|n: Seq<char>|
            names.contains(n) && !is_reserved(n) ==> #[trigger] without_reserved(names).contains(n),
        without_reserved(names).len() <= names.len(),
    decreases names.len(),
{
    if names.len() > 0 {
        let head = names.drop_last();
        lemma_without_reserved(head);
        let kept_head = without_reserved(head);
        let kept = without_reserved(names);
        assert forall|i: int| 0 <= i < kept.len() implies names.contains(#[trigger] kept[i]) by {
            if i < kept_head.len() {
                assert(kept[i] == kept_head[i]);
                assert(head.contains(kept_head[i]));
                let k = choose|k: int| 0 <= k < head.len() && head[k] == kept_head[i];
                assert(names[k] == kept[i]);
            } else {
                assert(names[names.len() - 1] == kept[i]);
            }
        }
        assert forall|i: int| 0 <= i < kept.len() implies !is_reserved(#[trigger] kept[i]) by {
            if i < kept_head.len() {
                assert(kept[i] == kept_head[i]);
            }
        }
        assert forall|n: Seq<char>| names.contains(n) && !is_reserved(n) implies kept.contains(
            n,
        ) by {
            let k = choose|k: int| 0 <= k < names.len() && names[k] == n;
            if k < head.len() {
                assert(head[k] == n);
                assert(head.contains(n));
                assert(kept_head.contains(n));
                let j = choose|j: int| 0 <= j < kept_head.len() && kept_head[j] == n;
                assert(kept[j] == n);
            } else {
                assert(kept[kept.len() - 1] == n);
            }
        }
    }
}

/// No database that a listing yields is reserved: each is a name to back up.
pub proof fn lemma_listing_excludes_reserved(listing: Seq<char>)
    ensures
        forall|i: int|
            0 <= i < database_names(listing).len() ==> !is_reserved(
                #[trigger] database_names(listing)[i],
            ),
        forall|i: int|
            0 <= i < database_names(listing).len() ==> is_database_name(
                #[trigger] database_names(listing)[i],
            ),
{
    let listed = listed_names(listing);
    let kept = database_names(listing);
    lemma_names_are_tokens(listing, 0);
    lemma_without_reserved(listed);
    assert forall|i: int| 0 <= i < kept.len() implies is_database_name(#[trigger] kept[i]) by {
        assert(listed.contains(kept[i]));
        let k = choose|k: int| 0 <= k < listed.len() && listed[k] == kept[i];
        assert(is_token(listed[k]));
    }
}

/// Whether `name` is one of the reserved names.
pub fn name_is_reserved(name: &str) -> (r: bool)
    ensures
        r == is_reserved(name@),
{
    proof {
        reveal_strlit("postgres");
        reveal_strlit("template0");
        reveal_strlit("template1");
    }
    assert("postgres"@ =~= seq!['p', 'o', 's', 't', 'g', 'r', 'e', 's']);
    assert("template0"@ =~= seq!['t', 'e', 'm', 'p', 'l', 'a', 't', 'e', '0']);
    assert("template1"@ =~= seq!['t', 'e', 'm', 'p', 'l', 'a', 't', 'e', '1']);
    text_eq(name, "postgres") || text_eq(name, "template0") || text_eq(name, "template1")
}

/// Takes the reserved names out of `names` and keeps the order of the rest.
pub fn exclude_reserved(names: Vec<String>) -> (kept: Vec<String>)
    ensures
        kept.deep_view() == without_reserved(names.deep_view()),
        forall|i: int| 0 <= i < kept.len() ==> !is_reserved(#[trigger] kept[i]@),
{
    let mut kept: Vec<String> = Vec::new();
    let mut i: usize = 0;
    assert(names.deep_view().take(0) =~= Seq::<Seq<char>>::empty());
    assert(kept.deep_view() =~= Seq::<Seq<char>>::empty());
    while i < names.len()
        invariant
            i <= names.len(),
            kept.deep_view() == without_reserved(names.deep_view().take(i as int)),
        decreases names.len() - i,
    {
        let ghost prefix = names.deep_view().take(i + 1);
        assert(prefix.drop_last() =~= names.deep_view().take(i as int));
        assert(prefix.last() == names[i as int]@);
        if !name_is_reserved(names[i].as_str()) {
            let ghost before = kept.deep_view();
            kept.push(names[i].clone());
            assert(kept.deep_view() =~= before.push(names[i as int]@));
        }
        i = i + 1;
    }
    assert(names.deep_view().take(i as int) =~= names.deep_view());
    proof {
        lemma_without_reserved(names.deep_view());
        assert forall|k: int| 0 <= k < kept.len() implies !is_reserved(#[trigger] kept[k]@) by {
            assert(kept.deep_view()[k] == kept[k]@);
        }
    }
    kept
}

/// Reads the names out of the server's listing, reserved ones included.
pub fn parse_listing(listing: &str) -> (names: Vec<String>)
    ensures
        names.deep_view() == listed_names(listing@),
{
    let chars = chars_of(listing);
    let len: usize = chars.len();
    let mut names: Vec<String> = Vec::new();
    let mut i: usize = 0;
    assert(names.deep_view() =~= Seq::<Seq<char>>::empty());
    while i < len
        invariant
            i <= len,
            len == chars.len(),
            chars@ == listing@,
            names.deep_view() + names_from(listing@, i as int) == listed_names(listing@),
        decreases len - i,
    {
        let at_start: bool = i == 0 || chars[i - 1] == '\n';
        if at_start && chars[i] == ' ' && i + 1 < len && !char_is_whitespace(chars[i + 1]) {
            let mut end: usize = i + 1;
            while end < len && !char_is_whitespace(chars[end])
                invariant
                    i + 1 <= end <= len,
                    len == chars.len(),
                    chars@ == listing@,
                    token_end(listing@, i + 1) == token_end(listing@, end as int),
                decreases len - end,
            {
                end = end + 1;
            }
            let name: String = listing.substring_char(i + 1, end).to_owned();
            assert(row_name(listing@, i as int) == Some(name@));
            let ghost before = names.deep_view();
            names.push(name);
            assert(names.deep_view() =~= before.push(name@));
            assert(before.push(name@) + names_from(listing@, i + 1) =~= before + (seq![name@]
                + names_from(listing@, i + 1)));
        } else {
            assert(row_name(listing@, i as int) is None);
        }
        i = i + 1;
    }
    assert(names.deep_view() + Seq::<Seq<char>>::empty() =~= names.deep_view());
    names
}

/// Reads the databases to back up out of the server's listing: the names in
/// its rows, in their order, without the reserved ones.
pub fn parse_database_list(listing: &str) -> (names: Vec<String>)
    ensures
        names.deep_view() == database_names(listing@),
        forall|i: int| 0 <= i < names.len() ==> is_database_name(#[trigger] names[i]@),
{
    let names = exclude_reserved(parse_listing(listing));
    proof {
        lemma_listing_excludes_reserved(listing@);
        let listed = database_names(listing@);
        assert forall|k: int| 0 <= k < names.len() implies is_database_name(#[trigger] names[k]@) by {
            assert(names.deep_view()[k] == names[k]@);
            assert(is_database_name(listed[k]));
        }
    }
    names
}

} // verus!
