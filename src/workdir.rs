//! Choosing the working directory of a run.

use vstd::prelude::*;
use crate::paths::{join, joined};

verus! {

/// `c` is a lowercase hexadecimal digit.
pub open spec fn is_lower_hex(c: char) -> bool {
    ('0' <= c && c <= '9') || ('a' <= c && c <= 'f')
}

/// `s` has the hyphenated form of a 128-bit identifier:
/// `xxxxxxxx-xxxx-xxxx-xxxx-xxxxxxxxxxxx` in lowercase hexadecimal.
pub open spec fn is_hyphenated_id(s: Seq<char>) -> bool {
    s.len() == 36 && forall|i: int|
        0 <= i < 36 ==> if i == 8 || i == 13 || i == 18 || i == 23 {
            #[trigger] s[i] == '-'
        } else {
            is_lower_hex(s[i])
        }
}

/// Relies on `uuid::Uuid::new_v4` for a random identifier, and on the
/// `Display` impl of `uuid::Uuid`, which writes the hyphenated lowercase form.
#[verifier::external_body]
fn random_identifier() -> (r: String)
    ensures
        is_hyphenated_id(r@),
{
    uuid::Uuid::new_v4().to_string()
}

/// The working directory: `current` itself, or the subdirectory `identifier`
/// of it in clean mode.
pub open spec fn spec_working_directory(clean: bool, current: Seq<char>, identifier: Seq<char>) -> Seq<
    char,
> {
    if clean {
        joined(current, identifier)
    } else {
        current
    }
}

/// The working directory for a run, given the directory the run starts in and,
/// for clean mode, the identifier that names the fresh subdirectory.
pub fn working_directory(clean: bool, current: &str, identifier: &str) -> (r: String)
    ensures
        r@ == spec_working_directory(clean, current@, identifier@),
{
    if clean {
        join(current, identifier)
    } else {
        current.to_owned()
    }
}

/// Resolves the working directory for a run starting in `current`: in clean
/// mode a subdirectory named by a fresh random identifier, else `current`.
/// The directory is not created.
pub fn resolve_working_directory(clean: bool, current: &str) -> (r: String)
    ensures
        !clean ==> r@ == current@,
        clean ==> exists|id: Seq<char>|
            is_hyphenated_id(id) && r@ == #[trigger] joined(current@, id),
{
    if clean {
        let id = random_identifier();
        let r = working_directory(true, current, id.as_str());
        proof {
            assert(is_hyphenated_id(id@) && r@ == joined(current@, id@));
        }
        r
    } else {
        working_directory(false, current, "")
    }
}

/// Clean-mode directories made from two different identifiers are different,
/// and neither is the starting directory itself.
pub proof fn lemma_clean_directories_distinct(current: Seq<char>, id1: Seq<char>, id2: Seq<char>)
    requires
        is_hyphenated_id(id1),
        is_hyphenated_id(id2),
        id1 != id2,
    ensures
        spec_working_directory(true, current, id1) != spec_working_directory(true, current, id2),
        spec_working_directory(true, current, id1) != current,
{
    let d1 = joined(current, id1);
    let d2 = joined(current, id2);
    let k = d1.len() - 36;
    assert(d1.subrange(k, d1.len() as int) =~= id1);
    assert(d2.subrange(k, d2.len() as int) =~= id2);
    assert(d1.len() == d2.len());
}

} // verus!
