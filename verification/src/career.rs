//! Deriving the formatted career identifier appended to a student name.
//!
//! For a name with an interior space, the identifier is the lowercased first
//! character of the first token followed by the fully lowercased remainder
//! after that space, appended to the name as `" (<initial><remainder>)"`.
//! A name without an interior space is undefined input for the derivation
//! and is reported as an explicit error, never silently skipped.

use vstd::prelude::*;

verus! {

/// ASCII lowercasing of one character: `'A'` to `'Z'` shift down by 32 code
/// points; every other character is unchanged.
pub open spec fn lower_char(c: char) -> char {
    if 'A' <= c && c <= 'Z' {
        (((c as u32) + 32) as u8) as char
    } else {
        c
    }
}

/// ASCII lowercasing of a whole character sequence, character by character.
pub open spec fn lower_chars(s: Seq<char>) -> Seq<char> {
    s.map_values(|c: char| lower_char(c))
}

/// `i` is the position of the first space of `s`.
pub open spec fn is_first_space(s: Seq<char>, i: int) -> bool {
    &&& 0 <= i < s.len()
    &&& s[i] == ' '
    &&& forall|j: int| 0 <= j < i ==> s[j] != ' '
}

/// `s` splits into a first token and a remainder: it has a first space and
/// that space is interior, not the leading character.
pub open spec fn has_split(s: Seq<char>) -> bool {
    exists|i: int| is_first_space(s, i) && 1 <= i
}

/// The position of the first space of `s`.
pub open spec fn first_space(s: Seq<char>) -> int {
    choose|i: int| is_first_space(s, i)
}

/// The identifier suffix derived from a splittable name: a space, an opening
/// parenthesis, the lowercased first character, the lowercased remainder
/// after the first space, and a closing parenthesis.
pub open spec fn career_id(s: Seq<char>) -> Seq<char>
    recommends
        has_split(s),
{
    seq![' ', '(', lower_char(s[0])] + lower_chars(s.skip(first_space(s) + 1)) + seq![')']
}

/// A splittable name with its identifier suffix appended to it.
pub open spec fn with_career_id(s: Seq<char>) -> Seq<char>
    recommends
        has_split(s),
{
    s + career_id(s)
}

/// At most one position is the first space of a sequence.
pub proof fn lemma_first_space_unique(s: Seq<char>, i: int, j: int)
    requires
        is_first_space(s, i),
        is_first_space(s, j),
    ensures
        i == j,
{
    if i < j {
        assert(s[i] != ' ');
    }
    if j < i {
        assert(s[j] != ' ');
    }
}

/// Relies on `String::push`: appends the given character to the end of the
/// string.
#[verifier::external_body]
fn push_char(s: &mut String, c: char)
    ensures
        final(s)@ == old(s)@.push(c),
{
    s.push(c);
}

/// Lowercases one character, exactly as [`lower_char`] says.
pub fn lower_char_exec(c: char) -> (r: char)
    ensures
        r == lower_char(c),
{
    let u = c as u32;
    if 65 <= u && u <= 90 {
        ((u + 32) as u8) as char
    } else {
        c
    }
}

/// The position of the first space of `name`, if it has one.
fn find_first_space(name: &str) -> (r: Option<usize>)
    ensures
        r matches Some(i) ==> is_first_space(name@, i as int),
        r is None ==> forall|j: int| 0 <= j < name@.len() ==> name@[j] != ' ',
{
    let len = name.unicode_len();
    let mut i: usize = 0;
    while i < len
        invariant
            i <= len,
            len == name@.len(),
            forall|j: int| 0 <= j < i ==> name@[j] != ' ',
        decreases len - i,
    {
        if name.get_char(i) == ' ' {
            return Some(i);
        }
        i = i + 1;
    }
    None
}

/// Derives the identifier suffix for `name`: `Some` with exactly
/// [`career_id`] of the name when the name has an interior space, `None`
/// when it has none.
pub fn derive_career_id(name: &str) -> (r: Option<String>)
    ensures
        r is Some <==> has_split(name@),
        r matches Some(id) ==> id@ == career_id(name@),
{
    let len = name.unicode_len();
    let found = find_first_space(name);
    if let Some(i) = found {
        if i >= 1 {
            proof {
                assert(has_split(name@)) by {
                    assert(is_first_space(name@, i as int) && 1 <= i as int);
                }
                assert(is_first_space(name@, first_space(name@)));
                lemma_first_space_unique(name@, first_space(name@), i as int);
            }
            let mut id = String::from_str(" (");
            proof {
                reveal_strlit(" (");
            }
            push_char(&mut id, lower_char_exec(name.get_char(0)));
            proof {
                let empty_rest = name@.subrange(i as int + 1, i as int + 1);
                assert(id@ =~= seq![' ', '(', lower_char(name@[0])] + lower_chars(empty_rest));
            }
            let mut j: usize = i + 1;
            while j < len
                invariant
                    i + 1 <= j <= len,
                    len == name@.len(),
                    id@ == seq![' ', '(', lower_char(name@[0])] + lower_chars(
                        name@.subrange(i as int + 1, j as int),
                    ),
                decreases len - j,
            {
                push_char(&mut id, lower_char_exec(name.get_char(j)));
                proof {
                    assert(name@.subrange(i as int + 1, j as int + 1) =~= name@.subrange(
                        i as int + 1,
                        j as int,
                    ).push(name@[j as int]));
                    assert(id@ =~= seq![' ', '(', lower_char(name@[0])] + lower_chars(
                        name@.subrange(i as int + 1, j as int + 1),
                    ));
                }
                j = j + 1;
            }
            id.append(")");
            proof {
                reveal_strlit(")");
                assert(name@.skip(i as int + 1) =~= name@.subrange(i as int + 1, len as int));
                assert(id@ =~= career_id(name@));
            }
            Some(id)
        } else {
            proof {
                if has_split(name@) {
                    let k = choose|k: int| is_first_space(name@, k) && 1 <= k;
                    assert(name@[i as int] != ' ');
                }
            }
            None
        }
    } else {
        proof {
            if has_split(name@) {
                let k = choose|k: int| is_first_space(name@, k) && 1 <= k;
                assert(name@[k] == ' ');
            }
        }
        None
    }
}

} // verus!
