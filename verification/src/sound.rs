//! Choosing the sound a redemption triggers: matching a reward title against
//! the available sound names, case-insensitively, and naming the file the
//! match plays from. Reading the sound directory and playing audio are the
//! caller's business; this module only decides.

use vstd::prelude::*;
use crate::text::str_eq;

verus! {

/// What case folding yields on a character sequence. The folding depends on
/// the characters alone.
pub uninterp spec fn lower_of(s: Seq<char>) -> Seq<char>;

/// Relies on `str::to_lowercase`: the lower-case form is a function of the
/// characters alone, named [`lower_of`].
#[verifier::external_body]
fn lowercase(s: &str) -> (r: String)
    ensures
        r@ == lower_of(s@),
{
    s.to_lowercase()
}

/// Finds the first sound name whose lower-case form equals the reward
/// title's lower-case form, and returns its position.
pub fn find_matching_sound(names: &Vec<String>, reward_title: &str) -> (r: Option<usize>)
    ensures
        match r {
            Some(i) => i < names@.len() && lower_of(names@[i as int]@) == lower_of(reward_title@)
                && (forall|j: int|
                    0 <= j < i ==> lower_of(names@[j]@) != lower_of(reward_title@)),
            None => forall|j: int|
                0 <= j < names@.len() ==> lower_of(names@[j]@) != lower_of(reward_title@),
        },
{
    let lower_reward = lowercase(reward_title);
    let mut i: usize = 0;
    while i < names.len()
        invariant
            i <= names@.len(),
            lower_reward@ == lower_of(reward_title@),
            forall|j: int| 0 <= j < i ==> lower_of(names@[j]@) != lower_of(reward_title@),
        decreases names@.len() - i,
    {
        let lower_name = lowercase(names[i].as_str());
        if str_eq(lower_name.as_str(), lower_reward.as_str()) {
            return Some(i);
        }
        i = i + 1;
    }
    None
}

/// The path a sound name plays from: `sounds/<name>.mp3`.
pub open spec fn spec_sound_path(name: Seq<char>) -> Seq<char> {
    "sounds/"@ + name + ".mp3"@
}

/// Builds the path a sound name plays from.
pub fn sound_file_path(name: &str) -> (r: String)
    ensures
        r@ == spec_sound_path(name@),
{
    let mut out = String::from_str("sounds/");
    out.append(name);
    out.append(".mp3");
    proof {
        assert(out@ =~= spec_sound_path(name@));
    }
    out
}

/// The position of the first `'.'` at or after `i`, or the length when none
/// follows.
pub open spec fn dot_split(s: Seq<char>, i: int) -> int
    decreases s.len() - i,
{
    if i < 0 || i >= s.len() {
        s.len() as int
    } else if s[i] == '.' {
        i
    } else {
        dot_split(s, i + 1)
    }
}

/// A file name without its extensions: everything before the first `'.'`.
pub open spec fn spec_base_name(s: Seq<char>) -> Seq<char> {
    s.take(dot_split(s, 0))
}

proof fn lemma_dot_split_range(s: Seq<char>, i: int)
    requires
        0 <= i <= s.len(),
    ensures
        i <= dot_split(s, i) <= s.len(),
    decreases s.len() - i,
{
    if i < s.len() && s[i] != '.' {
        lemma_dot_split_range(s, i + 1);
    }
}

fn dot_index(fname: &str, i: usize) -> (r: usize)
    requires
        i <= fname@.len(),
    ensures
        r == dot_split(fname@, i as int),
    decreases fname@.len() - i,
{
    if i == fname.unicode_len() {
        i
    } else if fname.get_char(i) == '.' {
        i
    } else {
        dot_index(fname, i + 1)
    }
}

/// The sound name a directory entry offers: its file name up to the first
/// `'.'`.
pub fn sound_base_name(fname: &str) -> (r: String)
    ensures
        r@ == spec_base_name(fname@),
{
    let k = dot_index(fname, 0);
    proof {
        lemma_dot_split_range(fname@, 0);
    }
    let base = fname.substring_char(0, k);
    base.to_owned()
}

} // verus!
