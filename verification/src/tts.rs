//! The narration: the script read aloud, how it is cut into pieces for the
//! speech service, and which voice reads it.
//!
//! Talking to the speech service and writing the audio file are done by the
//! application.

use vstd::prelude::*;
use crate::text::{
    lemma_split_avoids, lemma_trim_avoids, lemma_trim_ends, lemma_trim_fixed, chars_of, join, matches_at, split, split_chars, string_of, string_views, trim, trim_chars,
    views, join_strings,
};

verus! {

/// Builds the narration script from its lines, read one after another with
/// a sentence break (". ") between them. Numbers (temperatures, percentages)
/// are already part of each line.
pub fn build_script(lines: &[String]) -> (r: String)
    ensures
        r@ == join(string_views(lines@), ". "@),
{
    join_strings(lines, ". ")
}

/// The trimmed, non-empty pieces of `parts`, in order.
pub open spec fn nonblank_trimmed(parts: Seq<Seq<char>>) -> Seq<Seq<char>>
    decreases parts.len(),
{
    if parts.len() == 0 {
        Seq::empty()
    } else {
        let rest = nonblank_trimmed(parts.drop_last());
        let t = trim(parts.last());
        if t.len() > 0 {
            rest.push(t)
        } else {
            rest
        }
    }
}

/// The pieces of a script sent to the speech service one at a time: its
/// sentences split at '.', trimmed, the empty ones left out.
pub open spec fn narration_chunks(script: Seq<char>) -> Seq<Seq<char>> {
    nonblank_trimmed(split(script, '.'))
}

/// The pieces sent to the speech service are never empty, have no white
/// space at either end, and hold no '.'.
pub proof fn lemma_narration_chunks_clean(script: Seq<char>)
    ensures
        forall|k: int|
            0 <= k < narration_chunks(script).len() ==> {
                let c = #[trigger] narration_chunks(script)[k];
                &&& c.len() > 0
                &&& trim(c) == c
                &&& forall|i: int| 0 <= i < c.len() ==> c[i] != '.'
            },
{
    lemma_split_avoids(script, '.');
    lemma_nonblank_trimmed_clean(split(script, '.'));
}

proof fn lemma_nonblank_trimmed_clean(parts: Seq<Seq<char>>)
    requires
        forall|k: int, i: int| 0 <= k < parts.len() && 0 <= i < parts[k].len() ==> #[trigger] parts[k][i] != '.',
    ensures
        forall|k: int|
            0 <= k < nonblank_trimmed(parts).len() ==> {
                let c = #[trigger] nonblank_trimmed(parts)[k];
                &&& c.len() > 0
                &&& trim(c) == c
                &&& forall|i: int| 0 <= i < c.len() ==> c[i] != '.'
            },
    decreases parts.len(),
{
    if parts.len() > 0 {
        let rest = parts.drop_last();
        assert forall|k: int, i: int| 0 <= k < rest.len() && 0 <= i < rest[k].len() implies #[trigger] rest[k][i] != '.' by {
            assert(rest[k] == parts[k]);
            assert(parts[k][i] != '.');
        }
        lemma_nonblank_trimmed_clean(rest);
        let last = parts.last();
        let t = trim(last);
        assert forall|i: int| 0 <= i < last.len() implies last[i] != '.' by {
            assert(parts[parts.len() - 1][i] != '.');
        }
        lemma_trim_avoids(last, '.');
        lemma_trim_ends(last);
        if t.len() > 0 {
            lemma_trim_fixed(t);
        }
        let r = nonblank_trimmed(parts);
        let rr = nonblank_trimmed(rest);
        assert forall|k: int| 0 <= k < r.len() implies {
            let c = #[trigger] r[k];
            &&& c.len() > 0
            &&& trim(c) == c
            &&& forall|i: int| 0 <= i < c.len() ==> c[i] != '.'
        } by {
            if k < rr.len() {
                assert(r[k] == rr[k]);
            } else {
                assert(r[k] == t);
            }
        }
    }
}

/// Cuts `script` into the pieces that are synthesized one at a time.
pub fn split_narration(script: &str) -> (r: Vec<String>)
    ensures
        string_views(r@) == narration_chunks(script@),
{
    let chars = chars_of(script);
    let parts = split_chars(&chars, '.');
    let ghost all = views(parts@);
    let mut r: Vec<String> = Vec::new();
    for i in 0..parts.len()
        invariant
            all == views(parts@),
            all == split(script@, '.'),
            string_views(r@) == nonblank_trimmed(all.take(i as int)),
    {
        let t = trim_chars(&parts[i]);
        assert(all.take(i + 1).drop_last() =~= all.take(i as int));
        assert(all.take(i + 1).last() == parts@[i as int]@);
        if t.len() > 0 {
            let ghost before = r@;
            r.push(string_of(&t));
            assert(string_views(r@) =~= string_views(before).push(t@));
        }
    }
    assert(all.take(parts.len() as int) =~= all);
    r
}

/// Whether `sub` occurs somewhere in `s`.
pub open spec fn contains(s: Seq<char>, sub: Seq<char>) -> bool {
    exists|i: int| 0 <= i <= s.len() - sub.len() && #[trigger] s.subrange(i, i + sub.len()) == sub
}

/// Whether `sub` occurs somewhere in `s`.
pub fn contains_text(s: &str, sub: &str) -> (r: bool)
    ensures
        r == contains(s@, sub@),
{
    let c = chars_of(s);
    let p = chars_of(sub);
    if p.len() == 0 {
        assert(s@.subrange(0, 0 + sub@.len() as int) =~= sub@);
        return true;
    }
    for i in 0..c.len()
        invariant
            c@ == s@,
            p@ == sub@,
            p.len() > 0,
            forall|j: int|
                0 <= j < i && j <= c.len() - p.len() ==> #[trigger] c@.subrange(j, j + p.len()) != p@,
    {
        if matches_at(&c, i, &p) {
            return true;
        }
    }
    false
}

/// The locale of the voices that can read the script.
pub const KANNADA_LOCALE: &'static str = "kn-IN";

/// The preferred (female) Kannada voice.
pub const KANNADA_FEMALE_VOICE_HINT: &'static str = "SapnaNeural";

/// A name of the preferred Kannada voice.
pub open spec fn is_preferred_voice(name: Seq<char>) -> bool {
    contains(name, KANNADA_LOCALE@) && contains(name, KANNADA_FEMALE_VOICE_HINT@)
}

/// A name of any Kannada voice.
pub open spec fn is_kannada_voice(name: Seq<char>) -> bool {
    contains(name, KANNADA_LOCALE@)
}

/// `r` is the first index of `names` that satisfies the voice test
/// (`preferred` or any Kannada voice), or `None` when no name does.
pub open spec fn first_voice(names: Seq<Seq<char>>, preferred: bool, r: Option<usize>) -> bool {
    match r {
        Some(i) => {
            &&& i < names.len()
            &&& (if preferred { is_preferred_voice(names[i as int]) } else { is_kannada_voice(names[i as int]) })
            &&& forall|j: int|
                0 <= j < i ==> !(if preferred { is_preferred_voice(#[trigger] names[j]) } else { is_kannada_voice(names[j]) })
        },
        None => forall|j: int|
            0 <= j < names.len() ==> !(if preferred { is_preferred_voice(#[trigger] names[j]) } else { is_kannada_voice(names[j]) }),
    }
}

/// The voice that reads the script: the first whose name holds both the
/// Kannada locale and the preferred voice, else the first Kannada voice.
pub open spec fn voice_choice(names: Seq<Seq<char>>, r: Option<usize>) -> bool {
    if exists|j: int| 0 <= j < names.len() && is_preferred_voice(#[trigger] names[j]) {
        first_voice(names, true, r)
    } else {
        first_voice(names, false, r)
    }
}

fn first_voice_index(names: &[String], preferred: bool) -> (r: Option<usize>)
    ensures
        first_voice(string_views(names@), preferred, r),
{
    let ghost all = string_views(names@);
    for i in 0..names.len()
        invariant
            all == string_views(names@),
            forall|j: int|
                0 <= j < i ==> !(if preferred { is_preferred_voice(#[trigger] all[j]) } else { is_kannada_voice(all[j]) }),
    {
        let name = names[i].as_str();
        assert(all[i as int] == name@);
        let locale = contains_text(name, KANNADA_LOCALE);
        let found = if preferred {
            locale && contains_text(name, KANNADA_FEMALE_VOICE_HINT)
        } else {
            locale
        };
        if found {
            return Some(i);
        }
    }
    None
}

/// Picks the voice, by name, from the voices that the speech service lists.
pub fn choose_voice(names: &[String]) -> (r: Option<usize>)
    ensures
        voice_choice(string_views(names@), r),
{
    let ghost all = string_views(names@);
    let preferred = first_voice_index(names, true);
    match preferred {
        Some(i) => Some(i),
        None => first_voice_index(names, false),
    }
}

/// Audio files smaller than this are taken to be empty or corrupted.
pub const MIN_AUDIO_BYTES: u64 = 2048;

/// Whether a synthesized audio file of `len` bytes is plausible.
pub fn audio_size_plausible(len: u64) -> (r: bool)
    ensures
        r == (len >= MIN_AUDIO_BYTES),
{
    len >= MIN_AUDIO_BYTES
}

} // verus!
