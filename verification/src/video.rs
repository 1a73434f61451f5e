//! Checking the merged MP4: the stream listing that `ffprobe` prints
//! (`codec_type,duration` per line) must show a video stream and an audio
//! stream, each with a non-zero duration.
//!
//! Running `ffmpeg` and `ffprobe` is done by the application.

use vstd::prelude::*;
use crate::text::{chars_of, is_ascii_digit, split, split_chars, starts_with, starts_with_chars, views};

verus! {

/// The stream an MP4 lacks (absent, or listed without a non-zero duration).
#[derive(Debug, Clone, Copy, PartialEq, Eq, Structural)]
pub enum MissingStream {
    Video,
    Audio,
}

/// A line as `str::lines` yields it: without a `\r` before the line break.
pub open spec fn without_cr(line: Seq<char>) -> Seq<char> {
    if line.len() > 0 && line.last() == '\r' {
        line.drop_last()
    } else {
        line
    }
}

/// A duration field that `ffprobe` prints as a decimal number ("12.040000")
/// and that is not zero: digits with at most one '.', at least one digit
/// other than '0'. A missing duration ("" or "N/A") is not one.
pub open spec fn is_nonzero_duration(f: Seq<char>) -> bool {
    &&& forall|i: int| 0 <= i < f.len() ==> is_ascii_digit(#[trigger] f[i]) || f[i] == '.'
    &&& forall|i: int, j: int| 0 <= i < j < f.len() && #[trigger] f[i] == '.' ==> #[trigger] f[j] != '.'
    &&& exists|i: int| 0 <= i < f.len() && '1' <= #[trigger] f[i] <= '9'
}

/// A listing line for a stream of `kind` with a non-zero duration:
/// "<kind>,<duration>".
pub open spec fn is_stream_line(line: Seq<char>, kind: Seq<char>) -> bool {
    let l = without_cr(line);
    starts_with(l, kind + ","@) && is_nonzero_duration(l.skip(kind.len() as int + 1))
}

/// Whether `listing` has a line for a stream of `kind` with a non-zero duration.
pub open spec fn lists_stream(listing: Seq<char>, kind: Seq<char>) -> bool {
    exists|i: int|
        0 <= i < split(listing, '\n').len() && is_stream_line(#[trigger] split(listing, '\n')[i], kind)
}

/// What the listing says of the file: fine, or the first stream missing.
pub open spec fn probe_verdict(listing: Seq<char>) -> Result<(), MissingStream> {
    if !lists_stream(listing, "video"@) {
        Err(MissingStream::Video)
    } else if !lists_stream(listing, "audio"@) {
        Err(MissingStream::Audio)
    } else {
        Ok(())
    }
}

/// Whether the characters of `line` from `start` on form a non-zero duration.
fn nonzero_duration_from(line: &Vec<char>, start: usize, end: usize) -> (r: bool)
    requires
        start <= end <= line.len(),
    ensures
        r == is_nonzero_duration(line@.subrange(start as int, end as int)),
{
    let ghost f = line@.subrange(start as int, end as int);
    let mut dots: usize = 0;
    let mut nonzero = false;
    let mut i = start;
    while i < end
        invariant
            start <= i <= end <= line.len(),
            f == line@.subrange(start as int, end as int),
            forall|k: int| 0 <= k < i - start ==> is_ascii_digit(#[trigger] f[k]) || f[k] == '.',
            dots <= 1,
            dots == 0 ==> forall|k: int| 0 <= k < i - start ==> #[trigger] f[k] != '.',
            dots == 1 ==> exists|k: int| 0 <= k < i - start && #[trigger] f[k] == '.',
            forall|a: int, b: int| 0 <= a < b < i - start && #[trigger] f[a] == '.' ==> #[trigger] f[b] != '.',
            nonzero == exists|k: int| 0 <= k < i - start && '1' <= #[trigger] f[k] <= '9',
        decreases end - i,
    {
        let c = line[i];
        assert(f[i - start] == c);
        if c == '.' {
            if dots == 1 {
                let ghost k = choose|k: int| 0 <= k < i - start && #[trigger] f[k] == '.';
                assert(f[k] == '.' && f[i - start] == '.');
                return false;
            }
            dots = 1;
        } else if !('0' <= c && c <= '9') {
            return false;
        } else if c != '0' {
            nonzero = true;
        }
        i = i + 1;
    }
    nonzero
}

fn stream_line(line: &Vec<char>, kind: &str) -> (r: bool)
    ensures
        r == is_stream_line(line@, kind@),
{
    let end = if line.len() > 0 && line[line.len() - 1] == '\r' {
        line.len() - 1
    } else {
        line.len()
    };
    let ghost l = without_cr(line@);
    assert(l == line@.subrange(0, end as int));
    let mut prefix = chars_of(kind);
    prefix.push(',');
    assert(prefix@ == kind@ + ","@) by {
        reveal_strlit(",");
    }
    if prefix.len() > end {
        return false;
    }
    let mut k: usize = 0;
    while k < prefix.len()
        invariant
            prefix.len() <= end <= line.len(),
            l == line@.subrange(0, end as int),
            l == without_cr(line@),
            prefix@ == kind@ + ","@,
            forall|j: int| 0 <= j < k ==> line@[j] == prefix@[j],
        decreases prefix.len() - k,
    {
        if line[k] != prefix[k] {
            assert(l.take(prefix.len() as int)[k as int] != prefix@[k as int]);
            return false;
        }
        k = k + 1;
    }
    assert(l.take(prefix.len() as int) =~= prefix@);
    let r = nonzero_duration_from(line, prefix.len(), end);
    assert(l.skip(kind@.len() as int + 1) =~= line@.subrange(prefix.len() as int, end as int));
    r
}

fn any_stream_line(lines: &Vec<Vec<char>>, kind: &str) -> (r: bool)
    ensures
        r == exists|i: int| 0 <= i < lines@.len() && is_stream_line(#[trigger] views(lines@)[i], kind@),
{
    for i in 0..lines.len()
        invariant
            forall|j: int| 0 <= j < i ==> !is_stream_line(#[trigger] views(lines@)[j], kind@),
    {
        assert(views(lines@)[i as int] == lines@[i as int]@);
        if stream_line(&lines[i], kind) {
            return true;
        }
    }
    false
}

/// Reads the `ffprobe` stream listing (`codec_type,duration` per line) of
/// a merged MP4: it must list a video stream and an audio stream, each with
/// a non-zero duration.
pub fn check_probe_output(listing: &str) -> (r: Result<(), MissingStream>)
    ensures
        r == probe_verdict(listing@),
{
    let chars = chars_of(listing);
    let lines = split_chars(&chars, '\n');
    let has_video = any_stream_line(&lines, "video");
    let has_audio = any_stream_line(&lines, "audio");
    assert(views(lines@).len() == lines@.len());
    if !has_video {
        Err(MissingStream::Video)
    } else if !has_audio {
        Err(MissingStream::Audio)
    } else {
        Ok(())
    }
}

} // verus!
