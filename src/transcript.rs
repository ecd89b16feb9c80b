//! Assembling the text that the transcription engine returns in segments.
use vstd::prelude::*;

verus! {

/// A text with leading and trailing whitespace removed, as the standard
/// library computes it.
pub uninterp spec fn trimmed_of(s: Seq<char>) -> Seq<char>;

/// Relies on `str::trim`: the result depends on the characters alone, and an
/// empty text stays empty.
#[verifier::external_body]
fn trim_text(s: &str) -> (r: String)
    ensures
        r@ == trimmed_of(s@),
        s@.len() == 0 ==> r@.len() == 0,
{
    s.trim().to_string()
}

/// Relies on `String::push_str`: appends `t` to `s`.
#[verifier::external_body]
fn append_text(s: &mut String, t: &str)
    ensures
        final(s)@ == old(s)@ + t@,
{
    s.push_str(t)
}

/// The segments written one after another.
pub open spec fn joined(segments: Seq<Seq<char>>) -> Seq<char>
    decreases segments.len(),
{
    if segments.len() == 0 {
        Seq::empty()
    } else {
        joined(segments.drop_last()) + segments.last()
    }
}

/// The transcript of an utterance: its segments in order, joined without a
/// separator, with surrounding whitespace removed.
pub fn assemble_transcript(segments: &Vec<String>) -> (r: String)
    ensures
        r@ == trimmed_of(joined(segments@.map_values(|s: String| s@))),
{
    let ghost parts = segments@.map_values(|s: String| s@);
    let mut text = String::new();
    let mut i: usize = 0;
    while i < segments.len()
        invariant
            i <= segments@.len(),
            parts == segments@.map_values(|s: String| s@),
            text@ == joined(parts.take(i as int)),
        decreases segments@.len() - i,
    {
        append_text(&mut text, segments[i].as_str());
        proof {
            assert(parts.take(i + 1).drop_last() =~= parts.take(i as int));
        }
        i = i + 1;
    }
    proof {
        assert(parts.take(i as int) =~= parts);
    }
    trim_text(text.as_str())
}

} // verus!
