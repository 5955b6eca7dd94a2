//! Case-insensitive string-similarity scoring used to disambiguate a user's
//! guess at a server name.
//!
//! The underlying metric is the normalized Damerau-Levenshtein similarity:
//! `1 - d / m`, where `d` is the edit distance between the lowercased texts
//! and `m` the character length of the longer of the two (two empty texts
//! count as identical). A guess is accepted when its similarity exceeds
//! three quarters. All comparisons here are exact rational arithmetic on
//! integers; no rounding is involved.

use vstd::prelude::*;

verus! {

/// Texts whose lowercase form is longer than this take no part in scoring
/// (their score is treated as unbeatably bad). The bound keeps the distance
/// computation, which allocates a matrix indexed by the product of the two
/// lengths, away from arithmetic overflow. Both chat messages and server
/// names are orders of magnitude shorter.
pub const MAX_SCORED_LEN: usize = 0x1000_0000;

/// What `str::to_lowercase` returns for a given character sequence.
pub uninterp spec fn lower_of(s: Seq<char>) -> Seq<char>;

/// What `strsim::damerau_levenshtein` returns for a given pair of character
/// sequences.
pub uninterp spec fn dl_distance(a: Seq<char>, b: Seq<char>) -> usize;

/// Relies on str::to_lowercase: the result is the Unicode lowercase mapping
/// of the input, a function of the characters alone.
#[verifier::external_body]
fn lowercase(s: &str) -> (r: String)
    ensures
        r@ == lower_of(s@),
{
    s.to_lowercase()
}

/// Relies on strsim::damerau_levenshtein: the unrestricted
/// Damerau-Levenshtein edit distance between the two character sequences, a
/// function of the arguments alone. Long inputs are excluded because the
/// crate sizes its distance matrix by the product of the two lengths.
#[verifier::external_body]
fn edit_distance(a: &str, b: &str) -> (r: usize)
    requires
        a@.len() <= MAX_SCORED_LEN,
        b@.len() <= MAX_SCORED_LEN,
    ensures
        r == dl_distance(a@, b@),
{
    strsim::damerau_levenshtein(a, b)
}

/// The similarity score of one candidate name against a guess, in a form
/// that admits exact comparison: `One` stands for similarity 1 (two empty
/// lowercased texts), `Ratio { d, m }` for `1 - d / m`, and `Out` for a text
/// over [`MAX_SCORED_LEN`], which never matches and never wins.
#[derive(Clone, Copy, Debug, PartialEq, Eq, Structural)]
pub enum Score {
    Out,
    One,
    Ratio { d: usize, m: usize },
}

/// The score of candidate name `name` against the already-lowercased guess
/// `gl`.
pub open spec fn spec_score(gl: Seq<char>, name: Seq<char>) -> Score {
    let nl = lower_of(name);
    if gl.len() > MAX_SCORED_LEN || nl.len() > MAX_SCORED_LEN {
        Score::Out
    } else if gl.len() == 0 && nl.len() == 0 {
        Score::One
    } else {
        Score::Ratio {
            d: dl_distance(gl, nl),
            m: if gl.len() >= nl.len() {
                gl.len() as usize
            } else {
                nl.len() as usize
            },
        }
    }
}

/// Strict "scores higher than" on similarity scores. `Ratio` values compare
/// as the rationals `1 - d / m` (by cross multiplication); `One` is the
/// maximum; `Out` loses to everything.
pub open spec fn spec_score_gt(s1: Score, s2: Score) -> bool {
    match s1 {
        Score::Out => false,
        Score::One => match s2 {
            Score::Out => true,
            Score::One => false,
            Score::Ratio { d, m } => d > 0,
        },
        Score::Ratio { d: d1, m: m1 } => match s2 {
            Score::Out => true,
            Score::One => false,
            Score::Ratio { d: d2, m: m2 } => d1 * m2 < d2 * m1,
        },
    }
}

/// Whether a score exceeds the fixed acceptance threshold of 3/4.
pub open spec fn spec_accepted(s: Score) -> bool {
    match s {
        Score::Out => false,
        Score::One => true,
        Score::Ratio { d, m } => 4 * d < m,
    }
}

/// Lowercases a guess once, so that every candidate can be scored against
/// it.
pub fn lower_guess(guess: &str) -> (r: String)
    ensures
        r@ == lower_of(guess@),
{
    lowercase(guess)
}

/// Scores candidate name `name` against the lowercased guess `gl`.
pub fn score_against(gl: &String, name: &str) -> (s: Score)
    ensures
        s == spec_score(gl@, name@),
{
    let nl = lowercase(name);
    let gl_len = gl.as_str().unicode_len();
    let nl_len = nl.as_str().unicode_len();
    if gl_len > MAX_SCORED_LEN || nl_len > MAX_SCORED_LEN {
        Score::Out
    } else if gl_len == 0 && nl_len == 0 {
        Score::One
    } else {
        let d = edit_distance(gl.as_str(), nl.as_str());
        let m = if gl_len >= nl_len {
            gl_len
        } else {
            nl_len
        };
        Score::Ratio { d, m }
    }
}

/// Decides [`spec_score_gt`] on two concrete scores.
pub fn score_gt(s1: Score, s2: Score) -> (r: bool)
    ensures
        r == spec_score_gt(s1, s2),
{
    match s1 {
        Score::Out => false,
        Score::One => match s2 {
            Score::Out => true,
            Score::One => false,
            Score::Ratio { d, m: _ } => d > 0,
        },
        Score::Ratio { d: d1, m: m1 } => match s2 {
            Score::Out => true,
            Score::One => false,
            Score::Ratio { d: d2, m: m2 } => {
                let x1: u128 = d1 as u128;
                let y1: u128 = m2 as u128;
                let x2: u128 = d2 as u128;
                let y2: u128 = m1 as u128;
                proof {
                    assert(x1 * y1 <= 0xFFFF_FFFF_FFFF_FFFFu128 * 0xFFFF_FFFF_FFFF_FFFFu128)
                        by (nonlinear_arith)
                        requires
                            x1 <= 0xFFFF_FFFF_FFFF_FFFFu128,
                            y1 <= 0xFFFF_FFFF_FFFF_FFFFu128,
                    ;
                    assert(x2 * y2 <= 0xFFFF_FFFF_FFFF_FFFFu128 * 0xFFFF_FFFF_FFFF_FFFFu128)
                        by (nonlinear_arith)
                        requires
                            x2 <= 0xFFFF_FFFF_FFFF_FFFFu128,
                            y2 <= 0xFFFF_FFFF_FFFF_FFFFu128,
                    ;
                }
                x1 * y1 < x2 * y2
            },
        },
    }
}

/// Scores produced by [`spec_score`] never carry a zero normalizing
/// length: `Ratio` is only built when at least one text is non-empty.
pub open spec fn score_wf(s: Score) -> bool {
    match s {
        Score::Ratio { d: _, m } => m >= 1,
        _ => true,
    }
}

/// Every score of a candidate name against a guess is well formed.
pub proof fn lemma_spec_score_wf(gl: Seq<char>, name: Seq<char>)
    ensures
        score_wf(spec_score(gl, name)),
{
}

/// If `best` scores higher than `prev`, and `other` does not score higher
/// than `prev`, then `best` scores higher than `other`: a new maximum
/// beats everything the old maximum already dominated.
pub proof fn lemma_score_gt_dominates(best: Score, prev: Score, other: Score)
    requires
        score_wf(best),
        score_wf(prev),
        score_wf(other),
        spec_score_gt(best, prev),
        !spec_score_gt(other, prev),
    ensures
        spec_score_gt(best, other),
{
    if let Score::Ratio { d: db, m: mb } = best {
        if let Score::Ratio { d: dp, m: mp } = prev {
            if let Score::Ratio { d: dj, m: mj } = other {
                assert(db * mj < dj * mb) by (nonlinear_arith)
                    requires
                        db * mp < dp * mb,
                        !(dj * mp < dp * mj),
                        mb >= 1,
                        mp >= 1,
                        mj >= 1,
                        db >= 0,
                        dp >= 0,
                        dj >= 0,
                ;
            }
            if other is One {
                assert(false) by (nonlinear_arith)
                    requires
                        db * mp < dp * mb,
                        dp == 0,
                        mb >= 1,
                        mp >= 1,
                        db >= 0,
                ;
            }
        }
    }
    if best is One {
        if let Score::Ratio { d: dp, m: mp } = prev {
            if let Score::Ratio { d: dj, m: mj } = other {
                if dj == 0 {
                    assert(0 * mp < dp * mj ==> false) by (nonlinear_arith)
                        requires
                            !(dj * mp < dp * mj),
                            dj == 0,
                    ;
                    assert(dp * mj > 0) by (nonlinear_arith)
                        requires
                            dp > 0,
                            mj >= 1,
                    ;
                }
            }
        }
    }
}

/// Decides [`spec_accepted`] on a concrete score.
pub fn accepted(s: Score) -> (r: bool)
    ensures
        r == spec_accepted(s),
{
    match s {
        Score::Out => false,
        Score::One => true,
        Score::Ratio { d, m } => {
            if m == 0 {
                false
            } else {
                d <= (m - 1) / 4
            }
        },
    }
}

} // verus!
