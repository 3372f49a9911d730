//! Word-cue highlighting and range captioning.
//!
//! A word cue is a timestamped spoken word. Given a query time, the
//! highlighter finds the currently spoken word's index so rendering
//! can style past, current and future words differently; a query in a
//! gap or outside every cue is a valid "no active word" state, not an
//! error. The scan assumes nothing about ordering: cues may be
//! unsorted or overlap slightly, and the latest matching cue wins.
use vstd::prelude::*;

verus! {

/// One timestamped spoken word.
#[derive(Clone, Debug)]
pub struct WordCue {
    pub word: String,
    pub start_ms: u64,
    pub end_ms: u64,
}

/// The cue is being spoken at `q`: its window contains `q`, both ends
/// included.
pub open spec fn cue_covers(c: WordCue, q: int) -> bool {
    c.start_ms <= q <= c.end_ms
}

/// The index of the last cue whose window covers `q`, or `None` when
/// no cue does.
pub open spec fn current_cue_index(s: Seq<WordCue>, q: int) -> Option<int>
    decreases s.len(),
{
    if s.len() == 0 {
        None
    } else if cue_covers(s.last(), q) {
        Some(s.len() - 1)
    } else {
        current_cue_index(s.drop_last(), q)
    }
}

/// What `current_cue_index` returns, spelled out: `None` exactly when
/// no cue covers `q`, and an index only of a covering cue that no
/// later cue shadows.
pub proof fn lemma_current_cue_index_properties(s: Seq<WordCue>, q: int)
    ensures
        current_cue_index(s, q) is None <==> (forall|j: int| 0 <= j < s.len() ==> !cue_covers(#[trigger] s[j], q)),
        current_cue_index(s, q) matches Some(i) ==> 0 <= i < s.len() && cue_covers(s[i], q) && (forall|j: int| i < j < s.len() ==> !cue_covers(#[trigger] s[j], q)),
    decreases s.len(),
{
    if s.len() > 0 && !cue_covers(s.last(), q) {
        let t = s.drop_last();
        lemma_current_cue_index_properties(t, q);
        match current_cue_index(s, q) {
            Option::None => {
                assert forall|j: int| 0 <= j < s.len() implies !cue_covers(#[trigger] s[j], q) by {
                    if j < s.len() - 1 {
                        assert(t[j] == s[j]);
                        assert(!cue_covers(t[j], q));
                    }
                }
            },
            Option::Some(i) => {
                assert(cue_covers(t[i], q));
                assert(t[i] == s[i]);
                assert forall|j: int| i < j < s.len() implies !cue_covers(#[trigger] s[j], q) by {
                    if j < s.len() - 1 {
                        assert(t[j] == s[j]);
                        assert(!cue_covers(t[j], q));
                    }
                }
            },
        }
        if forall|j: int| 0 <= j < s.len() ==> !cue_covers(#[trigger] s[j], q) {
            assert forall|j: int| 0 <= j < t.len() implies !cue_covers(#[trigger] t[j], q) by {
                assert(t[j] == s[j]);
            }
        }
    }
}

/// Finds the currently spoken word: the last cue covering `query_ms`.
pub fn current_index(cues: &Vec<WordCue>, query_ms: u64) -> (r: Option<usize>)
    ensures
        match r {
            Some(i) => current_cue_index(cues@, query_ms as int) == Some(i as int),
            None => current_cue_index(cues@, query_ms as int) is None,
        },
{
    let n = cues.len();
    proof {
        assert(cues@.subrange(0, n as int) =~= cues@);
    }
    let mut j = n;
    while j > 0
        invariant
            0 <= j <= n,
            n == cues@.len(),
            current_cue_index(cues@, query_ms as int) == current_cue_index(cues@.subrange(0, j as int), query_ms as int),
        decreases j,
    {
        proof {
            assert(cues@.subrange(0, j as int).last() == cues@[j - 1]);
            assert(cues@.subrange(0, j as int).drop_last() =~= cues@.subrange(0, j - 1));
        }
        let c = &cues[j - 1];
        if c.start_ms <= query_ms && query_ms <= c.end_ms {
            return Some(j - 1);
        }
        j = j - 1;
    }
    proof {
        assert(cues@.subrange(0, 0) =~= Seq::<WordCue>::empty());
    }
    None
}

/// How one word renders, relative to the currently spoken one.
#[derive(Clone, Copy, Debug, PartialEq, Eq, Structural)]
pub enum WordStyle {
    /// Already spoken: the word stands before the current index.
    Spoken,
    /// The currently spoken word.
    Active,
    /// Not yet spoken; also every word when no word is current.
    Pending,
}

pub open spec fn word_style_spec(i: int, current: Option<int>) -> WordStyle {
    match current {
        Option::None => WordStyle::Pending,
        Option::Some(c) => if i < c {
            WordStyle::Spoken
        } else if i == c {
            WordStyle::Active
        } else {
            WordStyle::Pending
        },
    }
}

/// Styles the word at `word_index` against the currently spoken
/// word's index: earlier words are spoken, the current word is
/// active, later words — and every word when none is current — are
/// pending.
pub fn word_style(word_index: usize, current: Option<usize>) -> (r: WordStyle)
    ensures
        r == word_style_spec(word_index as int, match current {
            Option::Some(c) => Option::Some(c as int),
            Option::None => Option::None,
        }),
{
    match current {
        Option::None => WordStyle::Pending,
        Option::Some(c) => if word_index < c {
            WordStyle::Spoken
        } else if word_index == c {
            WordStyle::Active
        } else {
            WordStyle::Pending
        },
    }
}

/// How many cues, from the front, have started before `limit`; the
/// count stops at the first cue that has not, whatever follows it.
pub open spec fn cue_stack_len(s: Seq<WordCue>, limit: int) -> int
    decreases s.len(),
{
    if s.len() == 0 {
        0
    } else if s[0].start_ms < limit {
        1 + cue_stack_len(s.subrange(1, s.len() as int), limit)
    } else {
        0
    }
}

/// The text of the first `n` cues, concatenated in order.
pub open spec fn stack_text(s: Seq<WordCue>, n: int) -> Seq<char>
    decreases n,
{
    if n <= 0 {
        Seq::empty()
    } else {
        stack_text(s, n - 1) + s[n - 1].word@
    }
}

/// A prefix of the cues all of whose members have started, closed by
/// the first that has not.
proof fn lemma_cue_stack_len_is(s: Seq<WordCue>, limit: int, n: int)
    requires
        0 <= n <= s.len(),
        forall|j: int| 0 <= j < n ==> (#[trigger] s[j].start_ms) < limit,
        n < s.len() ==> s[n].start_ms >= limit,
    ensures
        cue_stack_len(s, limit) == n,
    decreases s.len(),
{
    if s.len() > 0 && n > 0 {
        let tail = s.subrange(1, s.len() as int);
        assert forall|j: int| 0 <= j < n - 1 implies (#[trigger] tail[j].start_ms) < limit by {
            assert(tail[j] == s[j + 1]);
        }
        assert(n - 1 < tail.len() ==> tail[n - 1] == s[n]);
        lemma_cue_stack_len_is(tail, limit, n - 1);
    }
}

/// The cues visible at `query_ms` for range captioning: every cue
/// from the front of the list that started before `query_ms +
/// overlap_ms`, where the overlap lets the next cue join the stack
/// early. Returns their concatenated text.
pub fn cue_stack_text(cues: &Vec<WordCue>, query_ms: u64, overlap_ms: u64) -> (r: String)
    requires
        query_ms + overlap_ms <= u64::MAX,
    ensures
        r@ == stack_text(cues@, cue_stack_len(cues@, query_ms + overlap_ms)),
{
    let limit: u64 = query_ms + overlap_ms;
    let n = cues.len();
    let mut text = String::new();
    let mut i: usize = 0;
    while i < n
        invariant
            0 <= i <= n,
            n == cues@.len(),
            limit == query_ms + overlap_ms,
            forall|j: int| 0 <= j < i ==> (#[trigger] cues@[j].start_ms) < limit,
            text@ == stack_text(cues@, i as int),
        decreases n - i,
    {
        let c = &cues[i];
        if c.start_ms >= limit {
            proof {
                lemma_cue_stack_len_is(cues@, limit as int, i as int);
            }
            return text;
        }
        text.append(c.word.as_str());
        i = i + 1;
    }
    proof {
        lemma_cue_stack_len_is(cues@, limit as int, n as int);
    }
    text
}

} // verus!
