//! The note matcher: checks key-downs against the expected sequence.
use vstd::prelude::*;

verus! {

/// What one key-down meant to the matcher.
#[derive(Clone, Copy, Debug, PartialEq, Eq, Structural)]
pub enum MatchOutcome {
    /// The expected key; the cursor moved on and keys remain.
    Correct,
    /// Another key; the cursor stayed where it was.
    Incorrect,
    /// The sequence is exhausted.
    Complete,
}

/// One key-down against `scale` with the cursor at `cursor`: the new cursor
/// and the outcome.
pub open spec fn feed_step(scale: Seq<u8>, cursor: nat, key: u8) -> (nat, MatchOutcome) {
    if cursor >= scale.len() {
        (cursor, MatchOutcome::Complete)
    } else if key == scale[cursor as int] {
        if cursor + 1 == scale.len() {
            ((cursor + 1) as nat, MatchOutcome::Complete)
        } else {
            ((cursor + 1) as nat, MatchOutcome::Correct)
        }
    } else {
        (cursor, MatchOutcome::Incorrect)
    }
}

/// A run of key-downs, one after the other: the final cursor and the
/// outcome of each key.
pub open spec fn feed_run(scale: Seq<u8>, cursor: nat, keys: Seq<u8>) -> (nat, Seq<MatchOutcome>)
    decreases keys.len(),
{
    if keys.len() == 0 {
        (cursor, Seq::empty())
    } else {
        let (next, outcome) = feed_step(scale, cursor, keys[0]);
        let (last, rest) = feed_run(scale, next, keys.drop_first());
        (last, seq![outcome] + rest)
    }
}

/// The outcomes of playing the sequence without a mistake from position
/// `from` on: `Correct` for every key but the last, which is `Complete`.
pub open spec fn clean_outcomes(len: nat, from: nat) -> Seq<MatchOutcome> {
    Seq::new(
        (len - from) as nat,
        |i: int|
            if from + i + 1 == len {
                MatchOutcome::Complete
            } else {
                MatchOutcome::Correct
            },
    )
}

/// A practice run in progress: the expected sequence and the cursor on the
/// next key that the player must press.
pub struct FsCtx {
    pub scale: Vec<u8>,
    pub cursor: usize,
}

impl FsCtx {
    pub open spec fn wf(&self) -> bool {
        self.cursor <= self.scale@.len()
    }

    pub open spec fn complete(&self) -> bool {
        self.cursor == self.scale@.len()
    }

    /// A run at the start of `scale`.
    pub fn new(scale: Vec<u8>) -> (r: FsCtx)
        ensures
            r.wf(),
            r.scale@ == scale@,
            r.cursor == 0,
    {
        FsCtx { scale, cursor: 0 }
    }

    pub fn cursor(&self) -> (r: usize)
        ensures
            r == self.cursor,
    {
        self.cursor
    }

    pub fn len(&self) -> (r: usize)
        ensures
            r == self.scale@.len(),
    {
        self.scale.len()
    }

    pub fn is_complete(&self) -> (r: bool)
        requires
            self.wf(),
        ensures
            r == self.complete(),
    {
        self.cursor == self.scale.len()
    }

    /// The key that the player must press next, if any remains.
    pub fn expected_key(&self) -> (r: Option<u8>)
        requires
            self.wf(),
        ensures
            self.complete() ==> r is None,
            !self.complete() ==> r == Some(self.scale@[self.cursor as int]),
    {
        if self.cursor < self.scale.len() {
            Some(self.scale[self.cursor])
        } else {
            None
        }
    }

    /// Checks one key-down against the key under the cursor. A match moves
    /// the cursor on and gives `Correct`, or `Complete` where it reaches the
    /// end; a mismatch leaves the cursor and gives `Incorrect`. Once the
    /// sequence is exhausted every key gives `Complete`.
    pub fn feed(&mut self, key: u8) -> (r: MatchOutcome)
        requires
            old(self).wf(),
        ensures
            final(self).wf(),
            final(self).scale@ == old(self).scale@,
            (final(self).cursor as nat, r) == feed_step(old(self).scale@, old(self).cursor as nat, key),
    {
        if self.cursor >= self.scale.len() {
            MatchOutcome::Complete
        } else if key == self.scale[self.cursor] {
            self.cursor = self.cursor + 1;
            if self.cursor == self.scale.len() {
                MatchOutcome::Complete
            } else {
                MatchOutcome::Correct
            }
        } else {
            MatchOutcome::Incorrect
        }
    }
}

/// Playing the rest of the sequence without a mistake, from any cursor
/// position, gives `Correct` for every key but the last, `Complete` for the
/// last, and leaves the cursor at the end.
pub proof fn lemma_clean_run_from(scale: Seq<u8>, cursor: nat)
    requires
        cursor <= scale.len(),
    ensures
        feed_run(scale, cursor, scale.subrange(cursor as int, scale.len() as int)) == (
            scale.len(),
            clean_outcomes(scale.len(), cursor),
        ),
    decreases scale.len() - cursor,
{
    let keys = scale.subrange(cursor as int, scale.len() as int);
    if cursor < scale.len() {
        let next = (cursor + 1) as nat;
        lemma_clean_run_from(scale, next);
        assert(keys.drop_first() =~= scale.subrange(next as int, scale.len() as int));
        assert(clean_outcomes(scale.len(), cursor) =~= seq![feed_step(scale, cursor, keys[0]).1]
            + clean_outcomes(scale.len(), next));
    } else {
        assert(clean_outcomes(scale.len(), cursor) =~= Seq::empty());
    }
}

/// Feeding the matcher the whole expected sequence in order, from the start,
/// gives `Correct` for every key but the last and `Complete` for the last;
/// the cursor reaches the end of the sequence only with the last key.
pub proof fn lemma_clean_run(scale: Seq<u8>)
    ensures
        feed_run(scale, 0, scale) == (scale.len(), clean_outcomes(scale.len(), 0)),
        forall|k: int| 0 <= k < scale.len() ==> #[trigger] feed_run(scale, 0, scale.take(k)).0 == k,
{
    lemma_clean_run_from(scale, 0);
    assert(scale.subrange(0, scale.len() as int) =~= scale);
    assert forall|k: int| 0 <= k < scale.len() implies #[trigger] feed_run(
        scale,
        0,
        scale.take(k),
    ).0 == k by {
        lemma_clean_prefix(scale, 0, k as nat);
    }
}

/// Playing the keys from `cursor` up to `end` without a mistake moves the
/// cursor to `end`.
proof fn lemma_clean_prefix(scale: Seq<u8>, cursor: nat, end: nat)
    requires
        cursor <= end <= scale.len(),
    ensures
        feed_run(scale, cursor, scale.subrange(cursor as int, end as int)).0 == end,
    decreases end - cursor,
{
    let keys = scale.subrange(cursor as int, end as int);
    if cursor < end {
        lemma_clean_prefix(scale, (cursor + 1) as nat, end);
        assert(keys.drop_first() =~= scale.subrange((cursor + 1) as int, end as int));
    }
}

/// A wrong key at any cursor position gives `Incorrect` and leaves the
/// cursor; the expected key pressed next still moves it on.
pub proof fn lemma_mismatch(scale: Seq<u8>, cursor: nat, key: u8)
    requires
        cursor < scale.len(),
        key != scale[cursor as int],
    ensures
        feed_step(scale, cursor, key) == (cursor, MatchOutcome::Incorrect),
        feed_run(scale, cursor, seq![key, scale[cursor as int]]).0 == cursor + 1,
        feed_run(scale, cursor, seq![key, scale[cursor as int]]).1[0] == MatchOutcome::Incorrect,
        feed_run(scale, cursor, seq![key, scale[cursor as int]]).1[1] != MatchOutcome::Incorrect,
{
    let keys = seq![key, scale[cursor as int]];
    assert(keys.drop_first() =~= seq![scale[cursor as int]]);
    assert(keys.drop_first().drop_first() =~= Seq::<u8>::empty());
    reveal_with_fuel(feed_run, 3);
}

} // verus!
