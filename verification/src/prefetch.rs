//! The prefetch engine.  After a cache hit or a successful generation, a walk
//! starts one past the triggering line of the text list and moves forward:
//! blank lines, lines whose artifact already exists, and lines already in
//! flight are skipped without counting; every other line is marked in flight,
//! synthesized, and unmarked whatever the outcome; only successful
//! generations count toward the quota.  The walk stops when the quota is
//! reached or the list is exhausted.  The unverified shell supplies the two
//! observations the core cannot make itself — whether the artifact file
//! exists, and how the synthesis call went — and performs the fixed
//! inter-item delay between synthesis calls.
use vstd::prelude::*;
use crate::registry::{ItemId, VoiceManager};
use crate::text::{blank_spec, find_position_in_text_list, is_blank, line_matches};

verus! {

/// Why the walk moved past a line without synthesizing it.
#[derive(Debug, Clone, Copy, PartialEq, Eq, Structural)]
pub enum SkipReason {
    /// Nothing but whitespace stands on the line.
    Blank,
    /// The line's artifact already exists in the cache.
    Cached,
    /// Another task is generating this line right now.
    InFlight,
}

/// What one step of the walk decided.
#[derive(Debug, Clone, Copy, PartialEq, Eq, Structural)]
pub enum PrefetchStep {
    /// The current line is skipped without counting; the walk moved on.
    Skip(SkipReason),
    /// The current line was marked in flight and must now be synthesized;
    /// the caller reports the outcome through `record_outcome`.
    Synthesize,
}

/// A line the walk does not synthesize: blank, already cached, or already in
/// flight.
pub open spec fn line_skipped(line: Seq<char>, cached: bool, in_flight: bool) -> bool {
    blank_spec(line) || cached || in_flight
}

/// The positions a walk successfully generates, given the lines and, for
/// each position, whether its artifact already exists, whether it is already
/// in flight, and whether its synthesis call would succeed.
pub open spec fn walk_plan(
    lines: Seq<Seq<char>>,
    cached: Seq<bool>,
    in_flight: Seq<bool>,
    success: Seq<bool>,
    pos: int,
    quota: int,
) -> Seq<int>
    decreases lines.len() - pos,
        when 0 <= pos <= lines.len()
{
    if pos < 0 || pos >= lines.len() || quota <= 0 {
        Seq::empty()
    } else if line_skipped(lines[pos], cached[pos], in_flight[pos]) {
        walk_plan(lines, cached, in_flight, success, pos + 1, quota)
    } else if success[pos] {
        seq![pos] + walk_plan(lines, cached, in_flight, success, pos + 1, quota - 1)
    } else {
        walk_plan(lines, cached, in_flight, success, pos + 1, quota)
    }
}

/// A prefetch walk with quota `k` starting at position `p` generates
/// artifacts for at most `k` lines, every one of them at or after `p`,
/// within the list, non-blank, not already cached, not already in flight,
/// and successfully synthesized; the walk ends at the latest with the list.
pub proof fn lemma_walk_bounded(
    lines: Seq<Seq<char>>,
    cached: Seq<bool>,
    in_flight: Seq<bool>,
    success: Seq<bool>,
    pos: int,
    quota: int,
)
    requires
        0 <= pos <= lines.len(),
    ensures
        walk_plan(lines, cached, in_flight, success, pos, quota).len() <= quota || quota < 0,
        forall|n: int|
            0 <= n < walk_plan(lines, cached, in_flight, success, pos, quota).len() ==> {
                let j = #[trigger] walk_plan(lines, cached, in_flight, success, pos, quota)[n];
                &&& pos <= j < lines.len()
                &&& !line_skipped(lines[j], cached[j], in_flight[j])
                &&& success[j]
            },
    decreases lines.len() - pos,
{
    if pos < 0 || pos >= lines.len() || quota <= 0 {
    } else {
        lemma_walk_bounded(lines, cached, in_flight, success, pos + 1, quota);
        lemma_walk_bounded(lines, cached, in_flight, success, pos + 1, quota - 1);
    }
}

/// The running state of one prefetch walk.
pub struct PrefetchWalk {
    /// The list position the walk stands at.
    pub pos: usize,
    /// How many artifacts this walk has generated so far.
    pub generated: usize,
    /// How many generations the walk may produce in all.
    pub quota: usize,
}

impl PrefetchWalk {
    /// A walk never generates past its quota.
    pub open spec fn wf(&self) -> bool {
        self.generated <= self.quota
    }

    /// A fresh walk at `start_position` with `prefetch_count` generations to
    /// produce.
    pub fn new(start_position: usize, prefetch_count: usize) -> (r: PrefetchWalk)
        ensures
            r.pos == start_position,
            r.generated == 0,
            r.quota == prefetch_count,
            r.wf(),
    {
        PrefetchWalk { pos: start_position, generated: 0, quota: prefetch_count }
    }

    /// Whether the walk is over: quota reached, or the list exhausted.
    pub fn finished(&self, lines_len: usize) -> (r: bool)
        ensures
            r == (self.pos >= lines_len || self.generated >= self.quota),
    {
        self.pos >= lines_len || self.generated >= self.quota
    }

    /// Decides the current line.  `artifact_exists` is the shell's answer to
    /// whether the line's cache artifact is on disk.  A skipped line moves
    /// the walk on and touches nothing; a line to synthesize is marked in
    /// flight under `scope` and the walk waits for `record_outcome`.
    pub fn step(
        &mut self,
        lines: &Vec<String>,
        artifact_exists: bool,
        manager: &mut VoiceManager,
        scope: &str,
    ) -> (r: PrefetchStep)
        requires
            old(self).pos < lines@.len(),
            old(self).generated < old(self).quota,
        ensures
            final(self).generated == old(self).generated,
            final(self).quota == old(self).quota,
            ({
                let line = lines@[old(self).pos as int]@;
                let in_flight = old(manager).is_generating_spec(
                    scope@,
                    ItemId::Line(old(self).pos),
                );
                if line_skipped(line, artifact_exists, in_flight) {
                    &&& final(self).pos == old(self).pos + 1
                    &&& *final(manager) == *old(manager)
                    &&& r == PrefetchStep::Skip(
                        if blank_spec(line) {
                            SkipReason::Blank
                        } else if artifact_exists {
                            SkipReason::Cached
                        } else {
                            SkipReason::InFlight
                        },
                    )
                } else {
                    &&& final(self).pos == old(self).pos
                    &&& r == PrefetchStep::Synthesize
                    &&& forall|s2: Seq<char>, i2: ItemId|
                        #[trigger] final(manager).is_generating_spec(s2, i2) <==> (old(
                            manager,
                        ).is_generating_spec(s2, i2) || (s2 == scope@ && i2 == ItemId::Line(
                            old(self).pos,
                        )))
                    &&& final(manager).loaded_text_lists == old(manager).loaded_text_lists
                }
            }),
    {
        let n = lines.len();
        assert(self.pos < n);
        let line = &lines[self.pos];
        if is_blank(line.as_str()) {
            self.pos = self.pos + 1;
            return PrefetchStep::Skip(SkipReason::Blank);
        }
        if artifact_exists {
            self.pos = self.pos + 1;
            return PrefetchStep::Skip(SkipReason::Cached);
        }
        if manager.is_generating(scope, ItemId::Line(self.pos)) {
            self.pos = self.pos + 1;
            return PrefetchStep::Skip(SkipReason::InFlight);
        }
        manager.mark_in_progress(scope, ItemId::Line(self.pos));
        PrefetchStep::Synthesize
    }

    /// Takes the outcome of the synthesis a `Synthesize` step asked for.
    /// The line is unmarked whatever happened; only success counts toward
    /// the quota; the walk moves on either way.
    pub fn record_outcome(
        &mut self,
        success: bool,
        manager: &mut VoiceManager,
        scope: &str,
    )
        requires
            old(self).generated < old(self).quota,
            old(self).pos < usize::MAX,
        ensures
            final(self).pos == old(self).pos + 1,
            final(self).quota == old(self).quota,
            final(self).generated == old(self).generated + (if success {
                1int
            } else {
                0int
            }),
            final(self).wf(),
            forall|s2: Seq<char>, i2: ItemId|
                #[trigger] final(manager).is_generating_spec(s2, i2) <==> (old(
                    manager,
                ).is_generating_spec(s2, i2) && !(s2 == scope@ && i2 == ItemId::Line(
                    old(self).pos,
                ))),
            final(manager).loaded_text_lists == old(manager).loaded_text_lists,
    {
        manager.mark_completed(scope, ItemId::Line(self.pos));
        if success {
            self.generated = self.generated + 1;
        }
        self.pos = self.pos + 1;
    }
}

/// Where a walk triggered by `current_text` starts: one past the first line
/// whose trimmed content equals the text.  `None` when no line matches, in
/// which case the trigger treats the start as past the end and no walk runs.
pub fn prefetch_start(lines: &Vec<String>, current_text: &str) -> (r: Option<usize>)
    ensures
        r matches Some(s) ==> {
            &&& 1 <= s <= lines@.len()
            &&& line_matches(lines@[s - 1]@, current_text@)
            &&& forall|j: int| 0 <= j < s - 1 ==> !line_matches(lines@[j]@, current_text@)
        },
        r is None ==> forall|j: int|
            0 <= j < lines@.len() ==> !line_matches(lines@[j]@, current_text@),
{
    let pos = find_position_in_text_list(lines, current_text);
    if pos < lines.len() {
        Some(pos + 1)
    } else {
        None
    }
}

} // verus!
