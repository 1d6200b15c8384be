//! In-flight registry: a process-wide record of which artifacts are currently
//! being generated, keyed by a scope (a text-list path or a cache directory)
//! and an item identifier.  It provides de-duplication, not mutual exclusion:
//! callers check, mark, synthesize, and unmark, and a narrow race between the
//! check and the mark is accepted rather than holding a lock across the slow
//! synthesis call.  The registry also memoizes loaded text lists.
use vstd::prelude::*;
use crate::text::str_eq;

verus! {

/// An identifier marked in flight under a scope: a text-list line number for
/// a prefetch walk, or an identifier derived from a direct request's cache
/// file name.  The tag keeps the two identifier spaces apart, so a prefetch
/// line number can never collide with a direct request's derived identifier.
#[derive(Debug, Clone, Copy, PartialEq, Eq, Structural)]
pub enum ItemId {
    Line(usize),
    Text(u128),
}

/// One in-flight mark: an identifier under its scope.
pub struct InFlightMark {
    pub scope: String,
    pub id: ItemId,
}

/// A text list memoized under the path it was loaded from.
pub struct LoadedTextList {
    pub path: String,
    pub lines: Vec<String>,
}

/// Whether a mark stands for the given scope and identifier.
pub open spec fn mark_matches(m: InFlightMark, scope: Seq<char>, id: ItemId) -> bool {
    m.scope@ == scope && m.id == id
}

/// Whether some mark in the sequence stands for the given scope and identifier.
pub open spec fn seq_has_mark(s: Seq<InFlightMark>, scope: Seq<char>, id: ItemId) -> bool {
    exists|k: int| 0 <= k < s.len() && mark_matches(s[k], scope, id)
}

/// The byte values of a sequence summed up.
pub open spec fn byte_sum(bytes: Seq<u8>) -> int
    decreases bytes.len(),
{
    if bytes.len() == 0 {
        0
    } else {
        byte_sum(bytes.drop_last()) + bytes.last()
    }
}

/// The derived identifier of a direct (non-list) request: the sum of the byte
/// values of its cache file name, tagged as a text identifier.
pub fn text_item_id(filename: &[u8]) -> (r: ItemId)
    ensures
        r == ItemId::Text(byte_sum(filename@) as u128),
{
    let mut sum: u128 = 0;
    let mut i: usize = 0;
    let n = filename.len();
    while i < n
        invariant
            i <= n,
            n == filename@.len(),
            sum == byte_sum(filename@.subrange(0, i as int)),
            sum <= 255 * i,
        decreases n - i,
    {
        let b = filename[i];
        proof {
            assert(filename@.subrange(0, i + 1).drop_last() =~= filename@.subrange(0, i as int));
            assert(filename@.subrange(0, i + 1).last() == filename@[i as int]);
        }
        sum = sum + b as u128;
        i = i + 1;
    }
    proof {
        assert(filename@.subrange(0, n as int) =~= filename@);
    }
    ItemId::Text(sum)
}

/// Tracks which artifacts are being generated right now, and holds the text
/// lists loaded so far.  Guarded by a single lock in the running server; each
/// operation is one atomic step that never suspends.
pub struct VoiceManager {
    pub in_progress: Vec<InFlightMark>,
    pub loaded_text_lists: Vec<LoadedTextList>,
}

impl VoiceManager {
    /// Whether an identifier is marked in flight under a scope.
    pub open spec fn is_generating_spec(&self, scope: Seq<char>, id: ItemId) -> bool {
        seq_has_mark(self.in_progress@, scope, id)
    }

    /// Whether a text list has been loaded for a path.
    pub open spec fn has_text_list(&self, path: Seq<char>) -> bool {
        exists|k: int|
            0 <= k < self.loaded_text_lists@.len() && self.loaded_text_lists@[k].path@ == path
    }

    /// A fresh registry: nothing in flight, no text list loaded.
    pub fn new() -> (r: VoiceManager)
        ensures
            forall|s: Seq<char>, i: ItemId| !r.is_generating_spec(s, i),
            forall|p: Seq<char>| !r.has_text_list(p),
    {
        VoiceManager { in_progress: Vec::new(), loaded_text_lists: Vec::new() }
    }

    /// Reports whether a synthesis for `(scope, id)` is currently executing.
    pub fn is_generating(&self, scope: &str, id: ItemId) -> (r: bool)
        ensures
            r == self.is_generating_spec(scope@, id),
    {
        let n = self.in_progress.len();
        let mut i: usize = 0;
        while i < n
            invariant
                i <= n,
                n == self.in_progress@.len(),
                forall|k: int| 0 <= k < i ==> !mark_matches(self.in_progress@[k], scope@, id),
            decreases n - i,
        {
            let m = &self.in_progress[i];
            if m.id == id && str_eq(m.scope.as_str(), scope) {
                return true;
            }
            i = i + 1;
        }
        false
    }

    /// Marks `(scope, id)` as in progress.  Idempotent: marking what is
    /// already marked changes nothing, and no other pair is touched.
    pub fn mark_in_progress(&mut self, scope: &str, id: ItemId)
        ensures
            forall|s2: Seq<char>, i2: ItemId|
                #[trigger] final(self).is_generating_spec(s2, i2) <==> (old(
                    self,
                ).is_generating_spec(s2, i2) || (s2 == scope@ && i2 == id)),
            final(self).loaded_text_lists == old(self).loaded_text_lists,
    {
        if self.is_generating(scope, id) {
            return ;
        }
        let m = InFlightMark { scope: String::from_str(scope), id };
        self.in_progress.push(m);
        proof {
            let marks = self.in_progress@;
            let before = old(self).in_progress@;
            assert forall|s2: Seq<char>, i2: ItemId|
                #[trigger] seq_has_mark(marks, s2, i2) <==> (seq_has_mark(before, s2, i2) || (s2
                    == scope@ && i2 == id)) by {
                if seq_has_mark(marks, s2, i2) {
                    let k = choose|k: int|
                        0 <= k < marks.len() && mark_matches(marks[k], s2, i2);
                    if k < before.len() {
                        assert(mark_matches(before[k], s2, i2));
                    }
                }
                if seq_has_mark(before, s2, i2) {
                    let k = choose|k: int|
                        0 <= k < before.len() && mark_matches(before[k], s2, i2);
                    assert(mark_matches(marks[k], s2, i2));
                }
                if s2 == scope@ && i2 == id {
                    assert(mark_matches(marks[marks.len() - 1], s2, i2));
                }
            }
        }
    }

    /// Marks `(scope, id)` as completed.  Idempotent: every mark for the pair
    /// goes, whatever the synthesis outcome was, and no other pair is touched.
    pub fn mark_completed(&mut self, scope: &str, id: ItemId)
        ensures
            forall|s2: Seq<char>, i2: ItemId|
                #[trigger] final(self).is_generating_spec(s2, i2) <==> (old(
                    self,
                ).is_generating_spec(s2, i2) && !(s2 == scope@ && i2 == id)),
            final(self).loaded_text_lists == old(self).loaded_text_lists,
    {
        let mut kept: Vec<InFlightMark> = Vec::new();
        let n = self.in_progress.len();
        let mut i: usize = 0;
        while i < n
            invariant
                i <= n,
                n == self.in_progress@.len(),
                forall|s2: Seq<char>, i2: ItemId|
                    #[trigger] seq_has_mark(kept@, s2, i2) <==> (seq_has_mark(
                        self.in_progress@.subrange(0, i as int),
                        s2,
                        i2,
                    ) && !(s2 == scope@ && i2 == id)),
            decreases n - i,
        {
            let ghost kept_before = kept@;
            let m = &self.in_progress[i];
            let matches_key = m.id == id && str_eq(m.scope.as_str(), scope);
            if !matches_key {
                kept.push(InFlightMark { scope: m.scope.clone(), id: m.id });
            }
            proof {
                let prefix = self.in_progress@.subrange(0, i as int);
                let prefix1 = self.in_progress@.subrange(0, i + 1);
                assert(prefix1.drop_last() =~= prefix);
                assert(prefix1.last() == self.in_progress@[i as int]);
                assert forall|s2: Seq<char>, i2: ItemId|
                    #[trigger] seq_has_mark(kept@, s2, i2) <==> (seq_has_mark(prefix1, s2, i2)
                        && !(s2 == scope@ && i2 == id)) by {
                    if seq_has_mark(kept@, s2, i2) {
                        let k = choose|k: int|
                            0 <= k < kept@.len() && mark_matches(kept@[k], s2, i2);
                        if k < kept_before.len() {
                            assert(mark_matches(kept_before[k], s2, i2));
                            assert(seq_has_mark(kept_before, s2, i2));
                            assert(seq_has_mark(prefix, s2, i2) && !(s2 == scope@ && i2 == id));
                            let j = choose|j: int|
                                0 <= j < prefix.len() && mark_matches(prefix[j], s2, i2);
                            assert(mark_matches(prefix1[j], s2, i2));
                            assert(seq_has_mark(prefix1, s2, i2));
                        } else {
                            assert(!matches_key);
                            assert(mark_matches(kept@[k], s2, i2));
                            assert(kept@[k].scope@ == self.in_progress@[i as int].scope@);
                            assert(kept@[k].id == self.in_progress@[i as int].id);
                            assert(mark_matches(prefix1[i as int], s2, i2));
                            assert(seq_has_mark(prefix1, s2, i2));
                            assert(!(s2 == scope@ && i2 == id));
                        }
                    }
                    if seq_has_mark(prefix1, s2, i2) && !(s2 == scope@ && i2 == id) {
                        let k = choose|k: int|
                            0 <= k < prefix1.len() && mark_matches(prefix1[k], s2, i2);
                        if k < i {
                            assert(mark_matches(prefix[k], s2, i2));
                            assert(seq_has_mark(prefix, s2, i2));
                            assert(seq_has_mark(kept_before, s2, i2));
                            let j = choose|j: int|
                                0 <= j < kept_before.len() && mark_matches(kept_before[j], s2, i2);
                            assert(mark_matches(kept@[j], s2, i2));
                            assert(seq_has_mark(kept@, s2, i2));
                        } else {
                            assert(mark_matches(self.in_progress@[i as int], s2, i2));
                            assert(!matches_key);
                            let j = kept@.len() - 1;
                            assert(kept@[j].scope@ == self.in_progress@[i as int].scope@);
                            assert(mark_matches(kept@[j], s2, i2));
                            assert(seq_has_mark(kept@, s2, i2));
                        }
                    }
                }
            }
            i = i + 1;
        }
        proof {
            assert(self.in_progress@.subrange(0, n as int) =~= self.in_progress@);
        }
        self.in_progress = kept;
    }

    /// Looks up the memoized text list for a path, if one was stored.
    pub fn get_text_list(&self, text_list_path: &str) -> (r: Option<&Vec<String>>)
        ensures
            r is Some <==> self.has_text_list(text_list_path@),
            r matches Some(lines) ==> exists|k: int|
                0 <= k < self.loaded_text_lists@.len() && self.loaded_text_lists@[k].path@
                    == text_list_path@ && lines@ == self.loaded_text_lists@[k].lines@,
    {
        let n = self.loaded_text_lists.len();
        let mut i: usize = 0;
        while i < n
            invariant
                i <= n,
                n == self.loaded_text_lists@.len(),
                forall|k: int| 0 <= k < i ==> self.loaded_text_lists@[k].path@ != text_list_path@,
            decreases n - i,
        {
            let e = &self.loaded_text_lists[i];
            if str_eq(e.path.as_str(), text_list_path) {
                return Some(&e.lines);
            }
            i = i + 1;
        }
        None
    }

    /// Stores a freshly loaded text list under its path.  The first load
    /// wins: a list already memoized for the path is never replaced, so a
    /// list is immutable for the life of the process once loaded.
    pub fn store_text_list(&mut self, text_list_path: &str, lines: Vec<String>)
        ensures
            final(self).in_progress == old(self).in_progress,
            old(self).has_text_list(text_list_path@) ==> final(self).loaded_text_lists == old(
                self,
            ).loaded_text_lists,
            !old(self).has_text_list(text_list_path@) ==> {
                &&& final(self).loaded_text_lists@.len() == old(self).loaded_text_lists@.len() + 1
                &&& final(self).loaded_text_lists@.drop_last() == old(self).loaded_text_lists@
                &&& final(self).loaded_text_lists@.last().path@ == text_list_path@
                &&& final(self).loaded_text_lists@.last().lines == lines
            },
            forall|p: Seq<char>|
                #[trigger] final(self).has_text_list(p) <==> (old(self).has_text_list(p) || p
                    == text_list_path@),
    {
        if self.get_text_list(text_list_path).is_some() {
            return ;
        }
        let entry = LoadedTextList { path: String::from_str(text_list_path), lines };
        self.loaded_text_lists.push(entry);
        proof {
            let lists = self.loaded_text_lists@;
            let before = old(self).loaded_text_lists@;
            assert forall|p: Seq<char>|
                #[trigger] self.has_text_list(p) <==> (old(self).has_text_list(p) || p
                    == text_list_path@) by {
                if self.has_text_list(p) {
                    let k = choose|k: int| 0 <= k < lists.len() && lists[k].path@ == p;
                    if k < before.len() {
                        assert(before[k].path@ == p);
                    }
                }
                if old(self).has_text_list(p) {
                    let k = choose|k: int| 0 <= k < before.len() && before[k].path@ == p;
                    assert(lists[k].path@ == p);
                }
                if p == text_list_path@ {
                    assert(lists[lists.len() - 1].path@ == p);
                }
            }
        }
    }
}

/// After `mark_completed`, the pair is no longer generating; between
/// `mark_in_progress` and the matching `mark_completed`, it is.  Stated over
/// the registry's own model of the two operations.
pub proof fn lemma_mark_then_complete(
    before: VoiceManager,
    marked: VoiceManager,
    done: VoiceManager,
    scope: Seq<char>,
    id: ItemId,
)
    requires
        forall|s2: Seq<char>, i2: ItemId|
            #[trigger] marked.is_generating_spec(s2, i2) <==> (before.is_generating_spec(s2, i2)
                || (s2 == scope && i2 == id)),
        forall|s2: Seq<char>, i2: ItemId|
            #[trigger] done.is_generating_spec(s2, i2) <==> (marked.is_generating_spec(s2, i2)
                && !(s2 == scope && i2 == id)),
    ensures
        marked.is_generating_spec(scope, id),
        !done.is_generating_spec(scope, id),
{
}

} // verus!
