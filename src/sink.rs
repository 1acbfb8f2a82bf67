use vstd::prelude::*;

use crate::chain_event::{BlockRef, ChainEvent, ChainEventModel, RefModel};
use crate::retry::Failure;

verus! {

/// Why the sink cannot apply an event.
#[derive(PartialEq, Eq, Structural, Debug, Clone, Copy)]
pub enum SinkError {
    /// An applied block carries no header, so it has no chain position.
    MissingHeader,
}

impl SinkError {
    /// How the runtime treats this error: malformed data cannot be repaired.
    pub fn failure(&self) -> (r: Failure)
        ensures
            r == Failure::Fatal,
    {
        match self {
            SinkError::MissingHeader => Failure::Fatal,
        }
    }
}

/// Mathematical value of the persisted state: the positions of the stored
/// blocks, in the order they were stored, and the cursor.
pub struct StoreModel {
    pub blocks: Seq<RefModel>,
    pub cursor: Option<RefModel>,
}

/// The stored positions that do not lie past slot `index`.
pub open spec fn keep_upto(s: Seq<RefModel>, index: u64) -> Seq<RefModel>
    decreases s.len(),
{
    if s.len() == 0 {
        s
    } else {
        let rest = keep_upto(s.drop_last(), index);
        if s.last().0 <= index {
            rest.push(s.last())
        } else {
            rest
        }
    }
}

/// The persisted state after applying `e` to `s`, or why it cannot be applied.
/// An apply stores the block under its position unless it is already stored,
/// and moves the cursor there; a reset drops every block past the target slot
/// and moves the cursor to the target.
pub open spec fn spec_apply_event(s: StoreModel, e: ChainEventModel) -> Result<
    StoreModel,
    SinkError,
> {
    match e {
        ChainEventModel::Apply(b) => match b.header {
            Some(k) => Ok(
                StoreModel {
                    blocks: if s.blocks.contains(k) {
                        s.blocks
                    } else {
                        s.blocks.push(k)
                    },
                    cursor: Some(k),
                },
            ),
            None => Err(SinkError::MissingHeader),
        },
        ChainEventModel::Reset(r) => Ok(
            StoreModel { blocks: keep_upto(s.blocks, r.0), cursor: Some(r) },
        ),
    }
}

/// The persisted state owned by the sink.
#[derive(Debug)]
pub struct Store {
    blocks: Vec<BlockRef>,
    cursor: Option<BlockRef>,
}

impl Store {
    /// The stored positions and the cursor.
    pub closed spec fn view(&self) -> StoreModel {
        StoreModel {
            blocks: self.blocks@.map_values(|b: BlockRef| b@),
            cursor: match self.cursor {
                Some(c) => Some(c@),
                None => None,
            },
        }
    }

    /// An empty store with no cursor.
    pub fn new() -> (r: Store)
        ensures
            r.view() == (StoreModel { blocks: Seq::empty(), cursor: None }),
    {
        let r = Store { blocks: Vec::new(), cursor: None };
        assert(r.view().blocks =~= Seq::<RefModel>::empty());
        r
    }

    /// Number of stored blocks.
    pub fn len(&self) -> (r: usize)
        ensures
            r == self.view().blocks.len(),
    {
        self.blocks.len()
    }

    /// Whether a block is stored at position `k`.
    pub fn contains(&self, k: &BlockRef) -> (r: bool)
        ensures
            r == self.view().blocks.contains(k@),
    {
        let mut i: usize = 0;
        while i < self.blocks.len()
            invariant
                i <= self.blocks.len(),
                forall|j: int| 0 <= j < i ==> self.blocks@[j]@ != k@,
            decreases self.blocks.len() - i,
        {
            if self.blocks[i].same_point(k) {
                assert(self.view().blocks[i as int] == k@);
                return true;
            }
            i = i + 1;
        }
        assert forall|j: int| 0 <= j < self.view().blocks.len() implies self.view().blocks[j]
            != k@ by {
            assert(self.blocks@[j]@ != k@);
        }
        false
    }

    /// The last position the sink processed, if any.
    pub fn cursor(&self) -> (r: Option<BlockRef>)
        ensures
            match (r, self.view().cursor) {
                (Some(a), Some(b)) => a@ == b,
                (None, None) => true,
                _ => false,
            },
    {
        match &self.cursor {
            Some(c) => Some(c.copy()),
            None => None,
        }
    }

    fn rewind(&mut self, index: u64)
        ensures
            final(self).view().blocks == keep_upto(old(self).view().blocks, index),
            final(self).cursor == old(self).cursor,
    {
        let ghost src = self.view().blocks;
        let mut kept: Vec<BlockRef> = Vec::new();
        let mut i: usize = 0;
        while i < self.blocks.len()
            invariant
                i <= self.blocks.len(),
                src == self.blocks@.map_values(|b: BlockRef| b@),
                kept@.map_values(|b: BlockRef| b@) == keep_upto(src.subrange(0, i as int), index),
            decreases self.blocks.len() - i,
        {
            assert(src.subrange(0, i + 1).drop_last() =~= src.subrange(0, i as int));
            if self.blocks[i].index <= index {
                kept.push(self.blocks[i].copy());
                assert(kept@.map_values(|b: BlockRef| b@) =~= keep_upto(
                    src.subrange(0, i as int),
                    index,
                ).push(src[i as int]));
            }
            i = i + 1;
        }
        assert(src.subrange(0, i as int) =~= src);
        self.blocks = kept;
    }

    /// Applies one chain event. Applying an event a second time changes
    /// nothing more.
    pub fn apply_event(&mut self, e: &ChainEvent) -> (r: Result<(), SinkError>)
        ensures
            match spec_apply_event(old(self).view(), e@) {
                Ok(s) => r is Ok && final(self).view() == s,
                Err(err) => r == Err::<(), SinkError>(err) && final(self).view() == old(
                    self,
                ).view(),
            },
    {
        match e {
            ChainEvent::Apply(b) => match &b.header {
                Some(h) => {
                    let k = h.to_ref();
                    if !self.contains(&k) {
                        self.blocks.push(k.copy());
                        assert(self.view().blocks =~= old(self).view().blocks.push(k@));
                    }
                    self.cursor = Some(k);
                    Ok(())
                },
                None => Err(SinkError::MissingHeader),
            },
            ChainEvent::Reset(r) => {
                self.rewind(r.index);
                self.cursor = Some(r.copy());
                Ok(())
            },
        }
    }
}

/// The slot an event moves the chain position to, if it names one.
pub open spec fn event_slot(e: ChainEventModel) -> Option<u64> {
    match e {
        ChainEventModel::Apply(b) => match b.header {
            Some(k) => Some(k.0),
            None => None,
        },
        ChainEventModel::Reset(r) => Some(r.0),
    }
}

/// The sink stage: persists chain events and exposes its cursor and metrics.
#[derive(Debug)]
pub struct Stage {
    pub database_url: String,
    pub store: Store,
    pub ops_count: u64,
    pub latest_block: u64,
}

impl Stage {
    /// A sink writing to `database_url`, with nothing persisted yet.
    pub fn new(database_url: String) -> (r: Stage)
        ensures
            r.database_url@ == database_url@,
            r.store.view() == (StoreModel { blocks: Seq::empty(), cursor: None }),
            r.ops_count == 0,
            r.latest_block == 0,
    {
        Stage { database_url, store: Store::new(), ops_count: 0, latest_block: 0 }
    }

    /// How a failure to reach the persistence backend is treated: the same
    /// endpoint is expected to come back.
    pub fn bootstrap_failure(&self) -> (r: Failure)
        ensures
            r == Failure::Retry,
    {
        Failure::Retry
    }

    /// Applies one event to the persisted state, counts the operation and
    /// moves the latest-block gauge to the event's slot.
    pub fn execute(&mut self, unit: &ChainEvent) -> (r: Result<(), SinkError>)
        ensures
            final(self).database_url == old(self).database_url,
            match spec_apply_event(old(self).store.view(), unit@) {
                Ok(s) => r is Ok && final(self).store.view() == s && final(self).ops_count == (
                    if old(self).ops_count < u64::MAX {
                        old(self).ops_count + 1
                    } else {
                        old(self).ops_count as int
                    }) && final(self).latest_block == event_slot(unit@)->Some_0,
                Err(err) => r == Err::<(), SinkError>(err) && final(self).store.view() == old(
                    self,
                ).store.view() && final(self).ops_count == old(self).ops_count
                    && final(self).latest_block == old(self).latest_block,
            },
    {
        match self.store.apply_event(unit) {
            Ok(()) => {
                if self.ops_count < u64::MAX {
                    self.ops_count = self.ops_count + 1;
                }
                self.latest_block = match unit {
                    ChainEvent::Apply(b) => match &b.header {
                        Some(h) => h.slot,
                        None => self.latest_block,
                    },
                    ChainEvent::Reset(r) => r.index,
                };
                Ok(())
            },
            Err(e) => Err(e),
        }
    }
}

proof fn lemma_keep_upto_within(s: Seq<RefModel>, index: u64)
    ensures
        forall|j: int| 0 <= j < keep_upto(s, index).len() ==> (#[trigger] keep_upto(s, index)[j]).0
            <= index,
    decreases s.len(),
{
    if s.len() > 0 {
        lemma_keep_upto_within(s.drop_last(), index);
        let rest = keep_upto(s.drop_last(), index);
        if s.last().0 <= index {
            assert forall|j: int| 0 <= j < rest.push(s.last()).len() implies (#[trigger] rest.push(
                s.last(),
            )[j]).0 <= index by {
                if j < rest.len() {
                    assert(rest[j].0 <= index);
                }
            }
        }
    }
}

proof fn lemma_keep_upto_all_within(s: Seq<RefModel>, index: u64)
    requires
        forall|j: int| 0 <= j < s.len() ==> (#[trigger] s[j]).0 <= index,
    ensures
        keep_upto(s, index) == s,
    decreases s.len(),
{
    if s.len() > 0 {
        lemma_keep_upto_all_within(s.drop_last(), index);
        assert(s.drop_last().push(s.last()) =~= s);
    }
}

/// Redelivery is harmless: applying the same event twice leaves the persisted
/// state as applying it once does.
pub proof fn lemma_apply_idempotent(s: StoreModel, e: ChainEventModel)
    ensures
        match spec_apply_event(s, e) {
            Ok(once) => spec_apply_event(once, e) == Ok::<StoreModel, SinkError>(once),
            Err(err) => true,
        },
{
    match e {
        ChainEventModel::Apply(b) => {
            if let Some(k) = b.header {
                if !s.blocks.contains(k) {
                    assert(s.blocks.push(k)[s.blocks.len() as int] == k);
                }
            }
        },
        ChainEventModel::Reset(r) => {
            lemma_keep_upto_within(s.blocks, r.0);
            lemma_keep_upto_all_within(keep_upto(s.blocks, r.0), r.0);
        },
    }
}

} // verus!
