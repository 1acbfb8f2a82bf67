use vstd::prelude::*;

verus! {

/// Header of a parsed block: the slot it occupies and its hash.
#[derive(Debug, Clone, PartialEq, Eq)]
pub struct BlockHeader {
    pub slot: u64,
    pub hash: Vec<u8>,
}

/// A parsed ledger block.
#[derive(Debug, Clone, PartialEq, Eq)]
pub struct Block {
    pub header: Option<BlockHeader>,
    pub body: Vec<u8>,
}

/// A block as delivered by the sync client: the parsed form may be missing.
#[derive(Debug, Clone, PartialEq, Eq)]
pub struct RawBlock {
    pub native: Vec<u8>,
    pub parsed: Option<Block>,
}

/// A point on the chain: a slot index and a block hash.
#[derive(Debug, Clone, PartialEq, Eq)]
pub struct BlockRef {
    pub index: u64,
    pub hash: Vec<u8>,
}

/// A raw update of the followed chain tip.
#[derive(Debug, Clone, PartialEq, Eq)]
pub enum TipEvent {
    Apply(RawBlock),
    Undo(RawBlock),
    Reset(BlockRef),
}

/// The normalised event carried from the source stage to the sink stage.
#[derive(Debug, Clone, PartialEq, Eq)]
pub enum ChainEvent {
    Apply(Block),
    Reset(BlockRef),
}

/// The envelope in which a payload travels over a channel.
#[derive(Debug, Clone, PartialEq, Eq)]
pub struct Message {
    pub payload: ChainEvent,
}

/// Why a tip event cannot be normalised: the upstream data is malformed.
#[derive(PartialEq, Eq, Structural, Debug, Clone, Copy)]
pub enum MappingError {
    MissingParsedBlock,
    MissingHeader,
}

impl MappingError {
    /// How the runtime treats this error: malformed upstream data cannot be
    /// repaired locally.
    pub fn failure(&self) -> (r: crate::retry::Failure)
        ensures
            r == crate::retry::Failure::Fatal,
    {
        crate::retry::Failure::Fatal
    }
}

/// Mathematical value of a chain position: slot and hash bytes.
pub type RefModel = (u64, Seq<u8>);

/// Mathematical value of a parsed block.
pub struct BlockModel {
    pub header: Option<RefModel>,
    pub body: Seq<u8>,
}

/// Mathematical value of a chain event.
pub enum ChainEventModel {
    Apply(BlockModel),
    Reset(RefModel),
}

impl View for BlockHeader {
    type V = RefModel;

    open spec fn view(&self) -> RefModel {
        (self.slot, self.hash@)
    }
}

impl View for BlockRef {
    type V = RefModel;

    open spec fn view(&self) -> RefModel {
        (self.index, self.hash@)
    }
}

impl View for Block {
    type V = BlockModel;

    open spec fn view(&self) -> BlockModel {
        BlockModel {
            header: match self.header {
                Some(h) => Some(h@),
                None => None,
            },
            body: self.body@,
        }
    }
}

impl View for ChainEvent {
    type V = ChainEventModel;

    open spec fn view(&self) -> ChainEventModel {
        match self {
            ChainEvent::Apply(b) => ChainEventModel::Apply(b@),
            ChainEvent::Reset(r) => ChainEventModel::Reset(r@),
        }
    }
}

impl View for Message {
    type V = ChainEventModel;

    open spec fn view(&self) -> ChainEventModel {
        self.payload@
    }
}

/// The chain event that a tip event denotes, or why it denotes none.
pub open spec fn spec_map_tip_event(t: TipEvent) -> Result<ChainEventModel, MappingError> {
    match t {
        TipEvent::Apply(raw) => match raw.parsed {
            Some(b) => Ok(ChainEventModel::Apply(b@)),
            None => Err(MappingError::MissingParsedBlock),
        },
        TipEvent::Undo(raw) => match raw.parsed {
            Some(b) => match b.header {
                Some(h) => Ok(ChainEventModel::Reset(h@)),
                None => Err(MappingError::MissingHeader),
            },
            None => Err(MappingError::MissingParsedBlock),
        },
        TipEvent::Reset(r) => Ok(ChainEventModel::Reset(r@)),
    }
}

/// Copies a byte string.
pub fn copy_bytes(b: &Vec<u8>) -> (r: Vec<u8>)
    ensures
        r@ == b@,
{
    let mut r: Vec<u8> = Vec::with_capacity(b.len());
    let mut i: usize = 0;
    while i < b.len()
        invariant
            i <= b.len(),
            r@ == b@.subrange(0, i as int),
        decreases b.len() - i,
    {
        r.push(b[i]);
        i = i + 1;
        assert(r@ =~= b@.subrange(0, i as int));
    }
    assert(r@ =~= b@);
    r
}

/// Whether two byte strings are equal.
pub fn bytes_equal(a: &Vec<u8>, b: &Vec<u8>) -> (r: bool)
    ensures
        r == (a@ == b@),
{
    if a.len() != b.len() {
        return false;
    }
    let mut i: usize = 0;
    while i < a.len()
        invariant
            i <= a.len(),
            a.len() == b.len(),
            a@.subrange(0, i as int) == b@.subrange(0, i as int),
        decreases a.len() - i,
    {
        if a[i] != b[i] {
            assert(a@[i as int] != b@[i as int]);
            return false;
        }
        i = i + 1;
        assert(a@.subrange(0, i as int) =~= a@.subrange(0, i as int - 1).push(a@[i - 1]));
        assert(b@.subrange(0, i as int) =~= b@.subrange(0, i as int - 1).push(b@[i - 1]));
    }
    assert(a@ =~= a@.subrange(0, i as int));
    assert(b@ =~= b@.subrange(0, i as int));
    true
}

impl BlockHeader {
    /// A copy of this header.
    pub fn copy(&self) -> (r: BlockHeader)
        ensures
            r@ == self@,
    {
        BlockHeader { slot: self.slot, hash: copy_bytes(&self.hash) }
    }

    /// The chain position this header identifies.
    pub fn to_ref(&self) -> (r: BlockRef)
        ensures
            r@ == self@,
    {
        BlockRef { index: self.slot, hash: copy_bytes(&self.hash) }
    }
}

impl BlockRef {
    /// A copy of this chain position.
    pub fn copy(&self) -> (r: BlockRef)
        ensures
            r@ == self@,
    {
        BlockRef { index: self.index, hash: copy_bytes(&self.hash) }
    }

    /// Whether two references name the same chain position.
    pub fn same_point(&self, other: &BlockRef) -> (r: bool)
        ensures
            r == (self@ == other@),
    {
        self.index == other.index && bytes_equal(&self.hash, &other.hash)
    }
}

impl Block {
    /// A copy of this block.
    pub fn copy(&self) -> (r: Block)
        ensures
            r@ == self@,
    {
        let header = match &self.header {
            Some(h) => Some(h.copy()),
            None => None,
        };
        Block { header, body: copy_bytes(&self.body) }
    }
}

impl ChainEvent {
    /// Wraps an `Apply` of `block` in a channel message.
    pub fn apply(block: Block) -> (r: Message)
        ensures
            r@ == ChainEventModel::Apply(block@),
    {
        Message { payload: ChainEvent::Apply(block) }
    }

    /// Wraps a `Reset` to `block_ref` in a channel message.
    pub fn reset(block_ref: BlockRef) -> (r: Message)
        ensures
            r@ == ChainEventModel::Reset(block_ref@),
    {
        Message { payload: ChainEvent::Reset(block_ref) }
    }
}

/// Normalises one tip event into the message to publish downstream.
/// An apply carries the parsed block; an undo becomes a reset to the undone
/// block's header; a reset passes through. Missing parsed data is an error.
pub fn map_tip_event(t: &TipEvent) -> (r: Result<Message, MappingError>)
    ensures
        match (r, spec_map_tip_event(*t)) {
            (Ok(m), Ok(e)) => m@ == e,
            (Err(a), Err(b)) => a == b,
            _ => false,
        },
{
    match t {
        TipEvent::Apply(raw) => match &raw.parsed {
            Some(b) => Ok(ChainEvent::apply(b.copy())),
            None => Err(MappingError::MissingParsedBlock),
        },
        TipEvent::Undo(raw) => match &raw.parsed {
            Some(b) => match &b.header {
                Some(h) => Ok(ChainEvent::reset(h.to_ref())),
                None => Err(MappingError::MissingHeader),
            },
            None => Err(MappingError::MissingParsedBlock),
        },
        TipEvent::Reset(r) => Ok(ChainEvent::reset(r.copy())),
    }
}

/// Whether every tip event of `s` can be normalised.
pub open spec fn all_mappable(s: Seq<TipEvent>) -> bool {
    forall|i: int| 0 <= i < s.len() ==> spec_map_tip_event(#[trigger] s[i]).is_ok()
}

/// Whether `out` is, element by element and in the same order, the
/// normalisation of `s`.
pub open spec fn maps_in_order(s: Seq<TipEvent>, out: Seq<ChainEventModel>) -> bool {
    &&& out.len() == s.len()
    &&& forall|i: int| 0 <= i < s.len() ==> spec_map_tip_event(#[trigger] s[i]) == Ok::<
        ChainEventModel,
        MappingError,
    >(out[i])
}

/// Normalises a sequence of tip events, keeping their order. Fails with the
/// error of the first event that cannot be normalised.
pub fn map_tip_events(events: &Vec<TipEvent>) -> (r: Result<Vec<Message>, MappingError>)
    ensures
        r is Ok <==> all_mappable(events@),
        r matches Ok(v) ==> maps_in_order(events@, v@.map_values(|m: Message| m@)),
        r matches Err(e) ==> exists|i: int|
            0 <= i < events.len() && spec_map_tip_event(#[trigger] events@[i]) == Err::<
                ChainEventModel,
                MappingError,
            >(e) && all_mappable(events@.subrange(0, i)),
{
    let mut out: Vec<Message> = Vec::with_capacity(events.len());
    let mut i: usize = 0;
    while i < events.len()
        invariant
            i <= events.len(),
            all_mappable(events@.subrange(0, i as int)),
            maps_in_order(events@.subrange(0, i as int), out@.map_values(|m: Message| m@)),
        decreases events.len() - i,
    {
        match map_tip_event(&events[i]) {
            Ok(m) => {
                out.push(m);
            },
            Err(e) => {
                assert(spec_map_tip_event(events@[i as int]).is_err());
                return Err(e);
            },
        }
        i = i + 1;
        assert(forall|k: int|
            0 <= k < i ==> #[trigger] events@.subrange(0, i as int)[k] == events@.subrange(
                0,
                i - 1,
            )[k] || k == i - 1);
    }
    assert(events@.subrange(0, i as int) =~= events@);
    Ok(out)
}

} // verus!
