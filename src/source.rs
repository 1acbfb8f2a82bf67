use vstd::prelude::*;

use crate::chain_event::{
    map_tip_event, spec_map_tip_event, ChainEvent, ChainEventModel, MappingError, Message,
    TipEvent,
};
use crate::retry::Failure;
use crate::sink::event_slot;

verus! {

/// The source stage: follows the chain tip of a remote node and publishes
/// normalised chain events.
#[derive(Debug)]
pub struct Stage {
    pub dolos_endpoint: String,
    pub ops_count: u64,
    pub chain_tip: u64,
    pub current_slot: u64,
}

impl Stage {
    /// A source following the node at `dolos_endpoint`.
    pub fn new(dolos_endpoint: String) -> (r: Stage)
        ensures
            r.dolos_endpoint@ == dolos_endpoint@,
            r.ops_count == 0,
            r.chain_tip == 0,
            r.current_slot == 0,
    {
        Stage { dolos_endpoint, ops_count: 0, chain_tip: 0, current_slot: 0 }
    }

    /// How a lost subscription is treated: the session is rebuilt.
    pub fn stream_failure(&self) -> (r: Failure)
        ensures
            r == Failure::Restart,
    {
        Failure::Restart
    }

    /// Normalises one tip event into the message to publish, counts the
    /// operation and moves the tip and slot gauges to the event's slot.
    /// Malformed upstream data is an error and changes nothing.
    pub fn execute(&mut self, unit: &TipEvent) -> (r: Result<Message, MappingError>)
        ensures
            final(self).dolos_endpoint == old(self).dolos_endpoint,
            match spec_map_tip_event(*unit) {
                Ok(e) => r matches Ok(m) && m@ == e && final(self).ops_count == (
                    if old(self).ops_count < u64::MAX {
                        old(self).ops_count + 1
                    } else {
                        old(self).ops_count as int
                    }) && final(self).current_slot == (match event_slot(e) {
                    Some(x) => x,
                    None => old(self).current_slot,
                }) && final(self).chain_tip == final(self).current_slot,
                Err(err) => r == Err::<Message, MappingError>(err) && final(self).ops_count == old(
                    self,
                ).ops_count && final(self).current_slot == old(self).current_slot
                    && final(self).chain_tip == old(self).chain_tip,
            },
    {
        let m = map_tip_event(unit);
        match m {
            Ok(msg) => {
                if self.ops_count < u64::MAX {
                    self.ops_count = self.ops_count + 1;
                }
                match &msg.payload {
                    ChainEvent::Apply(b) => match &b.header {
                        Some(h) => {
                            self.current_slot = h.slot;
                        },
                        None => {},
                    },
                    ChainEvent::Reset(r) => {
                        self.current_slot = r.index;
                    },
                }
                self.chain_tip = self.current_slot;
                Ok(msg)
            },
            Err(e) => Err(e),
        }
    }
}

} // verus!
