//! Decoded triggers on their way to the handler-execution engine. A
//! matched trigger is wrapped with the name of the handler to invoke,
//! the pointer and timestamp of the triggering block, and a logging
//! payload.

use crate::common::{BlockNumber, BlockPtr, BlockTime, LogPayload};
use vstd::prelude::*;

verus! {

/// A decode failure raised by variant-specific matching, propagated to
/// the caller rather than swallowed.
#[derive(Debug)]
pub struct TriggerError {
    pub message: String,
}

impl TriggerError {
    /// The failure description.
    pub open spec fn model(&self) -> Seq<char> {
        self.message@
    }
}

/// What a successful match looks like, as plain values: the decoded
/// trigger, the handler to invoke, and the block metadata.
pub struct MatchOutcome<M> {
    pub trigger: M,
    pub handler: Seq<char>,
    pub block_hash: Seq<u8>,
    pub block_number: BlockNumber,
    pub timestamp: BlockTime,
    pub extras: Seq<(Seq<char>, Seq<char>)>,
}

/// A decoded trigger of type `T`, annotated with the handler that must
/// run it and the block it came from. Immutable once constructed.
pub struct TriggerWithHandler<T> {
    /// The decoded trigger itself.
    pub trigger: T,
    /// The name of the handler to invoke for it.
    pub handler: String,
    /// The pointer of the triggering block.
    pub block_ptr: BlockPtr,
    /// The timestamp of the triggering block.
    pub timestamp: BlockTime,
    /// Key-value pairs to attach to execution logs.
    pub logging_extras: LogPayload,
}

impl<T> TriggerWithHandler<T> {
    /// The handler name this wrapper carries.
    pub open spec fn spec_handler(&self) -> Seq<char> {
        self.handler@
    }

    /// The block pointer this wrapper carries.
    pub open spec fn spec_block_ptr(&self) -> (Seq<u8>, BlockNumber) {
        self.block_ptr.model()
    }

    /// The block timestamp this wrapper carries.
    pub open spec fn spec_timestamp(&self) -> BlockTime {
        self.timestamp
    }

    /// The logging payload this wrapper carries.
    pub open spec fn spec_extras(&self) -> Seq<(Seq<char>, Seq<char>)> {
        self.logging_extras.model()
    }

    /// Everything this wrapper carries, as plain values.
    pub open spec fn outcome(&self) -> MatchOutcome<T> {
        MatchOutcome {
            trigger: self.trigger,
            handler: self.spec_handler(),
            block_hash: self.spec_block_ptr().0,
            block_number: self.spec_block_ptr().1,
            timestamp: self.spec_timestamp(),
            extras: self.spec_extras(),
        }
    }

    /// Wraps a decoded trigger with its handler and block metadata and
    /// an empty logging payload.
    pub fn new(trigger: T, handler: String, block_ptr: BlockPtr, timestamp: BlockTime) -> (r:
        TriggerWithHandler<T>)
        ensures
            r.trigger == trigger,
            r.spec_handler() == handler@,
            r.spec_block_ptr() == block_ptr.model(),
            r.spec_timestamp() == timestamp,
            r.spec_extras() == Seq::<(Seq<char>, Seq<char>)>::empty(),
    {
        Self::new_with_logging_extras(trigger, handler, block_ptr, timestamp, LogPayload::new())
    }

    /// Wraps a decoded trigger with its handler, block metadata, and
    /// the key-value pairs to be logged when the handler has run.
    pub fn new_with_logging_extras(
        trigger: T,
        handler: String,
        block_ptr: BlockPtr,
        timestamp: BlockTime,
        logging_extras: LogPayload,
    ) -> (r: TriggerWithHandler<T>)
        ensures
            r.trigger == trigger,
            r.spec_handler() == handler@,
            r.spec_block_ptr() == block_ptr.model(),
            r.spec_timestamp() == timestamp,
            r.spec_extras() == logging_extras.model(),
    {
        TriggerWithHandler { trigger, handler, block_ptr, timestamp, logging_extras }
    }

    /// The name of the handler to invoke.
    pub fn handler_name(&self) -> (r: &str)
        ensures
            r@ == self.spec_handler(),
    {
        self.handler.as_str()
    }

    /// The pointer of the triggering block.
    pub fn block_ptr(&self) -> (r: BlockPtr)
        ensures
            r.model() == self.spec_block_ptr(),
    {
        self.block_ptr.clone()
    }

    /// The timestamp of the triggering block.
    pub fn timestamp(&self) -> (r: BlockTime)
        ensures
            r == self.spec_timestamp(),
    {
        self.timestamp
    }

    /// The key-value pairs to be logged once the trigger is processed.
    pub fn logging_extras(&self) -> (r: LogPayload)
        ensures
            r.model() == self.spec_extras(),
    {
        self.logging_extras.clone()
    }
}

} // verus!
