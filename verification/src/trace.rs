//! What a transaction left behind, as far as pool creations are read from it:
//! its logs, each with the call that emitted it.

use crate::encoding::byte_lists;
use vstd::prelude::*;

verus! {

/// One log of a transaction.
#[derive(Clone, Debug, PartialEq, Eq)]
pub struct Log {
    /// The contract that emitted the log.
    pub address: Vec<u8>,
    /// The indexed words; the first one names the event.
    pub topics: Vec<Vec<u8>>,
    /// The encoded arguments that are not indexed.
    pub data: Vec<u8>,
}

/// The mathematical content of a [`Log`].
pub ghost struct LogView {
    pub address: Seq<u8>,
    pub topics: Seq<Seq<u8>>,
    pub data: Seq<u8>,
}

impl View for Log {
    type V = LogView;

    open spec fn view(&self) -> LogView {
        LogView { address: self.address@, topics: byte_lists(self.topics@), data: self.data@ }
    }
}

/// One call of a transaction.
#[derive(Clone, Debug, PartialEq, Eq)]
pub struct Call {
    /// The selector of the called function and its encoded arguments.
    pub input: Vec<u8>,
}

/// The mathematical content of a [`Call`].
pub ghost struct CallView {
    pub input: Seq<u8>,
}

impl View for Call {
    type V = CallView;

    open spec fn view(&self) -> CallView {
        CallView { input: self.input@ }
    }
}

/// A log together with the call that emitted it.
#[derive(Clone, Debug, PartialEq, Eq)]
pub struct LogWithCall {
    pub log: Log,
    pub call: Call,
}

/// The logs of one transaction in the order in which they were emitted, each
/// with its call. Logs of reverted calls are not part of it.
#[derive(Clone, Debug, PartialEq, Eq)]
pub struct TransactionTrace {
    pub logs_with_calls: Vec<LogWithCall>,
}

/// The logs of a transaction, in order.
pub open spec fn log_views(entries: Seq<LogWithCall>) -> Seq<LogView> {
    Seq::new(entries.len(), |i: int| entries[i].log@)
}

impl View for TransactionTrace {
    type V = Seq<LogView>;

    open spec fn view(&self) -> Seq<LogView> {
        log_views(self.logs_with_calls@)
    }
}

} // verus!
