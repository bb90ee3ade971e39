//! The Call Executor's message construction: caller-supplied call
//! parameters become a synthetic [`CallMessage`] against a state snapshot.
//!
//! Defaulting rules: the sender defaults to the zero address, the gas limit
//! to a caller-chosen ceiling (the configured call ceiling, or the block's
//! own gas limit for gas estimation), price and value to zero, the input to
//! empty bytes; the nonce is read from the snapshot at the resolved height.
//! A call whose `to` is omitted signals contract creation, which this
//! call-only path rejects as a conversion error rather than executing.

use vstd::prelude::*;

use crate::chain::{AccessListEntry, ChainDb, LogRecord};
use crate::state::nonce_at;
use crate::words::{copy_bytes, zero_addr_bytes, zero_u256_bytes, Address, StorageU256};
use crate::QueryError;

verus! {

/// A caller-supplied message call, in the storage-side type system. The
/// three envelopes mirror the transaction shapes; every field a caller may
/// omit is optional.
pub enum MessageCall {
    Legacy {
        from: Option<Address>,
        to: Option<Address>,
        gas: Option<u64>,
        gas_price: Option<StorageU256>,
        value: Option<StorageU256>,
        data: Option<Vec<u8>>,
    },
    AccessList {
        from: Option<Address>,
        to: Option<Address>,
        gas: Option<u64>,
        gas_price: Option<StorageU256>,
        value: Option<StorageU256>,
        data: Option<Vec<u8>>,
        access_list: Option<Vec<AccessListEntry>>,
    },
    FeeMarket {
        from: Option<Address>,
        to: Option<Address>,
        gas: Option<u64>,
        max_fee_per_gas: Option<StorageU256>,
        max_priority_fee_per_gas: Option<StorageU256>,
        value: Option<StorageU256>,
        data: Option<Vec<u8>>,
        access_list: Option<Vec<AccessListEntry>>,
    },
}

impl MessageCall {
    pub open spec fn wf(&self) -> bool {
        &&& match self.spec_from() {
            Some(a) => a.wf(),
            None => true,
        }
        &&& match self.spec_to() {
            Some(a) => a.wf(),
            None => true,
        }
        &&& match self.spec_price() {
            Some(p) => p.wf(),
            None => true,
        }
        &&& match self.spec_value() {
            Some(v) => v.wf(),
            None => true,
        }
    }

    pub open spec fn spec_from(&self) -> Option<Address> {
        match self {
            MessageCall::Legacy { from, .. } => *from,
            MessageCall::AccessList { from, .. } => *from,
            MessageCall::FeeMarket { from, .. } => *from,
        }
    }

    pub open spec fn spec_to(&self) -> Option<Address> {
        match self {
            MessageCall::Legacy { to, .. } => *to,
            MessageCall::AccessList { to, .. } => *to,
            MessageCall::FeeMarket { to, .. } => *to,
        }
    }

    pub open spec fn spec_gas(&self) -> Option<u64> {
        match self {
            MessageCall::Legacy { gas, .. } => *gas,
            MessageCall::AccessList { gas, .. } => *gas,
            MessageCall::FeeMarket { gas, .. } => *gas,
        }
    }

    /// The price the synthetic message carries: the gas price where the
    /// shape has one, the fee cap for the fee-market shape.
    pub open spec fn spec_price(&self) -> Option<StorageU256> {
        match self {
            MessageCall::Legacy { gas_price, .. } => *gas_price,
            MessageCall::AccessList { gas_price, .. } => *gas_price,
            MessageCall::FeeMarket { max_fee_per_gas, .. } => *max_fee_per_gas,
        }
    }

    pub open spec fn spec_value(&self) -> Option<StorageU256> {
        match self {
            MessageCall::Legacy { value, .. } => *value,
            MessageCall::AccessList { value, .. } => *value,
            MessageCall::FeeMarket { value, .. } => *value,
        }
    }

    pub open spec fn spec_data(&self) -> Option<Seq<u8>> {
        match self {
            MessageCall::Legacy { data: Some(d), .. } => Some(d@),
            MessageCall::Legacy { data: None, .. } => None,
            MessageCall::AccessList { data: Some(d), .. } => Some(d@),
            MessageCall::AccessList { data: None, .. } => None,
            MessageCall::FeeMarket { data: Some(d), .. } => Some(d@),
            MessageCall::FeeMarket { data: None, .. } => None,
        }
    }

    /// The sender the message will carry: `from`, or the zero address.
    pub open spec fn spec_sender_bytes(&self) -> Seq<u8> {
        match self.spec_from() {
            Some(a) => a@,
            None => zero_addr_bytes(),
        }
    }
}

/// The synthetic transaction message handed to the execution engine.
/// Constructed fresh per call, never persisted.
pub struct CallMessage {
    pub sender: Address,
    pub recipient: Address,
    pub gas_limit: u64,
    pub gas_price: StorageU256,
    pub value: StorageU256,
    pub input: Vec<u8>,
    pub nonce: u64,
}

/// The ghost image of a [`CallMessage`].
pub ghost struct CallMessageView {
    pub sender: Seq<u8>,
    pub recipient: Seq<u8>,
    pub gas_limit: u64,
    pub gas_price: Seq<u8>,
    pub value: Seq<u8>,
    pub input: Seq<u8>,
    pub nonce: u64,
}

impl View for CallMessage {
    type V = CallMessageView;

    open spec fn view(&self) -> CallMessageView {
        CallMessageView {
            sender: self.sender@,
            recipient: self.recipient@,
            gas_limit: self.gas_limit,
            gas_price: self.gas_price@,
            value: self.value@,
            input: self.input@,
            nonce: self.nonce,
        }
    }
}

impl CallMessage {
    pub open spec fn wf(&self) -> bool {
        self.sender.wf() && self.recipient.wf() && self.gas_price.wf() && self.value.wf()
    }
}

/// The message that `call` parameters build at `height` with the given gas
/// default, or nothing when the parameters signal contract creation.
pub open spec fn build_message_spec(
    db: ChainDb,
    call: MessageCall,
    height: u64,
    default_gas_limit: u64,
) -> Option<CallMessageView> {
    match call.spec_to() {
        None => None,
        Some(to) => Some(
            CallMessageView {
                sender: call.spec_sender_bytes(),
                recipient: to@,
                gas_limit: match call.spec_gas() {
                    Some(g) => g,
                    None => default_gas_limit,
                },
                gas_price: match call.spec_price() {
                    Some(p) => p@,
                    None => zero_u256_bytes(),
                },
                value: match call.spec_value() {
                    Some(v) => v@,
                    None => zero_u256_bytes(),
                },
                input: match call.spec_data() {
                    Some(d) => d,
                    None => Seq::empty(),
                },
                nonce: nonce_at(db.account_writes@, call.spec_sender_bytes(), height),
            },
        ),
    }
}

/// Build the synthetic message for a call at `height`.
///
/// Returns `ConversionError` exactly when `to` is omitted (creation intent
/// on the call-only path); otherwise the result is pinned by
/// [`build_message_spec`].
pub fn build_call_message(
    db: &ChainDb,
    call: &MessageCall,
    height: u64,
    default_gas_limit: u64,
) -> (r: Result<CallMessage, QueryError>)
    requires
        db.wf(),
        call.wf(),
    ensures
        match r {
            Ok(m) => build_message_spec(*db, *call, height, default_gas_limit) == Some(m@)
                && m.wf(),
            Err(e) => e == QueryError::ConversionError && build_message_spec(
                *db,
                *call,
                height,
                default_gas_limit,
            ) is None,
        },
{
    let to_field = match call {
        MessageCall::Legacy { to, .. } => to,
        MessageCall::AccessList { to, .. } => to,
        MessageCall::FeeMarket { to, .. } => to,
    };
    let recipient = match to_field {
        Some(a) => a.dup(),
        None => {
            return Err(QueryError::ConversionError);
        },
    };
    let from_field = match call {
        MessageCall::Legacy { from, .. } => from,
        MessageCall::AccessList { from, .. } => from,
        MessageCall::FeeMarket { from, .. } => from,
    };
    let sender = match from_field {
        Some(a) => a.dup(),
        None => Address::zero(),
    };
    let gas_field = match call {
        MessageCall::Legacy { gas, .. } => gas,
        MessageCall::AccessList { gas, .. } => gas,
        MessageCall::FeeMarket { gas, .. } => gas,
    };
    let gas_limit: u64 = match gas_field {
        Some(g) => *g,
        None => default_gas_limit,
    };
    let price_field = match call {
        MessageCall::Legacy { gas_price, .. } => gas_price,
        MessageCall::AccessList { gas_price, .. } => gas_price,
        MessageCall::FeeMarket { max_fee_per_gas, .. } => max_fee_per_gas,
    };
    let gas_price = match price_field {
        Some(p) => p.dup(),
        None => StorageU256::zero(),
    };
    let value_field = match call {
        MessageCall::Legacy { value, .. } => value,
        MessageCall::AccessList { value, .. } => value,
        MessageCall::FeeMarket { value, .. } => value,
    };
    let value = match value_field {
        Some(v) => v.dup(),
        None => StorageU256::zero(),
    };
    let data_field = match call {
        MessageCall::Legacy { data, .. } => data,
        MessageCall::AccessList { data, .. } => data,
        MessageCall::FeeMarket { data, .. } => data,
    };
    let input: Vec<u8> = match data_field {
        Some(d) => copy_bytes(d),
        None => Vec::new(),
    };
    let nonce: u64 = match db.read_account(&sender, height) {
        Some(a) => a.nonce,
        None => 0,
    };
    let m = CallMessage { sender, recipient, gas_limit, gas_price, value, input, nonce };
    proof {
        assert(m.input@ =~= match call.spec_data() {
            Some(d) => d,
            None => Seq::<u8>::empty(),
        });
    }
    Ok(m)
}

/// What the execution engine reports for one synthetic call: the returned
/// bytes, the gas left from the supplied limit, whether execution
/// succeeded (a revert is a result, not an error), and the emitted logs.
pub struct ExecOutcome {
    pub output: Vec<u8>,
    pub gas_left: u64,
    pub success: bool,
    pub logs: Vec<LogRecord>,
}

} // verus!
