//! Classes, methods and their wire ids, the argument records of every
//! method, and the two-level dispatch from a method to its grammar.
use vstd::prelude::*;
use crate::error::FrameDecodeErr;
use crate::field::{FieldTable, FieldTableView};

use crate::connection::{
    parse_connection_start, spec_connection_start, parse_connection_start_ok,
    spec_connection_start_ok, parse_connection_secure, spec_connection_secure,
    parse_connection_secure_ok, spec_connection_secure_ok, parse_connection_tune,
    spec_connection_tune, parse_connection_tune_ok, spec_connection_tune_ok, parse_connection_open,
    spec_connection_open, parse_connection_open_ok, spec_connection_open_ok, parse_connection_close,
    spec_connection_close, parse_connection_close_ok, spec_connection_close_ok,
};
use crate::channel::{
    parse_channel_open, spec_channel_open, parse_channel_open_ok, spec_channel_open_ok,
    parse_channel_flow, spec_channel_flow, parse_channel_flow_ok, spec_channel_flow_ok,
    parse_channel_close, spec_channel_close, parse_channel_close_ok, spec_channel_close_ok,
};
use crate::access::{
    parse_access_request, spec_access_request, parse_access_request_ok, spec_access_request_ok,
};
use crate::exchange::{
    parse_exchange_declare, spec_exchange_declare, parse_exchange_declare_ok,
    spec_exchange_declare_ok, parse_exchange_delete, spec_exchange_delete, parse_exchange_delete_ok,
    spec_exchange_delete_ok, parse_exchange_bind, spec_exchange_bind, parse_exchange_bind_ok,
    spec_exchange_bind_ok, parse_exchange_unbind, spec_exchange_unbind, parse_exchange_unbind_ok,
    spec_exchange_unbind_ok,
};
use crate::queue::{
    parse_queue_declare, spec_queue_declare, parse_queue_declare_ok, spec_queue_declare_ok,
    parse_queue_bind, spec_queue_bind, parse_queue_bind_ok, spec_queue_bind_ok, parse_queue_unbind,
    spec_queue_unbind, parse_queue_unbind_ok, spec_queue_unbind_ok, parse_queue_purge,
    spec_queue_purge, parse_queue_purge_ok, spec_queue_purge_ok, parse_queue_delete,
    spec_queue_delete, parse_queue_delete_ok, spec_queue_delete_ok,
};
use crate::basic::{
    parse_basic_qos, spec_basic_qos, parse_basic_qos_ok, spec_basic_qos_ok, parse_basic_consume,
    spec_basic_consume, parse_basic_consume_ok, spec_basic_consume_ok, parse_basic_cancel,
    spec_basic_cancel, parse_basic_cancel_ok, spec_basic_cancel_ok, parse_basic_publish,
    spec_basic_publish, parse_basic_return, spec_basic_return, parse_basic_delivery,
    spec_basic_delivery, parse_basic_get, spec_basic_get, parse_basic_get_ok, spec_basic_get_ok,
    parse_basic_get_empty, spec_basic_get_empty, parse_basic_ack, spec_basic_ack,
    parse_basic_reject, spec_basic_reject, parse_basic_recover_async, spec_basic_recover_async,
    parse_basic_recover, spec_basic_recover, parse_basic_recover_ok, spec_basic_recover_ok,
    parse_basic_nack, spec_basic_nack,
};
use crate::confirm::{
    parse_confirm_select, spec_confirm_select, parse_confirm_select_ok, spec_confirm_select_ok,
};
use crate::tx::{
    parse_tx_select, spec_tx_select, parse_tx_select_ok, spec_tx_select_ok, parse_tx_commit,
    spec_tx_commit, parse_tx_commit_ok, spec_tx_commit_ok, parse_tx_rollback, spec_tx_rollback,
    parse_tx_rollback_ok, spec_tx_rollback_ok,
};

verus! {

/// A method class.
#[derive(Debug, Clone, Copy, PartialEq, Eq, Structural)]
pub enum Class {
    Connection,
    Channel,
    Access,
    Exchange,
    Queue,
    Basic,
    Confirm,
    Tx,
}

/// A method of the Connection class.
#[derive(Debug, Clone, Copy, PartialEq, Eq, Structural)]
pub enum ConnectionMethod {
    Start,
    StartOk,
    Secure,
    SecureOk,
    Tune,
    TuneOk,
    Open,
    OpenOk,
    Close,
    CloseOk,
}

/// A method of the Channel class.
#[derive(Debug, Clone, Copy, PartialEq, Eq, Structural)]
pub enum ChannelMethod {
    Open,
    OpenOk,
    Flow,
    FlowOk,
    Close,
    CloseOk,
}

/// A method of the Access class.
#[derive(Debug, Clone, Copy, PartialEq, Eq, Structural)]
pub enum AccessMethod {
    Request,
    RequestOk,
}

/// A method of the Exchange class.
#[derive(Debug, Clone, Copy, PartialEq, Eq, Structural)]
pub enum ExchangeMethod {
    Declare,
    DeclareOk,
    Delete,
    DeleteOk,
    Bind,
    BindOk,
    Unbind,
    UnbindOk,
}

/// A method of the Queue class.
#[derive(Debug, Clone, Copy, PartialEq, Eq, Structural)]
pub enum QueueMethod {
    Declare,
    DeclareOk,
    Bind,
    BindOk,
    Purge,
    PurgeOk,
    Delete,
    DeleteOk,
    Unbind,
    UnbindOk,
}

/// A method of the Basic class.
#[derive(Debug, Clone, Copy, PartialEq, Eq, Structural)]
pub enum BasicMethod {
    Qos,
    QosOk,
    Consume,
    ConsumeOk,
    Cancel,
    CancelOk,
    Publish,
    Return,
    Deliver,
    Get,
    GetOk,
    GetEmpty,
    Ack,
    Reject,
    RecoverAsync,
    Recover,
    RecoverOk,
    Nack,
}

/// A method of the Confirm class.
#[derive(Debug, Clone, Copy, PartialEq, Eq, Structural)]
pub enum ConfirmMethod {
    Select,
    SelectOk,
}

/// A method of the Tx class.
#[derive(Debug, Clone, Copy, PartialEq, Eq, Structural)]
pub enum TxMethod {
    Select,
    SelectOk,
    Commit,
    CommitOk,
    Rollback,
    RollbackOk,
}

/// A method: its class, then the method within that class.
#[derive(Debug, Clone, Copy, PartialEq, Eq, Structural)]
pub enum Method {
    Connection(ConnectionMethod),
    Channel(ChannelMethod),
    Access(AccessMethod),
    Exchange(ExchangeMethod),
    Queue(QueueMethod),
    Basic(BasicMethod),
    Confirm(ConfirmMethod),
    Tx(TxMethod),
}

/// The class with wire id `id`, if any.
pub open spec fn class_of(id: u16) -> Option<Class> {
    match id {
        10 => Some(Class::Connection),
        20 => Some(Class::Channel),
        30 => Some(Class::Access),
        40 => Some(Class::Exchange),
        50 => Some(Class::Queue),
        60 => Some(Class::Basic),
        85 => Some(Class::Confirm),
        90 => Some(Class::Tx),
        _ => None,
    }
}

/// The wire id of a class.
pub open spec fn class_id(c: Class) -> u16 {
    match c {
        Class::Connection => 10,
        Class::Channel => 20,
        Class::Access => 30,
        Class::Exchange => 40,
        Class::Queue => 50,
        Class::Basic => 60,
        Class::Confirm => 85,
        Class::Tx => 90,
    }
}

/// The method of class `c` with wire id `id`, if any.
pub open spec fn method_of(c: Class, id: u16) -> Option<Method> {
    match c {
        Class::Connection => match id {
            10 => Some(Method::Connection(ConnectionMethod::Start)),
            11 => Some(Method::Connection(ConnectionMethod::StartOk)),
            20 => Some(Method::Connection(ConnectionMethod::Secure)),
            21 => Some(Method::Connection(ConnectionMethod::SecureOk)),
            30 => Some(Method::Connection(ConnectionMethod::Tune)),
            31 => Some(Method::Connection(ConnectionMethod::TuneOk)),
            40 => Some(Method::Connection(ConnectionMethod::Open)),
            41 => Some(Method::Connection(ConnectionMethod::OpenOk)),
            50 => Some(Method::Connection(ConnectionMethod::Close)),
            51 => Some(Method::Connection(ConnectionMethod::CloseOk)),
            _ => None,
        },
        Class::Channel => match id {
            10 => Some(Method::Channel(ChannelMethod::Open)),
            11 => Some(Method::Channel(ChannelMethod::OpenOk)),
            20 => Some(Method::Channel(ChannelMethod::Flow)),
            21 => Some(Method::Channel(ChannelMethod::FlowOk)),
            40 => Some(Method::Channel(ChannelMethod::Close)),
            41 => Some(Method::Channel(ChannelMethod::CloseOk)),
            _ => None,
        },
        Class::Access => match id {
            10 => Some(Method::Access(AccessMethod::Request)),
            11 => Some(Method::Access(AccessMethod::RequestOk)),
            _ => None,
        },
        Class::Exchange => match id {
            10 => Some(Method::Exchange(ExchangeMethod::Declare)),
            11 => Some(Method::Exchange(ExchangeMethod::DeclareOk)),
            20 => Some(Method::Exchange(ExchangeMethod::Delete)),
            21 => Some(Method::Exchange(ExchangeMethod::DeleteOk)),
            30 => Some(Method::Exchange(ExchangeMethod::Bind)),
            31 => Some(Method::Exchange(ExchangeMethod::BindOk)),
            40 => Some(Method::Exchange(ExchangeMethod::Unbind)),
            51 => Some(Method::Exchange(ExchangeMethod::UnbindOk)),
            _ => None,
        },
        Class::Queue => match id {
            10 => Some(Method::Queue(QueueMethod::Declare)),
            11 => Some(Method::Queue(QueueMethod::DeclareOk)),
            20 => Some(Method::Queue(QueueMethod::Bind)),
            21 => Some(Method::Queue(QueueMethod::BindOk)),
            30 => Some(Method::Queue(QueueMethod::Purge)),
            31 => Some(Method::Queue(QueueMethod::PurgeOk)),
            40 => Some(Method::Queue(QueueMethod::Delete)),
            41 => Some(Method::Queue(QueueMethod::DeleteOk)),
            50 => Some(Method::Queue(QueueMethod::Unbind)),
            51 => Some(Method::Queue(QueueMethod::UnbindOk)),
            _ => None,
        },
        Class::Basic => match id {
            10 => Some(Method::Basic(BasicMethod::Qos)),
            11 => Some(Method::Basic(BasicMethod::QosOk)),
            20 => Some(Method::Basic(BasicMethod::Consume)),
            21 => Some(Method::Basic(BasicMethod::ConsumeOk)),
            30 => Some(Method::Basic(BasicMethod::Cancel)),
            31 => Some(Method::Basic(BasicMethod::CancelOk)),
            40 => Some(Method::Basic(BasicMethod::Publish)),
            50 => Some(Method::Basic(BasicMethod::Return)),
            60 => Some(Method::Basic(BasicMethod::Deliver)),
            70 => Some(Method::Basic(BasicMethod::Get)),
            71 => Some(Method::Basic(BasicMethod::GetOk)),
            72 => Some(Method::Basic(BasicMethod::GetEmpty)),
            80 => Some(Method::Basic(BasicMethod::Ack)),
            90 => Some(Method::Basic(BasicMethod::Reject)),
            100 => Some(Method::Basic(BasicMethod::RecoverAsync)),
            110 => Some(Method::Basic(BasicMethod::Recover)),
            111 => Some(Method::Basic(BasicMethod::RecoverOk)),
            120 => Some(Method::Basic(BasicMethod::Nack)),
            _ => None,
        },
        Class::Confirm => match id {
            10 => Some(Method::Confirm(ConfirmMethod::Select)),
            11 => Some(Method::Confirm(ConfirmMethod::SelectOk)),
            _ => None,
        },
        Class::Tx => match id {
            10 => Some(Method::Tx(TxMethod::Select)),
            11 => Some(Method::Tx(TxMethod::SelectOk)),
            20 => Some(Method::Tx(TxMethod::Commit)),
            21 => Some(Method::Tx(TxMethod::CommitOk)),
            30 => Some(Method::Tx(TxMethod::Rollback)),
            31 => Some(Method::Tx(TxMethod::RollbackOk)),
            _ => None,
        },
    }
}

/// The class of a method.
pub open spec fn class_of_method(m: Method) -> Class {
    match m {
        Method::Connection(_) => Class::Connection,
        Method::Channel(_) => Class::Channel,
        Method::Access(_) => Class::Access,
        Method::Exchange(_) => Class::Exchange,
        Method::Queue(_) => Class::Queue,
        Method::Basic(_) => Class::Basic,
        Method::Confirm(_) => Class::Confirm,
        Method::Tx(_) => Class::Tx,
    }
}

/// The wire id of a method within its class.
pub open spec fn method_id(m: Method) -> u16 {
    match m {
        Method::Connection(ConnectionMethod::Start) => 10,
        Method::Connection(ConnectionMethod::StartOk) => 11,
        Method::Connection(ConnectionMethod::Secure) => 20,
        Method::Connection(ConnectionMethod::SecureOk) => 21,
        Method::Connection(ConnectionMethod::Tune) => 30,
        Method::Connection(ConnectionMethod::TuneOk) => 31,
        Method::Connection(ConnectionMethod::Open) => 40,
        Method::Connection(ConnectionMethod::OpenOk) => 41,
        Method::Connection(ConnectionMethod::Close) => 50,
        Method::Connection(ConnectionMethod::CloseOk) => 51,
        Method::Channel(ChannelMethod::Open) => 10,
        Method::Channel(ChannelMethod::OpenOk) => 11,
        Method::Channel(ChannelMethod::Flow) => 20,
        Method::Channel(ChannelMethod::FlowOk) => 21,
        Method::Channel(ChannelMethod::Close) => 40,
        Method::Channel(ChannelMethod::CloseOk) => 41,
        Method::Access(AccessMethod::Request) => 10,
        Method::Access(AccessMethod::RequestOk) => 11,
        Method::Exchange(ExchangeMethod::Declare) => 10,
        Method::Exchange(ExchangeMethod::DeclareOk) => 11,
        Method::Exchange(ExchangeMethod::Delete) => 20,
        Method::Exchange(ExchangeMethod::DeleteOk) => 21,
        Method::Exchange(ExchangeMethod::Bind) => 30,
        Method::Exchange(ExchangeMethod::BindOk) => 31,
        Method::Exchange(ExchangeMethod::Unbind) => 40,
        Method::Exchange(ExchangeMethod::UnbindOk) => 51,
        Method::Queue(QueueMethod::Declare) => 10,
        Method::Queue(QueueMethod::DeclareOk) => 11,
        Method::Queue(QueueMethod::Bind) => 20,
        Method::Queue(QueueMethod::BindOk) => 21,
        Method::Queue(QueueMethod::Purge) => 30,
        Method::Queue(QueueMethod::PurgeOk) => 31,
        Method::Queue(QueueMethod::Delete) => 40,
        Method::Queue(QueueMethod::DeleteOk) => 41,
        Method::Queue(QueueMethod::Unbind) => 50,
        Method::Queue(QueueMethod::UnbindOk) => 51,
        Method::Basic(BasicMethod::Qos) => 10,
        Method::Basic(BasicMethod::QosOk) => 11,
        Method::Basic(BasicMethod::Consume) => 20,
        Method::Basic(BasicMethod::ConsumeOk) => 21,
        Method::Basic(BasicMethod::Cancel) => 30,
        Method::Basic(BasicMethod::CancelOk) => 31,
        Method::Basic(BasicMethod::Publish) => 40,
        Method::Basic(BasicMethod::Return) => 50,
        Method::Basic(BasicMethod::Deliver) => 60,
        Method::Basic(BasicMethod::Get) => 70,
        Method::Basic(BasicMethod::GetOk) => 71,
        Method::Basic(BasicMethod::GetEmpty) => 72,
        Method::Basic(BasicMethod::Ack) => 80,
        Method::Basic(BasicMethod::Reject) => 90,
        Method::Basic(BasicMethod::RecoverAsync) => 100,
        Method::Basic(BasicMethod::Recover) => 110,
        Method::Basic(BasicMethod::RecoverOk) => 111,
        Method::Basic(BasicMethod::Nack) => 120,
        Method::Confirm(ConfirmMethod::Select) => 10,
        Method::Confirm(ConfirmMethod::SelectOk) => 11,
        Method::Tx(TxMethod::Select) => 10,
        Method::Tx(TxMethod::SelectOk) => 11,
        Method::Tx(TxMethod::Commit) => 20,
        Method::Tx(TxMethod::CommitOk) => 21,
        Method::Tx(TxMethod::Rollback) => 30,
        Method::Tx(TxMethod::RollbackOk) => 31,
    }
}

/// Maps a wire class id to its class.
pub fn class_from_id(id: u16) -> (r: Option<Class>)
    ensures
        r == class_of(id),
{
    match id {
        10 => Some(Class::Connection),
        20 => Some(Class::Channel),
        30 => Some(Class::Access),
        40 => Some(Class::Exchange),
        50 => Some(Class::Queue),
        60 => Some(Class::Basic),
        85 => Some(Class::Confirm),
        90 => Some(Class::Tx),
        _ => None,
    }
}

/// Maps a wire method id within `class` to its method.
pub fn get_method_type(class: Class, method_id: u16) -> (r: Result<Method, FrameDecodeErr>)
    ensures
        r == match method_of(class, method_id) {
            Some(m) => Ok::<Method, FrameDecodeErr>(m),
            None => Err(FrameDecodeErr::UnknownMethodType),
        },
{
    let m = match class {
        Class::Connection => match method_id {
            10 => Some(Method::Connection(ConnectionMethod::Start)),
            11 => Some(Method::Connection(ConnectionMethod::StartOk)),
            20 => Some(Method::Connection(ConnectionMethod::Secure)),
            21 => Some(Method::Connection(ConnectionMethod::SecureOk)),
            30 => Some(Method::Connection(ConnectionMethod::Tune)),
            31 => Some(Method::Connection(ConnectionMethod::TuneOk)),
            40 => Some(Method::Connection(ConnectionMethod::Open)),
            41 => Some(Method::Connection(ConnectionMethod::OpenOk)),
            50 => Some(Method::Connection(ConnectionMethod::Close)),
            51 => Some(Method::Connection(ConnectionMethod::CloseOk)),
            _ => None,
        },
        Class::Channel => match method_id {
            10 => Some(Method::Channel(ChannelMethod::Open)),
            11 => Some(Method::Channel(ChannelMethod::OpenOk)),
            20 => Some(Method::Channel(ChannelMethod::Flow)),
            21 => Some(Method::Channel(ChannelMethod::FlowOk)),
            40 => Some(Method::Channel(ChannelMethod::Close)),
            41 => Some(Method::Channel(ChannelMethod::CloseOk)),
            _ => None,
        },
        Class::Access => match method_id {
            10 => Some(Method::Access(AccessMethod::Request)),
            11 => Some(Method::Access(AccessMethod::RequestOk)),
            _ => None,
        },
        Class::Exchange => match method_id {
            10 => Some(Method::Exchange(ExchangeMethod::Declare)),
            11 => Some(Method::Exchange(ExchangeMethod::DeclareOk)),
            20 => Some(Method::Exchange(ExchangeMethod::Delete)),
            21 => Some(Method::Exchange(ExchangeMethod::DeleteOk)),
            30 => Some(Method::Exchange(ExchangeMethod::Bind)),
            31 => Some(Method::Exchange(ExchangeMethod::BindOk)),
            40 => Some(Method::Exchange(ExchangeMethod::Unbind)),
            51 => Some(Method::Exchange(ExchangeMethod::UnbindOk)),
            _ => None,
        },
        Class::Queue => match method_id {
            10 => Some(Method::Queue(QueueMethod::Declare)),
            11 => Some(Method::Queue(QueueMethod::DeclareOk)),
            20 => Some(Method::Queue(QueueMethod::Bind)),
            21 => Some(Method::Queue(QueueMethod::BindOk)),
            30 => Some(Method::Queue(QueueMethod::Purge)),
            31 => Some(Method::Queue(QueueMethod::PurgeOk)),
            40 => Some(Method::Queue(QueueMethod::Delete)),
            41 => Some(Method::Queue(QueueMethod::DeleteOk)),
            50 => Some(Method::Queue(QueueMethod::Unbind)),
            51 => Some(Method::Queue(QueueMethod::UnbindOk)),
            _ => None,
        },
        Class::Basic => match method_id {
            10 => Some(Method::Basic(BasicMethod::Qos)),
            11 => Some(Method::Basic(BasicMethod::QosOk)),
            20 => Some(Method::Basic(BasicMethod::Consume)),
            21 => Some(Method::Basic(BasicMethod::ConsumeOk)),
            30 => Some(Method::Basic(BasicMethod::Cancel)),
            31 => Some(Method::Basic(BasicMethod::CancelOk)),
            40 => Some(Method::Basic(BasicMethod::Publish)),
            50 => Some(Method::Basic(BasicMethod::Return)),
            60 => Some(Method::Basic(BasicMethod::Deliver)),
            70 => Some(Method::Basic(BasicMethod::Get)),
            71 => Some(Method::Basic(BasicMethod::GetOk)),
            72 => Some(Method::Basic(BasicMethod::GetEmpty)),
            80 => Some(Method::Basic(BasicMethod::Ack)),
            90 => Some(Method::Basic(BasicMethod::Reject)),
            100 => Some(Method::Basic(BasicMethod::RecoverAsync)),
            110 => Some(Method::Basic(BasicMethod::Recover)),
            111 => Some(Method::Basic(BasicMethod::RecoverOk)),
            120 => Some(Method::Basic(BasicMethod::Nack)),
            _ => None,
        },
        Class::Confirm => match method_id {
            10 => Some(Method::Confirm(ConfirmMethod::Select)),
            11 => Some(Method::Confirm(ConfirmMethod::SelectOk)),
            _ => None,
        },
        Class::Tx => match method_id {
            10 => Some(Method::Tx(TxMethod::Select)),
            11 => Some(Method::Tx(TxMethod::SelectOk)),
            20 => Some(Method::Tx(TxMethod::Commit)),
            21 => Some(Method::Tx(TxMethod::CommitOk)),
            30 => Some(Method::Tx(TxMethod::Rollback)),
            31 => Some(Method::Tx(TxMethod::RollbackOk)),
            _ => None,
        },
    };
    match m {
        Some(m) => Ok(m),
        None => Err(FrameDecodeErr::UnknownMethodType),
    }
}

/// The decoded arguments of a method: one flat record per method.
///
/// `S` is the type of a short or long string and `T` the type of a field
/// table: `MethodArgs` holds owned bytes, `ArgumentsView` their views.
#[derive(Debug, PartialEq)]
pub enum Arguments<S, T> {
    ConnectionStart {
        version_major: u8,
        version_minor: u8,
        server_properties: T,
        mechanisms: S,
        locales: S,
    },
    ConnectionStartOk { client_properties: T, mechanism: S, response: S, locale: S },
    ConnectionSecure { challenge: S },
    ConnectionSecureOk { response: S },
    ConnectionTune { channel_max: u16, frame_max: u32, heartbeat: u16 },
    ConnectionTuneOk { channel_max: u16, frame_max: u32, heartbeat: u16 },
    ConnectionOpen { vhost: S, capabilities: S, insist: bool },
    ConnectionOpenOk { known_hosts: S },
    ConnectionClose { reply_code: u16, reply_text: S, class_id: u16, method_id: u16 },
    ConnectionCloseOk,
    ChannelOpen { out_of_band: S },
    ChannelOpenOk { channel_id: S },
    ChannelFlow { active: bool },
    ChannelFlowOk { active: bool },
    ChannelClose { reply_code: u16, reply_text: S, class_id: u16, method_id: u16 },
    ChannelCloseOk,
    AccessRequest {
        realm: S,
        exclusive: bool,
        passive: bool,
        active: bool,
        write: bool,
        read: bool,
    },
    AccessRequestOk { ticket: u16 },
    ExchangeDeclare {
        ticket: u16,
        exchange: S,
        exchange_type: S,
        passive: bool,
        durable: bool,
        auto_delete: bool,
        internal: bool,
        no_wait: bool,
        arguments: T,
    },
    ExchangeDeclareOk,
    ExchangeDelete { ticket: u16, exchange: S, if_unused: bool, no_wait: bool },
    ExchangeDeleteOk,
    ExchangeBind {
        ticket: u16,
        destination: S,
        source: S,
        routing_key: S,
        no_wait: bool,
        arguments: T,
    },
    ExchangeBindOk,
    ExchangeUnbind {
        ticket: u16,
        destination: S,
        source: S,
        routing_key: S,
        no_wait: bool,
        arguments: T,
    },
    ExchangeUnbindOk,
    QueueDeclare {
        ticket: u16,
        queue: S,
        passive: bool,
        durable: bool,
        exclusive: bool,
        auto_delete: bool,
        no_wait: bool,
        arguments: T,
    },
    QueueDeclareOk { queue: S, message_count: u32, consumer_count: u32 },
    QueueBind { ticket: u16, queue: S, exchange: S, routing_key: S, no_wait: bool, arguments: T },
    QueueBindOk,
    QueueUnbind { ticket: u16, queue: S, exchange: S, routing_key: S, arguments: T },
    QueueUnbindOk,
    QueuePurge { ticket: u16, queue: S, no_wait: bool },
    QueuePurgeOk { message_count: u32 },
    QueueDelete { ticket: u16, queue: S, if_unused: bool, if_empty: bool, no_wait: bool },
    QueueDeleteOk { message_count: u32 },
    BasicQos { prefetch_size: u32, prefetch_count: u16, global: bool },
    BasicQosOk,
    BasicConsume {
        ticket: u16,
        queue: S,
        consumer_tag: S,
        no_local: bool,
        no_ack: bool,
        exclusive: bool,
        no_wait: bool,
        arguments: T,
    },
    BasicConsumeOk { consumer_tag: S },
    BasicCancel { consumer_tag: S, no_wait: bool },
    BasicCancelOk { consumer_tag: S },
    BasicPublish { ticket: u16, exchange: S, routing_key: S, mandatory: bool, immediate: bool },
    BasicReturn { reply_code: u16, reply_text: S, exchange: S, routing_key: S },
    BasicDeliver {
        consumer_tag: S,
        delivery_tag: u64,
        redelivered: bool,
        exchange: S,
        routing_key: S,
    },
    BasicGet { ticket: u16, queue: S, no_ack: bool },
    BasicGetOk {
        delivery_tag: u64,
        redelivered: bool,
        exchange: S,
        routing_key: S,
        message_count: u32,
    },
    BasicGetEmpty { cluster_id: S },
    BasicAck { delivery_tag: u64, multiple: bool },
    BasicReject { delivery_tag: u64, requeue: bool },
    BasicRecoverAsync { requeue: bool },
    BasicRecover { requeue: bool },
    BasicRecoverOk,
    BasicNack { delivery_tag: u64, multiple: bool, requeue: bool },
    TxSelect,
    TxSelectOk,
    TxCommit,
    TxCommitOk,
    TxRollback,
    TxRollbackOk,
    ConfirmSelect { no_wait: bool },
    ConfirmSelectOk,
}

/// Decoded method arguments as the decoder returns them.
pub type MethodArgs = Arguments<Vec<u8>, FieldTable>;

/// The mathematical value of `MethodArgs`.
pub type ArgumentsView = Arguments<Seq<u8>, FieldTableView>;

impl Arguments<Vec<u8>, FieldTable> {
    pub open spec fn view(&self) -> ArgumentsView {
        match self {
            Arguments::ConnectionStart {
                version_major,
                version_minor,
                server_properties,
                mechanisms,
                locales,
            } => Arguments::ConnectionStart {
                version_major: *version_major,
                version_minor: *version_minor,
                server_properties: server_properties@,
                mechanisms: mechanisms@,
                locales: locales@,
            },
            Arguments::ConnectionStartOk {
                client_properties,
                mechanism,
                response,
                locale,
            } => Arguments::ConnectionStartOk {
                client_properties: client_properties@,
                mechanism: mechanism@,
                response: response@,
                locale: locale@,
            },
            Arguments::ConnectionSecure { challenge } => Arguments::ConnectionSecure {
                challenge: challenge@,
            },
            Arguments::ConnectionSecureOk { response } => Arguments::ConnectionSecureOk {
                response: response@,
            },
            Arguments::ConnectionTune {
                channel_max,
                frame_max,
                heartbeat,
            } => Arguments::ConnectionTune {
                channel_max: *channel_max, frame_max: *frame_max, heartbeat: *heartbeat,
            },
            Arguments::ConnectionTuneOk {
                channel_max,
                frame_max,
                heartbeat,
            } => Arguments::ConnectionTuneOk {
                channel_max: *channel_max, frame_max: *frame_max, heartbeat: *heartbeat,
            },
            Arguments::ConnectionOpen { vhost, capabilities, insist } => Arguments::ConnectionOpen {
                vhost: vhost@, capabilities: capabilities@, insist: *insist,
            },
            Arguments::ConnectionOpenOk { known_hosts } => Arguments::ConnectionOpenOk {
                known_hosts: known_hosts@,
            },
            Arguments::ConnectionClose {
                reply_code,
                reply_text,
                class_id,
                method_id,
            } => Arguments::ConnectionClose {
                reply_code: *reply_code,
                reply_text: reply_text@,
                class_id: *class_id,
                method_id: *method_id,
            },
            Arguments::ConnectionCloseOk => Arguments::ConnectionCloseOk,
            Arguments::ChannelOpen { out_of_band } => Arguments::ChannelOpen {
                out_of_band: out_of_band@,
            },
            Arguments::ChannelOpenOk { channel_id } => Arguments::ChannelOpenOk {
                channel_id: channel_id@,
            },
            Arguments::ChannelFlow { active } => Arguments::ChannelFlow {
                active: *active,
            },
            Arguments::ChannelFlowOk { active } => Arguments::ChannelFlowOk {
                active: *active,
            },
            Arguments::ChannelClose {
                reply_code,
                reply_text,
                class_id,
                method_id,
            } => Arguments::ChannelClose {
                reply_code: *reply_code,
                reply_text: reply_text@,
                class_id: *class_id,
                method_id: *method_id,
            },
            Arguments::ChannelCloseOk => Arguments::ChannelCloseOk,
            Arguments::AccessRequest {
                realm,
                exclusive,
                passive,
                active,
                write,
                read,
            } => Arguments::AccessRequest {
                realm: realm@,
                exclusive: *exclusive,
                passive: *passive,
                active: *active,
                write: *write,
                read: *read,
            },
            Arguments::AccessRequestOk { ticket } => Arguments::AccessRequestOk {
                ticket: *ticket,
            },
            Arguments::ExchangeDeclare {
                ticket,
                exchange,
                exchange_type,
                passive,
                durable,
                auto_delete,
                internal,
                no_wait,
                arguments,
            } => Arguments::ExchangeDeclare {
                ticket: *ticket,
                exchange: exchange@,
                exchange_type: exchange_type@,
                passive: *passive,
                durable: *durable,
                auto_delete: *auto_delete,
                internal: *internal,
                no_wait: *no_wait,
                arguments: arguments@,
            },
            Arguments::ExchangeDeclareOk => Arguments::ExchangeDeclareOk,
            Arguments::ExchangeDelete {
                ticket,
                exchange,
                if_unused,
                no_wait,
            } => Arguments::ExchangeDelete {
                ticket: *ticket, exchange: exchange@, if_unused: *if_unused, no_wait: *no_wait,
            },
            Arguments::ExchangeDeleteOk => Arguments::ExchangeDeleteOk,
            Arguments::ExchangeBind {
                ticket,
                destination,
                source,
                routing_key,
                no_wait,
                arguments,
            } => Arguments::ExchangeBind {
                ticket: *ticket,
                destination: destination@,
                source: source@,
                routing_key: routing_key@,
                no_wait: *no_wait,
                arguments: arguments@,
            },
            Arguments::ExchangeBindOk => Arguments::ExchangeBindOk,
            Arguments::ExchangeUnbind {
                ticket,
                destination,
                source,
                routing_key,
                no_wait,
                arguments,
            } => Arguments::ExchangeUnbind {
                ticket: *ticket,
                destination: destination@,
                source: source@,
                routing_key: routing_key@,
                no_wait: *no_wait,
                arguments: arguments@,
            },
            Arguments::ExchangeUnbindOk => Arguments::ExchangeUnbindOk,
            Arguments::QueueDeclare {
                ticket,
                queue,
                passive,
                durable,
                exclusive,
                auto_delete,
                no_wait,
                arguments,
            } => Arguments::QueueDeclare {
                ticket: *ticket,
                queue: queue@,
                passive: *passive,
                durable: *durable,
                exclusive: *exclusive,
                auto_delete: *auto_delete,
                no_wait: *no_wait,
                arguments: arguments@,
            },
            Arguments::QueueDeclareOk {
                queue,
                message_count,
                consumer_count,
            } => Arguments::QueueDeclareOk {
                queue: queue@, message_count: *message_count, consumer_count: *consumer_count,
            },
            Arguments::QueueBind {
                ticket,
                queue,
                exchange,
                routing_key,
                no_wait,
                arguments,
            } => Arguments::QueueBind {
                ticket: *ticket,
                queue: queue@,
                exchange: exchange@,
                routing_key: routing_key@,
                no_wait: *no_wait,
                arguments: arguments@,
            },
            Arguments::QueueBindOk => Arguments::QueueBindOk,
            Arguments::QueueUnbind {
                ticket,
                queue,
                exchange,
                routing_key,
                arguments,
            } => Arguments::QueueUnbind {
                ticket: *ticket,
                queue: queue@,
                exchange: exchange@,
                routing_key: routing_key@,
                arguments: arguments@,
            },
            Arguments::QueueUnbindOk => Arguments::QueueUnbindOk,
            Arguments::QueuePurge { ticket, queue, no_wait } => Arguments::QueuePurge {
                ticket: *ticket, queue: queue@, no_wait: *no_wait,
            },
            Arguments::QueuePurgeOk { message_count } => Arguments::QueuePurgeOk {
                message_count: *message_count,
            },
            Arguments::QueueDelete {
                ticket,
                queue,
                if_unused,
                if_empty,
                no_wait,
            } => Arguments::QueueDelete {
                ticket: *ticket,
                queue: queue@,
                if_unused: *if_unused,
                if_empty: *if_empty,
                no_wait: *no_wait,
            },
            Arguments::QueueDeleteOk { message_count } => Arguments::QueueDeleteOk {
                message_count: *message_count,
            },
            Arguments::BasicQos { prefetch_size, prefetch_count, global } => Arguments::BasicQos {
                prefetch_size: *prefetch_size, prefetch_count: *prefetch_count, global: *global,
            },
            Arguments::BasicQosOk => Arguments::BasicQosOk,
            Arguments::BasicConsume {
                ticket,
                queue,
                consumer_tag,
                no_local,
                no_ack,
                exclusive,
                no_wait,
                arguments,
            } => Arguments::BasicConsume {
                ticket: *ticket,
                queue: queue@,
                consumer_tag: consumer_tag@,
                no_local: *no_local,
                no_ack: *no_ack,
                exclusive: *exclusive,
                no_wait: *no_wait,
                arguments: arguments@,
            },
            Arguments::BasicConsumeOk { consumer_tag } => Arguments::BasicConsumeOk {
                consumer_tag: consumer_tag@,
            },
            Arguments::BasicCancel { consumer_tag, no_wait } => Arguments::BasicCancel {
                consumer_tag: consumer_tag@, no_wait: *no_wait,
            },
            Arguments::BasicCancelOk { consumer_tag } => Arguments::BasicCancelOk {
                consumer_tag: consumer_tag@,
            },
            Arguments::BasicPublish {
                ticket,
                exchange,
                routing_key,
                mandatory,
                immediate,
            } => Arguments::BasicPublish {
                ticket: *ticket,
                exchange: exchange@,
                routing_key: routing_key@,
                mandatory: *mandatory,
                immediate: *immediate,
            },
            Arguments::BasicReturn {
                reply_code,
                reply_text,
                exchange,
                routing_key,
            } => Arguments::BasicReturn {
                reply_code: *reply_code,
                reply_text: reply_text@,
                exchange: exchange@,
                routing_key: routing_key@,
            },
            Arguments::BasicDeliver {
                consumer_tag,
                delivery_tag,
                redelivered,
                exchange,
                routing_key,
            } => Arguments::BasicDeliver {
                consumer_tag: consumer_tag@,
                delivery_tag: *delivery_tag,
                redelivered: *redelivered,
                exchange: exchange@,
                routing_key: routing_key@,
            },
            Arguments::BasicGet { ticket, queue, no_ack } => Arguments::BasicGet {
                ticket: *ticket, queue: queue@, no_ack: *no_ack,
            },
            Arguments::BasicGetOk {
                delivery_tag,
                redelivered,
                exchange,
                routing_key,
                message_count,
            } => Arguments::BasicGetOk {
                delivery_tag: *delivery_tag,
                redelivered: *redelivered,
                exchange: exchange@,
                routing_key: routing_key@,
                message_count: *message_count,
            },
            Arguments::BasicGetEmpty { cluster_id } => Arguments::BasicGetEmpty {
                cluster_id: cluster_id@,
            },
            Arguments::BasicAck { delivery_tag, multiple } => Arguments::BasicAck {
                delivery_tag: *delivery_tag, multiple: *multiple,
            },
            Arguments::BasicReject { delivery_tag, requeue } => Arguments::BasicReject {
                delivery_tag: *delivery_tag, requeue: *requeue,
            },
            Arguments::BasicRecoverAsync { requeue } => Arguments::BasicRecoverAsync {
                requeue: *requeue,
            },
            Arguments::BasicRecover { requeue } => Arguments::BasicRecover {
                requeue: *requeue,
            },
            Arguments::BasicRecoverOk => Arguments::BasicRecoverOk,
            Arguments::BasicNack { delivery_tag, multiple, requeue } => Arguments::BasicNack {
                delivery_tag: *delivery_tag, multiple: *multiple, requeue: *requeue,
            },
            Arguments::TxSelect => Arguments::TxSelect,
            Arguments::TxSelectOk => Arguments::TxSelectOk,
            Arguments::TxCommit => Arguments::TxCommit,
            Arguments::TxCommitOk => Arguments::TxCommitOk,
            Arguments::TxRollback => Arguments::TxRollback,
            Arguments::TxRollbackOk => Arguments::TxRollbackOk,
            Arguments::ConfirmSelect { no_wait } => Arguments::ConfirmSelect {
                no_wait: *no_wait,
            },
            Arguments::ConfirmSelectOk => Arguments::ConfirmSelectOk,
        }
    }
}

/// The view of a decode result that carries method arguments.
pub open spec fn args_view(
    r: Result<MethodArgs, FrameDecodeErr>,
) -> Result<ArgumentsView, FrameDecodeErr> {
    match r {
        Ok(a) => Ok(a@),
        Err(e) => Err(e),
    }
}

/// The argument grammar of method `m` applied to the argument octets `s`.
pub open spec fn spec_arguments(m: Method, s: Seq<u8>) -> Result<ArgumentsView, FrameDecodeErr> {
    match m {
        Method::Connection(ConnectionMethod::Start) => spec_connection_start(s),
        Method::Connection(ConnectionMethod::StartOk) => spec_connection_start_ok(s),
        Method::Connection(ConnectionMethod::Secure) => spec_connection_secure(s),
        Method::Connection(ConnectionMethod::SecureOk) => spec_connection_secure_ok(s),
        Method::Connection(ConnectionMethod::Tune) => spec_connection_tune(s),
        Method::Connection(ConnectionMethod::TuneOk) => spec_connection_tune_ok(s),
        Method::Connection(ConnectionMethod::Open) => spec_connection_open(s),
        Method::Connection(ConnectionMethod::OpenOk) => spec_connection_open_ok(s),
        Method::Connection(ConnectionMethod::Close) => spec_connection_close(s),
        Method::Connection(ConnectionMethod::CloseOk) => spec_connection_close_ok(s),
        Method::Channel(ChannelMethod::Open) => spec_channel_open(s),
        Method::Channel(ChannelMethod::OpenOk) => spec_channel_open_ok(s),
        Method::Channel(ChannelMethod::Flow) => spec_channel_flow(s),
        Method::Channel(ChannelMethod::FlowOk) => spec_channel_flow_ok(s),
        Method::Channel(ChannelMethod::Close) => spec_channel_close(s),
        Method::Channel(ChannelMethod::CloseOk) => spec_channel_close_ok(s),
        Method::Access(AccessMethod::Request) => spec_access_request(s),
        Method::Access(AccessMethod::RequestOk) => spec_access_request_ok(s),
        Method::Exchange(ExchangeMethod::Declare) => spec_exchange_declare(s),
        Method::Exchange(ExchangeMethod::DeclareOk) => spec_exchange_declare_ok(s),
        Method::Exchange(ExchangeMethod::Delete) => spec_exchange_delete(s),
        Method::Exchange(ExchangeMethod::DeleteOk) => spec_exchange_delete_ok(s),
        Method::Exchange(ExchangeMethod::Bind) => spec_exchange_bind(s),
        Method::Exchange(ExchangeMethod::BindOk) => spec_exchange_bind_ok(s),
        Method::Exchange(ExchangeMethod::Unbind) => spec_exchange_unbind(s),
        Method::Exchange(ExchangeMethod::UnbindOk) => spec_exchange_unbind_ok(s),
        Method::Queue(QueueMethod::Declare) => spec_queue_declare(s),
        Method::Queue(QueueMethod::DeclareOk) => spec_queue_declare_ok(s),
        Method::Queue(QueueMethod::Bind) => spec_queue_bind(s),
        Method::Queue(QueueMethod::BindOk) => spec_queue_bind_ok(s),
        Method::Queue(QueueMethod::Unbind) => spec_queue_unbind(s),
        Method::Queue(QueueMethod::UnbindOk) => spec_queue_unbind_ok(s),
        Method::Queue(QueueMethod::Purge) => spec_queue_purge(s),
        Method::Queue(QueueMethod::PurgeOk) => spec_queue_purge_ok(s),
        Method::Queue(QueueMethod::Delete) => spec_queue_delete(s),
        Method::Queue(QueueMethod::DeleteOk) => spec_queue_delete_ok(s),
        Method::Basic(BasicMethod::Qos) => spec_basic_qos(s),
        Method::Basic(BasicMethod::QosOk) => spec_basic_qos_ok(s),
        Method::Basic(BasicMethod::Consume) => spec_basic_consume(s),
        Method::Basic(BasicMethod::ConsumeOk) => spec_basic_consume_ok(s),
        Method::Basic(BasicMethod::Cancel) => spec_basic_cancel(s),
        Method::Basic(BasicMethod::CancelOk) => spec_basic_cancel_ok(s),
        Method::Basic(BasicMethod::Publish) => spec_basic_publish(s),
        Method::Basic(BasicMethod::Return) => spec_basic_return(s),
        Method::Basic(BasicMethod::Deliver) => spec_basic_delivery(s),
        Method::Basic(BasicMethod::Get) => spec_basic_get(s),
        Method::Basic(BasicMethod::GetOk) => spec_basic_get_ok(s),
        Method::Basic(BasicMethod::GetEmpty) => spec_basic_get_empty(s),
        Method::Basic(BasicMethod::Ack) => spec_basic_ack(s),
        Method::Basic(BasicMethod::Reject) => spec_basic_reject(s),
        Method::Basic(BasicMethod::RecoverAsync) => spec_basic_recover_async(s),
        Method::Basic(BasicMethod::Recover) => spec_basic_recover(s),
        Method::Basic(BasicMethod::RecoverOk) => spec_basic_recover_ok(s),
        Method::Basic(BasicMethod::Nack) => spec_basic_nack(s),
        Method::Tx(TxMethod::Select) => spec_tx_select(s),
        Method::Tx(TxMethod::SelectOk) => spec_tx_select_ok(s),
        Method::Tx(TxMethod::Commit) => spec_tx_commit(s),
        Method::Tx(TxMethod::CommitOk) => spec_tx_commit_ok(s),
        Method::Tx(TxMethod::Rollback) => spec_tx_rollback(s),
        Method::Tx(TxMethod::RollbackOk) => spec_tx_rollback_ok(s),
        Method::Confirm(ConfirmMethod::Select) => spec_confirm_select(s),
        Method::Confirm(ConfirmMethod::SelectOk) => spec_confirm_select_ok(s),
    }
}

/// Decodes the arguments of method `method` from its argument octets.
pub fn parse_arguments(method: Method, buffer: &[u8]) -> (r: Result<MethodArgs, FrameDecodeErr>)
    ensures
        args_view(r) == spec_arguments(method, buffer@),
{
    match method {
        Method::Connection(ConnectionMethod::Start) => parse_connection_start(buffer),
        Method::Connection(ConnectionMethod::StartOk) => parse_connection_start_ok(buffer),
        Method::Connection(ConnectionMethod::Secure) => parse_connection_secure(buffer),
        Method::Connection(ConnectionMethod::SecureOk) => parse_connection_secure_ok(buffer),
        Method::Connection(ConnectionMethod::Tune) => parse_connection_tune(buffer),
        Method::Connection(ConnectionMethod::TuneOk) => parse_connection_tune_ok(buffer),
        Method::Connection(ConnectionMethod::Open) => parse_connection_open(buffer),
        Method::Connection(ConnectionMethod::OpenOk) => parse_connection_open_ok(buffer),
        Method::Connection(ConnectionMethod::Close) => parse_connection_close(buffer),
        Method::Connection(ConnectionMethod::CloseOk) => parse_connection_close_ok(buffer),
        Method::Channel(ChannelMethod::Open) => parse_channel_open(buffer),
        Method::Channel(ChannelMethod::OpenOk) => parse_channel_open_ok(buffer),
        Method::Channel(ChannelMethod::Flow) => parse_channel_flow(buffer),
        Method::Channel(ChannelMethod::FlowOk) => parse_channel_flow_ok(buffer),
        Method::Channel(ChannelMethod::Close) => parse_channel_close(buffer),
        Method::Channel(ChannelMethod::CloseOk) => parse_channel_close_ok(buffer),
        Method::Access(AccessMethod::Request) => parse_access_request(buffer),
        Method::Access(AccessMethod::RequestOk) => parse_access_request_ok(buffer),
        Method::Exchange(ExchangeMethod::Declare) => parse_exchange_declare(buffer),
        Method::Exchange(ExchangeMethod::DeclareOk) => parse_exchange_declare_ok(buffer),
        Method::Exchange(ExchangeMethod::Delete) => parse_exchange_delete(buffer),
        Method::Exchange(ExchangeMethod::DeleteOk) => parse_exchange_delete_ok(buffer),
        Method::Exchange(ExchangeMethod::Bind) => parse_exchange_bind(buffer),
        Method::Exchange(ExchangeMethod::BindOk) => parse_exchange_bind_ok(buffer),
        Method::Exchange(ExchangeMethod::Unbind) => parse_exchange_unbind(buffer),
        Method::Exchange(ExchangeMethod::UnbindOk) => parse_exchange_unbind_ok(buffer),
        Method::Queue(QueueMethod::Declare) => parse_queue_declare(buffer),
        Method::Queue(QueueMethod::DeclareOk) => parse_queue_declare_ok(buffer),
        Method::Queue(QueueMethod::Bind) => parse_queue_bind(buffer),
        Method::Queue(QueueMethod::BindOk) => parse_queue_bind_ok(buffer),
        Method::Queue(QueueMethod::Unbind) => parse_queue_unbind(buffer),
        Method::Queue(QueueMethod::UnbindOk) => parse_queue_unbind_ok(buffer),
        Method::Queue(QueueMethod::Purge) => parse_queue_purge(buffer),
        Method::Queue(QueueMethod::PurgeOk) => parse_queue_purge_ok(buffer),
        Method::Queue(QueueMethod::Delete) => parse_queue_delete(buffer),
        Method::Queue(QueueMethod::DeleteOk) => parse_queue_delete_ok(buffer),
        Method::Basic(BasicMethod::Qos) => parse_basic_qos(buffer),
        Method::Basic(BasicMethod::QosOk) => parse_basic_qos_ok(buffer),
        Method::Basic(BasicMethod::Consume) => parse_basic_consume(buffer),
        Method::Basic(BasicMethod::ConsumeOk) => parse_basic_consume_ok(buffer),
        Method::Basic(BasicMethod::Cancel) => parse_basic_cancel(buffer),
        Method::Basic(BasicMethod::CancelOk) => parse_basic_cancel_ok(buffer),
        Method::Basic(BasicMethod::Publish) => parse_basic_publish(buffer),
        Method::Basic(BasicMethod::Return) => parse_basic_return(buffer),
        Method::Basic(BasicMethod::Deliver) => parse_basic_delivery(buffer),
        Method::Basic(BasicMethod::Get) => parse_basic_get(buffer),
        Method::Basic(BasicMethod::GetOk) => parse_basic_get_ok(buffer),
        Method::Basic(BasicMethod::GetEmpty) => parse_basic_get_empty(buffer),
        Method::Basic(BasicMethod::Ack) => parse_basic_ack(buffer),
        Method::Basic(BasicMethod::Reject) => parse_basic_reject(buffer),
        Method::Basic(BasicMethod::RecoverAsync) => parse_basic_recover_async(buffer),
        Method::Basic(BasicMethod::Recover) => parse_basic_recover(buffer),
        Method::Basic(BasicMethod::RecoverOk) => parse_basic_recover_ok(buffer),
        Method::Basic(BasicMethod::Nack) => parse_basic_nack(buffer),
        Method::Tx(TxMethod::Select) => parse_tx_select(buffer),
        Method::Tx(TxMethod::SelectOk) => parse_tx_select_ok(buffer),
        Method::Tx(TxMethod::Commit) => parse_tx_commit(buffer),
        Method::Tx(TxMethod::CommitOk) => parse_tx_commit_ok(buffer),
        Method::Tx(TxMethod::Rollback) => parse_tx_rollback(buffer),
        Method::Tx(TxMethod::RollbackOk) => parse_tx_rollback_ok(buffer),
        Method::Confirm(ConfirmMethod::Select) => parse_confirm_select(buffer),
        Method::Confirm(ConfirmMethod::SelectOk) => parse_confirm_select_ok(buffer),
    }
}

} // verus!
