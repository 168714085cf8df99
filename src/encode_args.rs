//! A reference encoding of method arguments, written as spec functions, and
//! the proof that each argument grammar decodes it back.
use vstd::prelude::*;
use crate::encode::{
    be16_octets, be32_octets, be64_octets, entries_octets, framed, lemma_field_table_round_trip,
    lemma_long_octets, lemma_pack_bits, lemma_short_octets, lemma_u16_octets, lemma_u32_octets,
    lemma_u64_octets, lemma_u8_octet, pack_bits, short_octets, encodable,
};
use crate::error::FrameDecodeErr;
use crate::field::{spec_field_table, valid_field_name, FieldTableView};
use crate::method::{
    spec_arguments, Arguments, ArgumentsView, Method, AccessMethod, BasicMethod, ChannelMethod,
    ConfirmMethod, ConnectionMethod, ExchangeMethod, QueueMethod, TxMethod,
};

use crate::connection::{
    spec_connection_start, spec_connection_start_ok, spec_connection_secure,
    spec_connection_secure_ok, spec_connection_tune, spec_connection_tune_ok, spec_connection_open,
    spec_connection_open_ok, spec_connection_close, spec_connection_close_ok,
};
use crate::channel::{
    spec_channel_open, spec_channel_open_ok, spec_channel_flow, spec_channel_flow_ok,
    spec_channel_close, spec_channel_close_ok,
};
use crate::access::{spec_access_request, spec_access_request_ok};
use crate::exchange::{
    spec_exchange_declare, spec_exchange_declare_ok, spec_exchange_delete, spec_exchange_delete_ok,
    spec_exchange_bind, spec_exchange_bind_ok, spec_exchange_unbind, spec_exchange_unbind_ok,
};
use crate::queue::{
    spec_queue_declare, spec_queue_declare_ok, spec_queue_bind, spec_queue_bind_ok,
    spec_queue_unbind, spec_queue_unbind_ok, spec_queue_purge, spec_queue_purge_ok,
    spec_queue_delete, spec_queue_delete_ok,
};
use crate::basic::{
    spec_basic_qos, spec_basic_qos_ok, spec_basic_consume, spec_basic_consume_ok, spec_basic_cancel,
    spec_basic_cancel_ok, spec_basic_publish, spec_basic_return, spec_basic_delivery,
    spec_basic_get, spec_basic_get_ok, spec_basic_get_empty, spec_basic_ack, spec_basic_reject,
    spec_basic_recover_async, spec_basic_recover, spec_basic_recover_ok, spec_basic_nack,
};
use crate::tx::{
    spec_tx_select, spec_tx_select_ok, spec_tx_commit, spec_tx_commit_ok, spec_tx_rollback,
    spec_tx_rollback_ok,
};
use crate::confirm::{spec_confirm_select, spec_confirm_select_ok};

verus! {

/// A field table that the encoding can carry.
#[verifier::opaque]
pub open spec fn table_encodable(t: FieldTableView) -> bool {
    &&& forall|i: int| 0 <= i < t.len() ==> valid_field_name(#[trigger] t[i].0) && encodable(t[i].1)
    &&& entries_octets(t).len() < 0x1_0000_0000
}

pub(crate) proof fn lemma_table_octets(t: FieldTableView, tail: Seq<u8>)
    requires
        table_encodable(t),
    ensures
        spec_field_table(framed(entries_octets(t)) + tail) == Ok::<(Seq<u8>, FieldTableView), FrameDecodeErr>(
            (tail, t),
        ),
{
    reveal(table_encodable);
    lemma_field_table_round_trip(t, tail);
}

/// The method whose arguments `a` holds.
pub open spec fn method_of_arguments(a: ArgumentsView) -> Method {
    match a {
        Arguments::ConnectionStart { .. } => Method::Connection(ConnectionMethod::Start),
        Arguments::ConnectionStartOk { .. } => Method::Connection(ConnectionMethod::StartOk),
        Arguments::ConnectionSecure { .. } => Method::Connection(ConnectionMethod::Secure),
        Arguments::ConnectionSecureOk { .. } => Method::Connection(ConnectionMethod::SecureOk),
        Arguments::ConnectionTune { .. } => Method::Connection(ConnectionMethod::Tune),
        Arguments::ConnectionTuneOk { .. } => Method::Connection(ConnectionMethod::TuneOk),
        Arguments::ConnectionOpen { .. } => Method::Connection(ConnectionMethod::Open),
        Arguments::ConnectionOpenOk { .. } => Method::Connection(ConnectionMethod::OpenOk),
        Arguments::ConnectionClose { .. } => Method::Connection(ConnectionMethod::Close),
        Arguments::ConnectionCloseOk => Method::Connection(ConnectionMethod::CloseOk),
        Arguments::ChannelOpen { .. } => Method::Channel(ChannelMethod::Open),
        Arguments::ChannelOpenOk { .. } => Method::Channel(ChannelMethod::OpenOk),
        Arguments::ChannelFlow { .. } => Method::Channel(ChannelMethod::Flow),
        Arguments::ChannelFlowOk { .. } => Method::Channel(ChannelMethod::FlowOk),
        Arguments::ChannelClose { .. } => Method::Channel(ChannelMethod::Close),
        Arguments::ChannelCloseOk => Method::Channel(ChannelMethod::CloseOk),
        Arguments::AccessRequest { .. } => Method::Access(AccessMethod::Request),
        Arguments::AccessRequestOk { .. } => Method::Access(AccessMethod::RequestOk),
        Arguments::ExchangeDeclare { .. } => Method::Exchange(ExchangeMethod::Declare),
        Arguments::ExchangeDeclareOk => Method::Exchange(ExchangeMethod::DeclareOk),
        Arguments::ExchangeDelete { .. } => Method::Exchange(ExchangeMethod::Delete),
        Arguments::ExchangeDeleteOk => Method::Exchange(ExchangeMethod::DeleteOk),
        Arguments::ExchangeBind { .. } => Method::Exchange(ExchangeMethod::Bind),
        Arguments::ExchangeBindOk => Method::Exchange(ExchangeMethod::BindOk),
        Arguments::ExchangeUnbind { .. } => Method::Exchange(ExchangeMethod::Unbind),
        Arguments::ExchangeUnbindOk => Method::Exchange(ExchangeMethod::UnbindOk),
        Arguments::QueueDeclare { .. } => Method::Queue(QueueMethod::Declare),
        Arguments::QueueDeclareOk { .. } => Method::Queue(QueueMethod::DeclareOk),
        Arguments::QueueBind { .. } => Method::Queue(QueueMethod::Bind),
        Arguments::QueueBindOk => Method::Queue(QueueMethod::BindOk),
        Arguments::QueueUnbind { .. } => Method::Queue(QueueMethod::Unbind),
        Arguments::QueueUnbindOk => Method::Queue(QueueMethod::UnbindOk),
        Arguments::QueuePurge { .. } => Method::Queue(QueueMethod::Purge),
        Arguments::QueuePurgeOk { .. } => Method::Queue(QueueMethod::PurgeOk),
        Arguments::QueueDelete { .. } => Method::Queue(QueueMethod::Delete),
        Arguments::QueueDeleteOk { .. } => Method::Queue(QueueMethod::DeleteOk),
        Arguments::BasicQos { .. } => Method::Basic(BasicMethod::Qos),
        Arguments::BasicQosOk => Method::Basic(BasicMethod::QosOk),
        Arguments::BasicConsume { .. } => Method::Basic(BasicMethod::Consume),
        Arguments::BasicConsumeOk { .. } => Method::Basic(BasicMethod::ConsumeOk),
        Arguments::BasicCancel { .. } => Method::Basic(BasicMethod::Cancel),
        Arguments::BasicCancelOk { .. } => Method::Basic(BasicMethod::CancelOk),
        Arguments::BasicPublish { .. } => Method::Basic(BasicMethod::Publish),
        Arguments::BasicReturn { .. } => Method::Basic(BasicMethod::Return),
        Arguments::BasicDeliver { .. } => Method::Basic(BasicMethod::Deliver),
        Arguments::BasicGet { .. } => Method::Basic(BasicMethod::Get),
        Arguments::BasicGetOk { .. } => Method::Basic(BasicMethod::GetOk),
        Arguments::BasicGetEmpty { .. } => Method::Basic(BasicMethod::GetEmpty),
        Arguments::BasicAck { .. } => Method::Basic(BasicMethod::Ack),
        Arguments::BasicReject { .. } => Method::Basic(BasicMethod::Reject),
        Arguments::BasicRecoverAsync { .. } => Method::Basic(BasicMethod::RecoverAsync),
        Arguments::BasicRecover { .. } => Method::Basic(BasicMethod::Recover),
        Arguments::BasicRecoverOk => Method::Basic(BasicMethod::RecoverOk),
        Arguments::BasicNack { .. } => Method::Basic(BasicMethod::Nack),
        Arguments::TxSelect => Method::Tx(TxMethod::Select),
        Arguments::TxSelectOk => Method::Tx(TxMethod::SelectOk),
        Arguments::TxCommit => Method::Tx(TxMethod::Commit),
        Arguments::TxCommitOk => Method::Tx(TxMethod::CommitOk),
        Arguments::TxRollback => Method::Tx(TxMethod::Rollback),
        Arguments::TxRollbackOk => Method::Tx(TxMethod::RollbackOk),
        Arguments::ConfirmSelect { .. } => Method::Confirm(ConfirmMethod::Select),
        Arguments::ConfirmSelectOk => Method::Confirm(ConfirmMethod::SelectOk),
    }
}

/// The argument octets of `a`, field after field in wire order.
pub open spec fn encode_arguments(a: ArgumentsView) -> Seq<u8> {
    match a {
        Arguments::ConnectionStart { version_major, version_minor, server_properties, mechanisms, locales } => {
            seq![version_major]
                + (seq![version_minor]
                + (framed(entries_octets(server_properties))
                + (framed(mechanisms)
                + (framed(locales)))))
        },
        Arguments::ConnectionStartOk { client_properties, mechanism, response, locale } => {
            framed(entries_octets(client_properties))
                + (short_octets(mechanism)
                + (framed(response)
                + (short_octets(locale))))
        },
        Arguments::ConnectionSecure { challenge } => framed(challenge),
        Arguments::ConnectionSecureOk { response } => framed(response),
        Arguments::ConnectionTune { channel_max, frame_max, heartbeat } => {
            be16_octets(channel_max) + (be32_octets(frame_max) + (be16_octets(heartbeat)))
        },
        Arguments::ConnectionTuneOk { channel_max, frame_max, heartbeat } => {
            be16_octets(channel_max) + (be32_octets(frame_max) + (be16_octets(heartbeat)))
        },
        Arguments::ConnectionOpen { vhost, capabilities, insist } => {
            short_octets(vhost)
                + (short_octets(capabilities)
                + (seq![pack_bits(insist, false, false, false, false)]))
        },
        Arguments::ConnectionOpenOk { known_hosts } => short_octets(known_hosts),
        Arguments::ConnectionClose { reply_code, reply_text, class_id, method_id } => {
            be16_octets(reply_code)
                + (short_octets(reply_text)
                + (be16_octets(class_id)
                + (be16_octets(method_id))))
        },
        Arguments::ConnectionCloseOk => Seq::empty(),
        Arguments::ChannelOpen { out_of_band } => short_octets(out_of_band),
        Arguments::ChannelOpenOk { channel_id } => framed(channel_id),
        Arguments::ChannelFlow { active } => seq![if active { 1u8 } else { 0u8 }],
        Arguments::ChannelFlowOk { active } => seq![if active { 1u8 } else { 0u8 }],
        Arguments::ChannelClose { reply_code, reply_text, class_id, method_id } => {
            be16_octets(reply_code)
                + (short_octets(reply_text)
                + (be16_octets(class_id)
                + (be16_octets(method_id))))
        },
        Arguments::ChannelCloseOk => Seq::empty(),
        Arguments::AccessRequest { realm, exclusive, passive, active, write, read } => {
            short_octets(realm) + (seq![pack_bits(exclusive, passive, active, write, read)])
        },
        Arguments::AccessRequestOk { ticket } => be16_octets(ticket),
        Arguments::ExchangeDeclare { ticket, exchange, exchange_type, passive, durable, auto_delete, internal, no_wait, arguments } => {
            be16_octets(ticket)
                + (short_octets(exchange)
                + (short_octets(exchange_type)
                + (seq![pack_bits(passive, durable, auto_delete, internal, no_wait)]
                + (framed(entries_octets(arguments))))))
        },
        Arguments::ExchangeDeclareOk => Seq::empty(),
        Arguments::ExchangeDelete { ticket, exchange, if_unused, no_wait } => {
            be16_octets(ticket)
                + (short_octets(exchange)
                + (seq![pack_bits(if_unused, no_wait, false, false, false)]))
        },
        Arguments::ExchangeDeleteOk => Seq::empty(),
        Arguments::ExchangeBind { ticket, destination, source, routing_key, no_wait, arguments } => {
            be16_octets(ticket)
                + (short_octets(destination)
                + (short_octets(source)
                + (short_octets(routing_key)
                + (seq![pack_bits(no_wait, false, false, false, false)]
                + (framed(entries_octets(arguments)))))))
        },
        Arguments::ExchangeBindOk => Seq::empty(),
        Arguments::ExchangeUnbind { ticket, destination, source, routing_key, no_wait, arguments } => {
            be16_octets(ticket)
                + (short_octets(destination)
                + (short_octets(source)
                + (short_octets(routing_key)
                + (seq![pack_bits(no_wait, false, false, false, false)]
                + (framed(entries_octets(arguments)))))))
        },
        Arguments::ExchangeUnbindOk => Seq::empty(),
        Arguments::QueueDeclare { ticket, queue, passive, durable, exclusive, auto_delete, no_wait, arguments } => {
            be16_octets(ticket)
                + (short_octets(queue)
                + (seq![pack_bits(passive, durable, exclusive, auto_delete, no_wait)]
                + (framed(entries_octets(arguments)))))
        },
        Arguments::QueueDeclareOk { queue, message_count, consumer_count } => {
            short_octets(queue) + (be32_octets(message_count) + (be32_octets(consumer_count)))
        },
        Arguments::QueueBind { ticket, queue, exchange, routing_key, no_wait, arguments } => {
            be16_octets(ticket)
                + (short_octets(queue)
                + (short_octets(exchange)
                + (short_octets(routing_key)
                + (seq![pack_bits(no_wait, false, false, false, false)]
                + (framed(entries_octets(arguments)))))))
        },
        Arguments::QueueBindOk => Seq::empty(),
        Arguments::QueueUnbind { ticket, queue, exchange, routing_key, arguments } => {
            be16_octets(ticket)
                + (short_octets(queue)
                + (short_octets(exchange)
                + (short_octets(routing_key)
                + (framed(entries_octets(arguments))))))
        },
        Arguments::QueueUnbindOk => Seq::empty(),
        Arguments::QueuePurge { ticket, queue, no_wait } => {
            be16_octets(ticket)
                + (short_octets(queue)
                + (seq![pack_bits(no_wait, false, false, false, false)]))
        },
        Arguments::QueuePurgeOk { message_count } => be32_octets(message_count),
        Arguments::QueueDelete { ticket, queue, if_unused, if_empty, no_wait } => {
            be16_octets(ticket)
                + (short_octets(queue)
                + (seq![pack_bits(if_unused, if_empty, no_wait, false, false)]))
        },
        Arguments::QueueDeleteOk { message_count } => be32_octets(message_count),
        Arguments::BasicQos { prefetch_size, prefetch_count, global } => {
            be32_octets(prefetch_size)
                + (be16_octets(prefetch_count)
                + (seq![pack_bits(global, false, false, false, false)]))
        },
        Arguments::BasicQosOk => Seq::empty(),
        Arguments::BasicConsume { ticket, queue, consumer_tag, no_local, no_ack, exclusive, no_wait, arguments } => {
            be16_octets(ticket)
                + (short_octets(queue)
                + (short_octets(consumer_tag)
                + (seq![pack_bits(no_local, no_ack, exclusive, no_wait, false)]
                + (framed(entries_octets(arguments))))))
        },
        Arguments::BasicConsumeOk { consumer_tag } => short_octets(consumer_tag),
        Arguments::BasicCancel { consumer_tag, no_wait } => {
            short_octets(consumer_tag) + (seq![pack_bits(no_wait, false, false, false, false)])
        },
        Arguments::BasicCancelOk { consumer_tag } => short_octets(consumer_tag),
        Arguments::BasicPublish { ticket, exchange, routing_key, mandatory, immediate } => {
            be16_octets(ticket)
                + (short_octets(exchange)
                + (short_octets(routing_key)
                + (seq![pack_bits(mandatory, immediate, false, false, false)])))
        },
        Arguments::BasicReturn { reply_code, reply_text, exchange, routing_key } => {
            be16_octets(reply_code)
                + (short_octets(reply_text)
                + (short_octets(exchange)
                + (short_octets(routing_key))))
        },
        Arguments::BasicDeliver { consumer_tag, delivery_tag, redelivered, exchange, routing_key } => {
            short_octets(consumer_tag)
                + (be64_octets(delivery_tag)
                + (seq![pack_bits(redelivered, false, false, false, false)]
                + (short_octets(exchange)
                + (short_octets(routing_key)))))
        },
        Arguments::BasicGet { ticket, queue, no_ack } => {
            be16_octets(ticket)
                + (short_octets(queue)
                + (seq![pack_bits(no_ack, false, false, false, false)]))
        },
        Arguments::BasicGetOk { delivery_tag, redelivered, exchange, routing_key, message_count } => {
            be64_octets(delivery_tag)
                + (seq![pack_bits(redelivered, false, false, false, false)]
                + (short_octets(exchange)
                + (short_octets(routing_key)
                + (be32_octets(message_count)))))
        },
        Arguments::BasicGetEmpty { cluster_id } => short_octets(cluster_id),
        Arguments::BasicAck { delivery_tag, multiple } => {
            be64_octets(delivery_tag) + (seq![pack_bits(multiple, false, false, false, false)])
        },
        Arguments::BasicReject { delivery_tag, requeue } => {
            be64_octets(delivery_tag) + (seq![pack_bits(requeue, false, false, false, false)])
        },
        Arguments::BasicRecoverAsync { requeue } => {
            seq![pack_bits(requeue, false, false, false, false)]
        },
        Arguments::BasicRecover { requeue } => seq![pack_bits(requeue, false, false, false, false)],
        Arguments::BasicRecoverOk => Seq::empty(),
        Arguments::BasicNack { delivery_tag, multiple, requeue } => {
            be64_octets(delivery_tag) + (seq![pack_bits(multiple, requeue, false, false, false)])
        },
        Arguments::TxSelect => Seq::empty(),
        Arguments::TxSelectOk => Seq::empty(),
        Arguments::TxCommit => Seq::empty(),
        Arguments::TxCommitOk => Seq::empty(),
        Arguments::TxRollback => Seq::empty(),
        Arguments::TxRollbackOk => Seq::empty(),
        Arguments::ConfirmSelect { no_wait } => seq![pack_bits(no_wait, false, false, false, false)],
        Arguments::ConfirmSelectOk => Seq::empty(),
    }
}

/// Arguments that the encoding can carry: short strings under 256 octets,
/// long strings and tables under 2^32.
pub open spec fn arguments_encodable(a: ArgumentsView) -> bool {
    match a {
        Arguments::ConnectionStart { server_properties, mechanisms, locales, .. } => {
            &&& table_encodable(server_properties)
            &&& mechanisms.len() < 0x1_0000_0000
            &&& locales.len() < 0x1_0000_0000
        },
        Arguments::ConnectionStartOk { client_properties, mechanism, response, locale, .. } => {
            &&& table_encodable(client_properties)
            &&& mechanism.len() < 0x100
            &&& response.len() < 0x1_0000_0000
            &&& locale.len() < 0x100
        },
        Arguments::ConnectionSecure { challenge, .. } => {
            &&& challenge.len() < 0x1_0000_0000
        },
        Arguments::ConnectionSecureOk { response, .. } => {
            &&& response.len() < 0x1_0000_0000
        },
        Arguments::ConnectionOpen { vhost, capabilities, .. } => {
            &&& vhost.len() < 0x100
            &&& capabilities.len() < 0x100
        },
        Arguments::ConnectionOpenOk { known_hosts, .. } => {
            &&& known_hosts.len() < 0x100
        },
        Arguments::ConnectionClose { reply_text, .. } => {
            &&& reply_text.len() < 0x100
        },
        Arguments::ChannelOpen { out_of_band, .. } => {
            &&& out_of_band.len() < 0x100
        },
        Arguments::ChannelOpenOk { channel_id, .. } => {
            &&& channel_id.len() < 0x1_0000_0000
        },
        Arguments::ChannelClose { reply_text, .. } => {
            &&& reply_text.len() < 0x100
        },
        Arguments::AccessRequest { realm, .. } => {
            &&& realm.len() < 0x100
        },
        Arguments::ExchangeDeclare { exchange, exchange_type, arguments, .. } => {
            &&& exchange.len() < 0x100
            &&& exchange_type.len() < 0x100
            &&& table_encodable(arguments)
        },
        Arguments::ExchangeDelete { exchange, .. } => {
            &&& exchange.len() < 0x100
        },
        Arguments::ExchangeBind { destination, source, routing_key, arguments, .. } => {
            &&& destination.len() < 0x100
            &&& source.len() < 0x100
            &&& routing_key.len() < 0x100
            &&& table_encodable(arguments)
        },
        Arguments::ExchangeUnbind { destination, source, routing_key, arguments, .. } => {
            &&& destination.len() < 0x100
            &&& source.len() < 0x100
            &&& routing_key.len() < 0x100
            &&& table_encodable(arguments)
        },
        Arguments::QueueDeclare { queue, arguments, .. } => {
            &&& queue.len() < 0x100
            &&& table_encodable(arguments)
        },
        Arguments::QueueDeclareOk { queue, .. } => {
            &&& queue.len() < 0x100
        },
        Arguments::QueueBind { queue, exchange, routing_key, arguments, .. } => {
            &&& queue.len() < 0x100
            &&& exchange.len() < 0x100
            &&& routing_key.len() < 0x100
            &&& table_encodable(arguments)
        },
        Arguments::QueueUnbind { queue, exchange, routing_key, arguments, .. } => {
            &&& queue.len() < 0x100
            &&& exchange.len() < 0x100
            &&& routing_key.len() < 0x100
            &&& table_encodable(arguments)
        },
        Arguments::QueuePurge { queue, .. } => {
            &&& queue.len() < 0x100
        },
        Arguments::QueueDelete { queue, .. } => {
            &&& queue.len() < 0x100
        },
        Arguments::BasicConsume { queue, consumer_tag, arguments, .. } => {
            &&& queue.len() < 0x100
            &&& consumer_tag.len() < 0x100
            &&& table_encodable(arguments)
        },
        Arguments::BasicConsumeOk { consumer_tag, .. } => {
            &&& consumer_tag.len() < 0x100
        },
        Arguments::BasicCancel { consumer_tag, .. } => {
            &&& consumer_tag.len() < 0x100
        },
        Arguments::BasicCancelOk { consumer_tag, .. } => {
            &&& consumer_tag.len() < 0x100
        },
        Arguments::BasicPublish { exchange, routing_key, .. } => {
            &&& exchange.len() < 0x100
            &&& routing_key.len() < 0x100
        },
        Arguments::BasicReturn { reply_text, exchange, routing_key, .. } => {
            &&& reply_text.len() < 0x100
            &&& exchange.len() < 0x100
            &&& routing_key.len() < 0x100
        },
        Arguments::BasicDeliver { consumer_tag, exchange, routing_key, .. } => {
            &&& consumer_tag.len() < 0x100
            &&& exchange.len() < 0x100
            &&& routing_key.len() < 0x100
        },
        Arguments::BasicGet { queue, .. } => {
            &&& queue.len() < 0x100
        },
        Arguments::BasicGetOk { exchange, routing_key, .. } => {
            &&& exchange.len() < 0x100
            &&& routing_key.len() < 0x100
        },
        Arguments::BasicGetEmpty { cluster_id, .. } => {
            &&& cluster_id.len() < 0x100
        },
        _ => true,
    }
}

proof fn lemma_connection_start_round_trip(
    version_major: u8,
    version_minor: u8,
    server_properties: FieldTableView,
    mechanisms: Seq<u8>,
    locales: Seq<u8>,
    tail: Seq<u8>,
)
    requires
        table_encodable(server_properties),
        mechanisms.len() < 0x1_0000_0000,
        locales.len() < 0x1_0000_0000,
    ensures
        spec_connection_start(encode_arguments(Arguments::ConnectionStart { version_major, version_minor, server_properties, mechanisms, locales }) + tail)
            == Ok::<ArgumentsView, FrameDecodeErr>(Arguments::ConnectionStart { version_major, version_minor, server_properties, mechanisms, locales }),
{
    let t5 = tail;
    let t4 = framed(locales) + t5;
    let t3 = framed(mechanisms) + t4;
    let t2 = framed(entries_octets(server_properties)) + t3;
    let t1 = seq![version_minor] + t2;
    let t0 = seq![version_major] + t1;
    let r4 = framed(locales);
    let r3 = framed(mechanisms) + r4;
    let r2 = framed(entries_octets(server_properties)) + r3;
    let r1 = seq![version_minor] + r2;
    let r0 = seq![version_major] + r1;
    assert(r3 + tail =~= t3);
    assert(r2 + tail =~= t2);
    assert(r1 + tail =~= t1);
    assert(r0 + tail =~= t0);
    assert(encode_arguments(Arguments::ConnectionStart { version_major, version_minor, server_properties, mechanisms, locales })
        == r0);
    lemma_u8_octet(version_major, t1);
    lemma_u8_octet(version_minor, t2);
    lemma_table_octets(server_properties, t3);
    lemma_long_octets(mechanisms, t4);
    lemma_long_octets(locales, t5);
}

proof fn lemma_connection_start_ok_round_trip(
    client_properties: FieldTableView,
    mechanism: Seq<u8>,
    response: Seq<u8>,
    locale: Seq<u8>,
    tail: Seq<u8>,
)
    requires
        table_encodable(client_properties),
        mechanism.len() < 0x100,
        response.len() < 0x1_0000_0000,
        locale.len() < 0x100,
    ensures
        spec_connection_start_ok(encode_arguments(Arguments::ConnectionStartOk { client_properties, mechanism, response, locale }) + tail)
            == Ok::<ArgumentsView, FrameDecodeErr>(Arguments::ConnectionStartOk { client_properties, mechanism, response, locale }),
{
    let t4 = tail;
    let t3 = short_octets(locale) + t4;
    let t2 = framed(response) + t3;
    let t1 = short_octets(mechanism) + t2;
    let t0 = framed(entries_octets(client_properties)) + t1;
    let r3 = short_octets(locale);
    let r2 = framed(response) + r3;
    let r1 = short_octets(mechanism) + r2;
    let r0 = framed(entries_octets(client_properties)) + r1;
    assert(r2 + tail =~= t2);
    assert(r1 + tail =~= t1);
    assert(r0 + tail =~= t0);
    assert(encode_arguments(Arguments::ConnectionStartOk { client_properties, mechanism, response, locale })
        == r0);
    lemma_table_octets(client_properties, t1);
    lemma_short_octets(mechanism, t2);
    lemma_long_octets(response, t3);
    lemma_short_octets(locale, t4);
}

proof fn lemma_connection_secure_round_trip(challenge: Seq<u8>, tail: Seq<u8>)
    requires
        challenge.len() < 0x1_0000_0000,
    ensures
        spec_connection_secure(encode_arguments(Arguments::ConnectionSecure { challenge }) + tail)
            == Ok::<ArgumentsView, FrameDecodeErr>(Arguments::ConnectionSecure { challenge }),
{
    let t1 = tail;
    let t0 = framed(challenge) + t1;
    let r0 = framed(challenge);
    assert(encode_arguments(Arguments::ConnectionSecure { challenge }) == r0);
    lemma_long_octets(challenge, t1);
}

proof fn lemma_connection_secure_ok_round_trip(response: Seq<u8>, tail: Seq<u8>)
    requires
        response.len() < 0x1_0000_0000,
    ensures
        spec_connection_secure_ok(encode_arguments(Arguments::ConnectionSecureOk { response }) + tail)
            == Ok::<ArgumentsView, FrameDecodeErr>(Arguments::ConnectionSecureOk { response }),
{
    let t1 = tail;
    let t0 = framed(response) + t1;
    let r0 = framed(response);
    assert(encode_arguments(Arguments::ConnectionSecureOk { response }) == r0);
    lemma_long_octets(response, t1);
}

proof fn lemma_connection_tune_round_trip(
    channel_max: u16,
    frame_max: u32,
    heartbeat: u16,
    tail: Seq<u8>,
)
    ensures
        spec_connection_tune(encode_arguments(Arguments::ConnectionTune { channel_max, frame_max, heartbeat }) + tail)
            == Ok::<ArgumentsView, FrameDecodeErr>(Arguments::ConnectionTune { channel_max, frame_max, heartbeat }),
{
    let t3 = tail;
    let t2 = be16_octets(heartbeat) + t3;
    let t1 = be32_octets(frame_max) + t2;
    let t0 = be16_octets(channel_max) + t1;
    let r2 = be16_octets(heartbeat);
    let r1 = be32_octets(frame_max) + r2;
    let r0 = be16_octets(channel_max) + r1;
    assert(r1 + tail =~= t1);
    assert(r0 + tail =~= t0);
    assert(encode_arguments(Arguments::ConnectionTune { channel_max, frame_max, heartbeat }) == r0);
    lemma_u16_octets(channel_max, t1);
    lemma_u32_octets(frame_max, t2);
    lemma_u16_octets(heartbeat, t3);
}

proof fn lemma_connection_tune_ok_round_trip(
    channel_max: u16,
    frame_max: u32,
    heartbeat: u16,
    tail: Seq<u8>,
)
    ensures
        spec_connection_tune_ok(encode_arguments(Arguments::ConnectionTuneOk { channel_max, frame_max, heartbeat }) + tail)
            == Ok::<ArgumentsView, FrameDecodeErr>(Arguments::ConnectionTuneOk { channel_max, frame_max, heartbeat }),
{
    let t3 = tail;
    let t2 = be16_octets(heartbeat) + t3;
    let t1 = be32_octets(frame_max) + t2;
    let t0 = be16_octets(channel_max) + t1;
    let r2 = be16_octets(heartbeat);
    let r1 = be32_octets(frame_max) + r2;
    let r0 = be16_octets(channel_max) + r1;
    assert(r1 + tail =~= t1);
    assert(r0 + tail =~= t0);
    assert(encode_arguments(Arguments::ConnectionTuneOk { channel_max, frame_max, heartbeat })
        == r0);
    lemma_u16_octets(channel_max, t1);
    lemma_u32_octets(frame_max, t2);
    lemma_u16_octets(heartbeat, t3);
}

proof fn lemma_connection_open_round_trip(
    vhost: Seq<u8>,
    capabilities: Seq<u8>,
    insist: bool,
    tail: Seq<u8>,
)
    requires
        vhost.len() < 0x100,
        capabilities.len() < 0x100,
    ensures
        spec_connection_open(encode_arguments(Arguments::ConnectionOpen { vhost, capabilities, insist }) + tail)
            == Ok::<ArgumentsView, FrameDecodeErr>(Arguments::ConnectionOpen { vhost, capabilities, insist }),
{
    let t3 = tail;
    let t2 = seq![pack_bits(insist, false, false, false, false)] + t3;
    let t1 = short_octets(capabilities) + t2;
    let t0 = short_octets(vhost) + t1;
    let r2 = seq![pack_bits(insist, false, false, false, false)];
    let r1 = short_octets(capabilities) + r2;
    let r0 = short_octets(vhost) + r1;
    assert(r1 + tail =~= t1);
    assert(r0 + tail =~= t0);
    assert(encode_arguments(Arguments::ConnectionOpen { vhost, capabilities, insist }) == r0);
    lemma_short_octets(vhost, t1);
    lemma_short_octets(capabilities, t2);
    lemma_u8_octet(pack_bits(insist, false, false, false, false), t3);
    lemma_pack_bits(insist, false, false, false, false);
}

proof fn lemma_connection_open_ok_round_trip(known_hosts: Seq<u8>, tail: Seq<u8>)
    requires
        known_hosts.len() < 0x100,
    ensures
        spec_connection_open_ok(encode_arguments(Arguments::ConnectionOpenOk { known_hosts }) + tail)
            == Ok::<ArgumentsView, FrameDecodeErr>(Arguments::ConnectionOpenOk { known_hosts }),
{
    let t1 = tail;
    let t0 = short_octets(known_hosts) + t1;
    let r0 = short_octets(known_hosts);
    assert(encode_arguments(Arguments::ConnectionOpenOk { known_hosts }) == r0);
    lemma_short_octets(known_hosts, t1);
}

proof fn lemma_connection_close_round_trip(
    reply_code: u16,
    reply_text: Seq<u8>,
    class_id: u16,
    method_id: u16,
    tail: Seq<u8>,
)
    requires
        reply_text.len() < 0x100,
    ensures
        spec_connection_close(encode_arguments(Arguments::ConnectionClose { reply_code, reply_text, class_id, method_id }) + tail)
            == Ok::<ArgumentsView, FrameDecodeErr>(Arguments::ConnectionClose { reply_code, reply_text, class_id, method_id }),
{
    let t4 = tail;
    let t3 = be16_octets(method_id) + t4;
    let t2 = be16_octets(class_id) + t3;
    let t1 = short_octets(reply_text) + t2;
    let t0 = be16_octets(reply_code) + t1;
    let r3 = be16_octets(method_id);
    let r2 = be16_octets(class_id) + r3;
    let r1 = short_octets(reply_text) + r2;
    let r0 = be16_octets(reply_code) + r1;
    assert(r2 + tail =~= t2);
    assert(r1 + tail =~= t1);
    assert(r0 + tail =~= t0);
    assert(encode_arguments(Arguments::ConnectionClose { reply_code, reply_text, class_id, method_id })
        == r0);
    lemma_u16_octets(reply_code, t1);
    lemma_short_octets(reply_text, t2);
    lemma_u16_octets(class_id, t3);
    lemma_u16_octets(method_id, t4);
}

proof fn lemma_connection_close_ok_round_trip(tail: Seq<u8>)
    ensures
        spec_connection_close_ok(encode_arguments(Arguments::ConnectionCloseOk) + tail)
            == Ok::<ArgumentsView, FrameDecodeErr>(Arguments::ConnectionCloseOk),
{
}

proof fn lemma_channel_open_round_trip(out_of_band: Seq<u8>, tail: Seq<u8>)
    requires
        out_of_band.len() < 0x100,
    ensures
        spec_channel_open(encode_arguments(Arguments::ChannelOpen { out_of_band }) + tail)
            == Ok::<ArgumentsView, FrameDecodeErr>(Arguments::ChannelOpen { out_of_band }),
{
    let t1 = tail;
    let t0 = short_octets(out_of_band) + t1;
    let r0 = short_octets(out_of_band);
    assert(encode_arguments(Arguments::ChannelOpen { out_of_band }) == r0);
    lemma_short_octets(out_of_band, t1);
}

proof fn lemma_channel_open_ok_round_trip(channel_id: Seq<u8>, tail: Seq<u8>)
    requires
        channel_id.len() < 0x1_0000_0000,
    ensures
        spec_channel_open_ok(encode_arguments(Arguments::ChannelOpenOk { channel_id }) + tail)
            == Ok::<ArgumentsView, FrameDecodeErr>(Arguments::ChannelOpenOk { channel_id }),
{
    let t1 = tail;
    let t0 = framed(channel_id) + t1;
    let r0 = framed(channel_id);
    assert(encode_arguments(Arguments::ChannelOpenOk { channel_id }) == r0);
    lemma_long_octets(channel_id, t1);
}

proof fn lemma_channel_flow_round_trip(active: bool, tail: Seq<u8>)
    ensures
        spec_channel_flow(encode_arguments(Arguments::ChannelFlow { active }) + tail)
            == Ok::<ArgumentsView, FrameDecodeErr>(Arguments::ChannelFlow { active }),
{
    let t1 = tail;
    let t0 = seq![if active { 1u8 } else { 0u8 }] + t1;
    let r0 = seq![if active { 1u8 } else { 0u8 }];
    assert(encode_arguments(Arguments::ChannelFlow { active }) == r0);
    lemma_u8_octet(if active { 1u8 } else { 0u8 }, t1);
}

proof fn lemma_channel_flow_ok_round_trip(active: bool, tail: Seq<u8>)
    ensures
        spec_channel_flow_ok(encode_arguments(Arguments::ChannelFlowOk { active }) + tail)
            == Ok::<ArgumentsView, FrameDecodeErr>(Arguments::ChannelFlowOk { active }),
{
    let t1 = tail;
    let t0 = seq![if active { 1u8 } else { 0u8 }] + t1;
    let r0 = seq![if active { 1u8 } else { 0u8 }];
    assert(encode_arguments(Arguments::ChannelFlowOk { active }) == r0);
    lemma_u8_octet(if active { 1u8 } else { 0u8 }, t1);
}

proof fn lemma_channel_close_round_trip(
    reply_code: u16,
    reply_text: Seq<u8>,
    class_id: u16,
    method_id: u16,
    tail: Seq<u8>,
)
    requires
        reply_text.len() < 0x100,
    ensures
        spec_channel_close(encode_arguments(Arguments::ChannelClose { reply_code, reply_text, class_id, method_id }) + tail)
            == Ok::<ArgumentsView, FrameDecodeErr>(Arguments::ChannelClose { reply_code, reply_text, class_id, method_id }),
{
    let t4 = tail;
    let t3 = be16_octets(method_id) + t4;
    let t2 = be16_octets(class_id) + t3;
    let t1 = short_octets(reply_text) + t2;
    let t0 = be16_octets(reply_code) + t1;
    let r3 = be16_octets(method_id);
    let r2 = be16_octets(class_id) + r3;
    let r1 = short_octets(reply_text) + r2;
    let r0 = be16_octets(reply_code) + r1;
    assert(r2 + tail =~= t2);
    assert(r1 + tail =~= t1);
    assert(r0 + tail =~= t0);
    assert(encode_arguments(Arguments::ChannelClose { reply_code, reply_text, class_id, method_id })
        == r0);
    lemma_u16_octets(reply_code, t1);
    lemma_short_octets(reply_text, t2);
    lemma_u16_octets(class_id, t3);
    lemma_u16_octets(method_id, t4);
}

proof fn lemma_channel_close_ok_round_trip(tail: Seq<u8>)
    ensures
        spec_channel_close_ok(encode_arguments(Arguments::ChannelCloseOk) + tail)
            == Ok::<ArgumentsView, FrameDecodeErr>(Arguments::ChannelCloseOk),
{
}

proof fn lemma_access_request_round_trip(
    realm: Seq<u8>,
    exclusive: bool,
    passive: bool,
    active: bool,
    write: bool,
    read: bool,
    tail: Seq<u8>,
)
    requires
        realm.len() < 0x100,
    ensures
        spec_access_request(encode_arguments(Arguments::AccessRequest { realm, exclusive, passive, active, write, read }) + tail)
            == Ok::<ArgumentsView, FrameDecodeErr>(Arguments::AccessRequest { realm, exclusive, passive, active, write, read }),
{
    let t2 = tail;
    let t1 = seq![pack_bits(exclusive, passive, active, write, read)] + t2;
    let t0 = short_octets(realm) + t1;
    let r1 = seq![pack_bits(exclusive, passive, active, write, read)];
    let r0 = short_octets(realm) + r1;
    assert(r0 + tail =~= t0);
    assert(encode_arguments(Arguments::AccessRequest { realm, exclusive, passive, active, write, read })
        == r0);
    lemma_short_octets(realm, t1);
    lemma_u8_octet(pack_bits(exclusive, passive, active, write, read), t2);
    lemma_pack_bits(exclusive, passive, active, write, read);
}

proof fn lemma_access_request_ok_round_trip(ticket: u16, tail: Seq<u8>)
    ensures
        spec_access_request_ok(encode_arguments(Arguments::AccessRequestOk { ticket }) + tail)
            == Ok::<ArgumentsView, FrameDecodeErr>(Arguments::AccessRequestOk { ticket }),
{
    let t1 = tail;
    let t0 = be16_octets(ticket) + t1;
    let r0 = be16_octets(ticket);
    assert(encode_arguments(Arguments::AccessRequestOk { ticket }) == r0);
    lemma_u16_octets(ticket, t1);
}

proof fn lemma_exchange_declare_round_trip(
    ticket: u16,
    exchange: Seq<u8>,
    exchange_type: Seq<u8>,
    passive: bool,
    durable: bool,
    auto_delete: bool,
    internal: bool,
    no_wait: bool,
    arguments: FieldTableView,
    tail: Seq<u8>,
)
    requires
        exchange.len() < 0x100,
        exchange_type.len() < 0x100,
        table_encodable(arguments),
    ensures
        spec_exchange_declare(encode_arguments(Arguments::ExchangeDeclare { ticket, exchange, exchange_type, passive, durable, auto_delete, internal, no_wait, arguments }) + tail)
            == Ok::<ArgumentsView, FrameDecodeErr>(Arguments::ExchangeDeclare { ticket, exchange, exchange_type, passive, durable, auto_delete, internal, no_wait, arguments }),
{
    let t5 = tail;
    let t4 = framed(entries_octets(arguments)) + t5;
    let t3 = seq![pack_bits(passive, durable, auto_delete, internal, no_wait)] + t4;
    let t2 = short_octets(exchange_type) + t3;
    let t1 = short_octets(exchange) + t2;
    let t0 = be16_octets(ticket) + t1;
    let r4 = framed(entries_octets(arguments));
    let r3 = seq![pack_bits(passive, durable, auto_delete, internal, no_wait)] + r4;
    let r2 = short_octets(exchange_type) + r3;
    let r1 = short_octets(exchange) + r2;
    let r0 = be16_octets(ticket) + r1;
    assert(r3 + tail =~= t3);
    assert(r2 + tail =~= t2);
    assert(r1 + tail =~= t1);
    assert(r0 + tail =~= t0);
    assert(encode_arguments(Arguments::ExchangeDeclare { ticket, exchange, exchange_type, passive, durable, auto_delete, internal, no_wait, arguments })
        == r0);
    lemma_u16_octets(ticket, t1);
    lemma_short_octets(exchange, t2);
    lemma_short_octets(exchange_type, t3);
    lemma_u8_octet(pack_bits(passive, durable, auto_delete, internal, no_wait), t4);
    lemma_pack_bits(passive, durable, auto_delete, internal, no_wait);
    lemma_table_octets(arguments, t5);
}

proof fn lemma_exchange_declare_ok_round_trip(tail: Seq<u8>)
    ensures
        spec_exchange_declare_ok(encode_arguments(Arguments::ExchangeDeclareOk) + tail)
            == Ok::<ArgumentsView, FrameDecodeErr>(Arguments::ExchangeDeclareOk),
{
}

proof fn lemma_exchange_delete_round_trip(
    ticket: u16,
    exchange: Seq<u8>,
    if_unused: bool,
    no_wait: bool,
    tail: Seq<u8>,
)
    requires
        exchange.len() < 0x100,
    ensures
        spec_exchange_delete(encode_arguments(Arguments::ExchangeDelete { ticket, exchange, if_unused, no_wait }) + tail)
            == Ok::<ArgumentsView, FrameDecodeErr>(Arguments::ExchangeDelete { ticket, exchange, if_unused, no_wait }),
{
    let t3 = tail;
    let t2 = seq![pack_bits(if_unused, no_wait, false, false, false)] + t3;
    let t1 = short_octets(exchange) + t2;
    let t0 = be16_octets(ticket) + t1;
    let r2 = seq![pack_bits(if_unused, no_wait, false, false, false)];
    let r1 = short_octets(exchange) + r2;
    let r0 = be16_octets(ticket) + r1;
    assert(r1 + tail =~= t1);
    assert(r0 + tail =~= t0);
    assert(encode_arguments(Arguments::ExchangeDelete { ticket, exchange, if_unused, no_wait })
        == r0);
    lemma_u16_octets(ticket, t1);
    lemma_short_octets(exchange, t2);
    lemma_u8_octet(pack_bits(if_unused, no_wait, false, false, false), t3);
    lemma_pack_bits(if_unused, no_wait, false, false, false);
}

proof fn lemma_exchange_delete_ok_round_trip(tail: Seq<u8>)
    ensures
        spec_exchange_delete_ok(encode_arguments(Arguments::ExchangeDeleteOk) + tail)
            == Ok::<ArgumentsView, FrameDecodeErr>(Arguments::ExchangeDeleteOk),
{
}

proof fn lemma_exchange_bind_round_trip(
    ticket: u16,
    destination: Seq<u8>,
    source: Seq<u8>,
    routing_key: Seq<u8>,
    no_wait: bool,
    arguments: FieldTableView,
    tail: Seq<u8>,
)
    requires
        destination.len() < 0x100,
        source.len() < 0x100,
        routing_key.len() < 0x100,
        table_encodable(arguments),
    ensures
        spec_exchange_bind(encode_arguments(Arguments::ExchangeBind { ticket, destination, source, routing_key, no_wait, arguments }) + tail)
            == Ok::<ArgumentsView, FrameDecodeErr>(Arguments::ExchangeBind { ticket, destination, source, routing_key, no_wait, arguments }),
{
    let t6 = tail;
    let t5 = framed(entries_octets(arguments)) + t6;
    let t4 = seq![pack_bits(no_wait, false, false, false, false)] + t5;
    let t3 = short_octets(routing_key) + t4;
    let t2 = short_octets(source) + t3;
    let t1 = short_octets(destination) + t2;
    let t0 = be16_octets(ticket) + t1;
    let r5 = framed(entries_octets(arguments));
    let r4 = seq![pack_bits(no_wait, false, false, false, false)] + r5;
    let r3 = short_octets(routing_key) + r4;
    let r2 = short_octets(source) + r3;
    let r1 = short_octets(destination) + r2;
    let r0 = be16_octets(ticket) + r1;
    assert(r4 + tail =~= t4);
    assert(r3 + tail =~= t3);
    assert(r2 + tail =~= t2);
    assert(r1 + tail =~= t1);
    assert(r0 + tail =~= t0);
    assert(encode_arguments(Arguments::ExchangeBind { ticket, destination, source, routing_key, no_wait, arguments })
        == r0);
    lemma_u16_octets(ticket, t1);
    lemma_short_octets(destination, t2);
    lemma_short_octets(source, t3);
    lemma_short_octets(routing_key, t4);
    lemma_u8_octet(pack_bits(no_wait, false, false, false, false), t5);
    lemma_pack_bits(no_wait, false, false, false, false);
    lemma_table_octets(arguments, t6);
}

proof fn lemma_exchange_bind_ok_round_trip(tail: Seq<u8>)
    ensures
        spec_exchange_bind_ok(encode_arguments(Arguments::ExchangeBindOk) + tail)
            == Ok::<ArgumentsView, FrameDecodeErr>(Arguments::ExchangeBindOk),
{
}

proof fn lemma_exchange_unbind_round_trip(
    ticket: u16,
    destination: Seq<u8>,
    source: Seq<u8>,
    routing_key: Seq<u8>,
    no_wait: bool,
    arguments: FieldTableView,
    tail: Seq<u8>,
)
    requires
        destination.len() < 0x100,
        source.len() < 0x100,
        routing_key.len() < 0x100,
        table_encodable(arguments),
    ensures
        spec_exchange_unbind(encode_arguments(Arguments::ExchangeUnbind { ticket, destination, source, routing_key, no_wait, arguments }) + tail)
            == Ok::<ArgumentsView, FrameDecodeErr>(Arguments::ExchangeUnbind { ticket, destination, source, routing_key, no_wait, arguments }),
{
    let t6 = tail;
    let t5 = framed(entries_octets(arguments)) + t6;
    let t4 = seq![pack_bits(no_wait, false, false, false, false)] + t5;
    let t3 = short_octets(routing_key) + t4;
    let t2 = short_octets(source) + t3;
    let t1 = short_octets(destination) + t2;
    let t0 = be16_octets(ticket) + t1;
    let r5 = framed(entries_octets(arguments));
    let r4 = seq![pack_bits(no_wait, false, false, false, false)] + r5;
    let r3 = short_octets(routing_key) + r4;
    let r2 = short_octets(source) + r3;
    let r1 = short_octets(destination) + r2;
    let r0 = be16_octets(ticket) + r1;
    assert(r4 + tail =~= t4);
    assert(r3 + tail =~= t3);
    assert(r2 + tail =~= t2);
    assert(r1 + tail =~= t1);
    assert(r0 + tail =~= t0);
    assert(encode_arguments(Arguments::ExchangeUnbind { ticket, destination, source, routing_key, no_wait, arguments })
        == r0);
    lemma_u16_octets(ticket, t1);
    lemma_short_octets(destination, t2);
    lemma_short_octets(source, t3);
    lemma_short_octets(routing_key, t4);
    lemma_u8_octet(pack_bits(no_wait, false, false, false, false), t5);
    lemma_pack_bits(no_wait, false, false, false, false);
    lemma_table_octets(arguments, t6);
}

proof fn lemma_exchange_unbind_ok_round_trip(tail: Seq<u8>)
    ensures
        spec_exchange_unbind_ok(encode_arguments(Arguments::ExchangeUnbindOk) + tail)
            == Ok::<ArgumentsView, FrameDecodeErr>(Arguments::ExchangeUnbindOk),
{
}

proof fn lemma_queue_declare_round_trip(
    ticket: u16,
    queue: Seq<u8>,
    passive: bool,
    durable: bool,
    exclusive: bool,
    auto_delete: bool,
    no_wait: bool,
    arguments: FieldTableView,
    tail: Seq<u8>,
)
    requires
        queue.len() < 0x100,
        table_encodable(arguments),
    ensures
        spec_queue_declare(encode_arguments(Arguments::QueueDeclare { ticket, queue, passive, durable, exclusive, auto_delete, no_wait, arguments }) + tail)
            == Ok::<ArgumentsView, FrameDecodeErr>(Arguments::QueueDeclare { ticket, queue, passive, durable, exclusive, auto_delete, no_wait, arguments }),
{
    let t4 = tail;
    let t3 = framed(entries_octets(arguments)) + t4;
    let t2 = seq![pack_bits(passive, durable, exclusive, auto_delete, no_wait)] + t3;
    let t1 = short_octets(queue) + t2;
    let t0 = be16_octets(ticket) + t1;
    let r3 = framed(entries_octets(arguments));
    let r2 = seq![pack_bits(passive, durable, exclusive, auto_delete, no_wait)] + r3;
    let r1 = short_octets(queue) + r2;
    let r0 = be16_octets(ticket) + r1;
    assert(r2 + tail =~= t2);
    assert(r1 + tail =~= t1);
    assert(r0 + tail =~= t0);
    assert(encode_arguments(Arguments::QueueDeclare { ticket, queue, passive, durable, exclusive, auto_delete, no_wait, arguments })
        == r0);
    lemma_u16_octets(ticket, t1);
    lemma_short_octets(queue, t2);
    lemma_u8_octet(pack_bits(passive, durable, exclusive, auto_delete, no_wait), t3);
    lemma_pack_bits(passive, durable, exclusive, auto_delete, no_wait);
    lemma_table_octets(arguments, t4);
}

proof fn lemma_queue_declare_ok_round_trip(
    queue: Seq<u8>,
    message_count: u32,
    consumer_count: u32,
    tail: Seq<u8>,
)
    requires
        queue.len() < 0x100,
    ensures
        spec_queue_declare_ok(encode_arguments(Arguments::QueueDeclareOk { queue, message_count, consumer_count }) + tail)
            == Ok::<ArgumentsView, FrameDecodeErr>(Arguments::QueueDeclareOk { queue, message_count, consumer_count }),
{
    let t3 = tail;
    let t2 = be32_octets(consumer_count) + t3;
    let t1 = be32_octets(message_count) + t2;
    let t0 = short_octets(queue) + t1;
    let r2 = be32_octets(consumer_count);
    let r1 = be32_octets(message_count) + r2;
    let r0 = short_octets(queue) + r1;
    assert(r1 + tail =~= t1);
    assert(r0 + tail =~= t0);
    assert(encode_arguments(Arguments::QueueDeclareOk { queue, message_count, consumer_count })
        == r0);
    lemma_short_octets(queue, t1);
    lemma_u32_octets(message_count, t2);
    lemma_u32_octets(consumer_count, t3);
}

proof fn lemma_queue_bind_round_trip(
    ticket: u16,
    queue: Seq<u8>,
    exchange: Seq<u8>,
    routing_key: Seq<u8>,
    no_wait: bool,
    arguments: FieldTableView,
    tail: Seq<u8>,
)
    requires
        queue.len() < 0x100,
        exchange.len() < 0x100,
        routing_key.len() < 0x100,
        table_encodable(arguments),
    ensures
        spec_queue_bind(encode_arguments(Arguments::QueueBind { ticket, queue, exchange, routing_key, no_wait, arguments }) + tail)
            == Ok::<ArgumentsView, FrameDecodeErr>(Arguments::QueueBind { ticket, queue, exchange, routing_key, no_wait, arguments }),
{
    let t6 = tail;
    let t5 = framed(entries_octets(arguments)) + t6;
    let t4 = seq![pack_bits(no_wait, false, false, false, false)] + t5;
    let t3 = short_octets(routing_key) + t4;
    let t2 = short_octets(exchange) + t3;
    let t1 = short_octets(queue) + t2;
    let t0 = be16_octets(ticket) + t1;
    let r5 = framed(entries_octets(arguments));
    let r4 = seq![pack_bits(no_wait, false, false, false, false)] + r5;
    let r3 = short_octets(routing_key) + r4;
    let r2 = short_octets(exchange) + r3;
    let r1 = short_octets(queue) + r2;
    let r0 = be16_octets(ticket) + r1;
    assert(r4 + tail =~= t4);
    assert(r3 + tail =~= t3);
    assert(r2 + tail =~= t2);
    assert(r1 + tail =~= t1);
    assert(r0 + tail =~= t0);
    assert(encode_arguments(Arguments::QueueBind { ticket, queue, exchange, routing_key, no_wait, arguments })
        == r0);
    lemma_u16_octets(ticket, t1);
    lemma_short_octets(queue, t2);
    lemma_short_octets(exchange, t3);
    lemma_short_octets(routing_key, t4);
    lemma_u8_octet(pack_bits(no_wait, false, false, false, false), t5);
    lemma_pack_bits(no_wait, false, false, false, false);
    lemma_table_octets(arguments, t6);
}

proof fn lemma_queue_bind_ok_round_trip(tail: Seq<u8>)
    ensures
        spec_queue_bind_ok(encode_arguments(Arguments::QueueBindOk) + tail)
            == Ok::<ArgumentsView, FrameDecodeErr>(Arguments::QueueBindOk),
{
}

proof fn lemma_queue_unbind_round_trip(
    ticket: u16,
    queue: Seq<u8>,
    exchange: Seq<u8>,
    routing_key: Seq<u8>,
    arguments: FieldTableView,
    tail: Seq<u8>,
)
    requires
        queue.len() < 0x100,
        exchange.len() < 0x100,
        routing_key.len() < 0x100,
        table_encodable(arguments),
    ensures
        spec_queue_unbind(encode_arguments(Arguments::QueueUnbind { ticket, queue, exchange, routing_key, arguments }) + tail)
            == Ok::<ArgumentsView, FrameDecodeErr>(Arguments::QueueUnbind { ticket, queue, exchange, routing_key, arguments }),
{
    let t5 = tail;
    let t4 = framed(entries_octets(arguments)) + t5;
    let t3 = short_octets(routing_key) + t4;
    let t2 = short_octets(exchange) + t3;
    let t1 = short_octets(queue) + t2;
    let t0 = be16_octets(ticket) + t1;
    let r4 = framed(entries_octets(arguments));
    let r3 = short_octets(routing_key) + r4;
    let r2 = short_octets(exchange) + r3;
    let r1 = short_octets(queue) + r2;
    let r0 = be16_octets(ticket) + r1;
    assert(r3 + tail =~= t3);
    assert(r2 + tail =~= t2);
    assert(r1 + tail =~= t1);
    assert(r0 + tail =~= t0);
    assert(encode_arguments(Arguments::QueueUnbind { ticket, queue, exchange, routing_key, arguments })
        == r0);
    lemma_u16_octets(ticket, t1);
    lemma_short_octets(queue, t2);
    lemma_short_octets(exchange, t3);
    lemma_short_octets(routing_key, t4);
    lemma_table_octets(arguments, t5);
}

proof fn lemma_queue_unbind_ok_round_trip(tail: Seq<u8>)
    ensures
        spec_queue_unbind_ok(encode_arguments(Arguments::QueueUnbindOk) + tail)
            == Ok::<ArgumentsView, FrameDecodeErr>(Arguments::QueueUnbindOk),
{
}

proof fn lemma_queue_purge_round_trip(ticket: u16, queue: Seq<u8>, no_wait: bool, tail: Seq<u8>)
    requires
        queue.len() < 0x100,
    ensures
        spec_queue_purge(encode_arguments(Arguments::QueuePurge { ticket, queue, no_wait }) + tail)
            == Ok::<ArgumentsView, FrameDecodeErr>(Arguments::QueuePurge { ticket, queue, no_wait }),
{
    let t3 = tail;
    let t2 = seq![pack_bits(no_wait, false, false, false, false)] + t3;
    let t1 = short_octets(queue) + t2;
    let t0 = be16_octets(ticket) + t1;
    let r2 = seq![pack_bits(no_wait, false, false, false, false)];
    let r1 = short_octets(queue) + r2;
    let r0 = be16_octets(ticket) + r1;
    assert(r1 + tail =~= t1);
    assert(r0 + tail =~= t0);
    assert(encode_arguments(Arguments::QueuePurge { ticket, queue, no_wait }) == r0);
    lemma_u16_octets(ticket, t1);
    lemma_short_octets(queue, t2);
    lemma_u8_octet(pack_bits(no_wait, false, false, false, false), t3);
    lemma_pack_bits(no_wait, false, false, false, false);
}

proof fn lemma_queue_purge_ok_round_trip(message_count: u32, tail: Seq<u8>)
    ensures
        spec_queue_purge_ok(encode_arguments(Arguments::QueuePurgeOk { message_count }) + tail)
            == Ok::<ArgumentsView, FrameDecodeErr>(Arguments::QueuePurgeOk { message_count }),
{
    let t1 = tail;
    let t0 = be32_octets(message_count) + t1;
    let r0 = be32_octets(message_count);
    assert(encode_arguments(Arguments::QueuePurgeOk { message_count }) == r0);
    lemma_u32_octets(message_count, t1);
}

proof fn lemma_queue_delete_round_trip(
    ticket: u16,
    queue: Seq<u8>,
    if_unused: bool,
    if_empty: bool,
    no_wait: bool,
    tail: Seq<u8>,
)
    requires
        queue.len() < 0x100,
    ensures
        spec_queue_delete(encode_arguments(Arguments::QueueDelete { ticket, queue, if_unused, if_empty, no_wait }) + tail)
            == Ok::<ArgumentsView, FrameDecodeErr>(Arguments::QueueDelete { ticket, queue, if_unused, if_empty, no_wait }),
{
    let t3 = tail;
    let t2 = seq![pack_bits(if_unused, if_empty, no_wait, false, false)] + t3;
    let t1 = short_octets(queue) + t2;
    let t0 = be16_octets(ticket) + t1;
    let r2 = seq![pack_bits(if_unused, if_empty, no_wait, false, false)];
    let r1 = short_octets(queue) + r2;
    let r0 = be16_octets(ticket) + r1;
    assert(r1 + tail =~= t1);
    assert(r0 + tail =~= t0);
    assert(encode_arguments(Arguments::QueueDelete { ticket, queue, if_unused, if_empty, no_wait })
        == r0);
    lemma_u16_octets(ticket, t1);
    lemma_short_octets(queue, t2);
    lemma_u8_octet(pack_bits(if_unused, if_empty, no_wait, false, false), t3);
    lemma_pack_bits(if_unused, if_empty, no_wait, false, false);
}

proof fn lemma_queue_delete_ok_round_trip(message_count: u32, tail: Seq<u8>)
    ensures
        spec_queue_delete_ok(encode_arguments(Arguments::QueueDeleteOk { message_count }) + tail)
            == Ok::<ArgumentsView, FrameDecodeErr>(Arguments::QueueDeleteOk { message_count }),
{
    let t1 = tail;
    let t0 = be32_octets(message_count) + t1;
    let r0 = be32_octets(message_count);
    assert(encode_arguments(Arguments::QueueDeleteOk { message_count }) == r0);
    lemma_u32_octets(message_count, t1);
}

proof fn lemma_basic_qos_round_trip(
    prefetch_size: u32,
    prefetch_count: u16,
    global: bool,
    tail: Seq<u8>,
)
    ensures
        spec_basic_qos(encode_arguments(Arguments::BasicQos { prefetch_size, prefetch_count, global }) + tail)
            == Ok::<ArgumentsView, FrameDecodeErr>(Arguments::BasicQos { prefetch_size, prefetch_count, global }),
{
    let t3 = tail;
    let t2 = seq![pack_bits(global, false, false, false, false)] + t3;
    let t1 = be16_octets(prefetch_count) + t2;
    let t0 = be32_octets(prefetch_size) + t1;
    let r2 = seq![pack_bits(global, false, false, false, false)];
    let r1 = be16_octets(prefetch_count) + r2;
    let r0 = be32_octets(prefetch_size) + r1;
    assert(r1 + tail =~= t1);
    assert(r0 + tail =~= t0);
    assert(encode_arguments(Arguments::BasicQos { prefetch_size, prefetch_count, global }) == r0);
    lemma_u32_octets(prefetch_size, t1);
    lemma_u16_octets(prefetch_count, t2);
    lemma_u8_octet(pack_bits(global, false, false, false, false), t3);
    lemma_pack_bits(global, false, false, false, false);
}

proof fn lemma_basic_qos_ok_round_trip(tail: Seq<u8>)
    ensures
        spec_basic_qos_ok(encode_arguments(Arguments::BasicQosOk) + tail)
            == Ok::<ArgumentsView, FrameDecodeErr>(Arguments::BasicQosOk),
{
}

proof fn lemma_basic_consume_round_trip(
    ticket: u16,
    queue: Seq<u8>,
    consumer_tag: Seq<u8>,
    no_local: bool,
    no_ack: bool,
    exclusive: bool,
    no_wait: bool,
    arguments: FieldTableView,
    tail: Seq<u8>,
)
    requires
        queue.len() < 0x100,
        consumer_tag.len() < 0x100,
        table_encodable(arguments),
    ensures
        spec_basic_consume(encode_arguments(Arguments::BasicConsume { ticket, queue, consumer_tag, no_local, no_ack, exclusive, no_wait, arguments }) + tail)
            == Ok::<ArgumentsView, FrameDecodeErr>(Arguments::BasicConsume { ticket, queue, consumer_tag, no_local, no_ack, exclusive, no_wait, arguments }),
{
    let t5 = tail;
    let t4 = framed(entries_octets(arguments)) + t5;
    let t3 = seq![pack_bits(no_local, no_ack, exclusive, no_wait, false)] + t4;
    let t2 = short_octets(consumer_tag) + t3;
    let t1 = short_octets(queue) + t2;
    let t0 = be16_octets(ticket) + t1;
    let r4 = framed(entries_octets(arguments));
    let r3 = seq![pack_bits(no_local, no_ack, exclusive, no_wait, false)] + r4;
    let r2 = short_octets(consumer_tag) + r3;
    let r1 = short_octets(queue) + r2;
    let r0 = be16_octets(ticket) + r1;
    assert(r3 + tail =~= t3);
    assert(r2 + tail =~= t2);
    assert(r1 + tail =~= t1);
    assert(r0 + tail =~= t0);
    assert(encode_arguments(Arguments::BasicConsume { ticket, queue, consumer_tag, no_local, no_ack, exclusive, no_wait, arguments })
        == r0);
    lemma_u16_octets(ticket, t1);
    lemma_short_octets(queue, t2);
    lemma_short_octets(consumer_tag, t3);
    lemma_u8_octet(pack_bits(no_local, no_ack, exclusive, no_wait, false), t4);
    lemma_pack_bits(no_local, no_ack, exclusive, no_wait, false);
    lemma_table_octets(arguments, t5);
}

proof fn lemma_basic_consume_ok_round_trip(consumer_tag: Seq<u8>, tail: Seq<u8>)
    requires
        consumer_tag.len() < 0x100,
    ensures
        spec_basic_consume_ok(encode_arguments(Arguments::BasicConsumeOk { consumer_tag }) + tail)
            == Ok::<ArgumentsView, FrameDecodeErr>(Arguments::BasicConsumeOk { consumer_tag }),
{
    let t1 = tail;
    let t0 = short_octets(consumer_tag) + t1;
    let r0 = short_octets(consumer_tag);
    assert(encode_arguments(Arguments::BasicConsumeOk { consumer_tag }) == r0);
    lemma_short_octets(consumer_tag, t1);
}

proof fn lemma_basic_cancel_round_trip(consumer_tag: Seq<u8>, no_wait: bool, tail: Seq<u8>)
    requires
        consumer_tag.len() < 0x100,
    ensures
        spec_basic_cancel(encode_arguments(Arguments::BasicCancel { consumer_tag, no_wait }) + tail)
            == Ok::<ArgumentsView, FrameDecodeErr>(Arguments::BasicCancel { consumer_tag, no_wait }),
{
    let t2 = tail;
    let t1 = seq![pack_bits(no_wait, false, false, false, false)] + t2;
    let t0 = short_octets(consumer_tag) + t1;
    let r1 = seq![pack_bits(no_wait, false, false, false, false)];
    let r0 = short_octets(consumer_tag) + r1;
    assert(r0 + tail =~= t0);
    assert(encode_arguments(Arguments::BasicCancel { consumer_tag, no_wait }) == r0);
    lemma_short_octets(consumer_tag, t1);
    lemma_u8_octet(pack_bits(no_wait, false, false, false, false), t2);
    lemma_pack_bits(no_wait, false, false, false, false);
}

proof fn lemma_basic_cancel_ok_round_trip(consumer_tag: Seq<u8>, tail: Seq<u8>)
    requires
        consumer_tag.len() < 0x100,
    ensures
        spec_basic_cancel_ok(encode_arguments(Arguments::BasicCancelOk { consumer_tag }) + tail)
            == Ok::<ArgumentsView, FrameDecodeErr>(Arguments::BasicCancelOk { consumer_tag }),
{
    let t1 = tail;
    let t0 = short_octets(consumer_tag) + t1;
    let r0 = short_octets(consumer_tag);
    assert(encode_arguments(Arguments::BasicCancelOk { consumer_tag }) == r0);
    lemma_short_octets(consumer_tag, t1);
}

proof fn lemma_basic_publish_round_trip(
    ticket: u16,
    exchange: Seq<u8>,
    routing_key: Seq<u8>,
    mandatory: bool,
    immediate: bool,
    tail: Seq<u8>,
)
    requires
        exchange.len() < 0x100,
        routing_key.len() < 0x100,
    ensures
        spec_basic_publish(encode_arguments(Arguments::BasicPublish { ticket, exchange, routing_key, mandatory, immediate }) + tail)
            == Ok::<ArgumentsView, FrameDecodeErr>(Arguments::BasicPublish { ticket, exchange, routing_key, mandatory, immediate }),
{
    let t4 = tail;
    let t3 = seq![pack_bits(mandatory, immediate, false, false, false)] + t4;
    let t2 = short_octets(routing_key) + t3;
    let t1 = short_octets(exchange) + t2;
    let t0 = be16_octets(ticket) + t1;
    let r3 = seq![pack_bits(mandatory, immediate, false, false, false)];
    let r2 = short_octets(routing_key) + r3;
    let r1 = short_octets(exchange) + r2;
    let r0 = be16_octets(ticket) + r1;
    assert(r2 + tail =~= t2);
    assert(r1 + tail =~= t1);
    assert(r0 + tail =~= t0);
    assert(encode_arguments(Arguments::BasicPublish { ticket, exchange, routing_key, mandatory, immediate })
        == r0);
    lemma_u16_octets(ticket, t1);
    lemma_short_octets(exchange, t2);
    lemma_short_octets(routing_key, t3);
    lemma_u8_octet(pack_bits(mandatory, immediate, false, false, false), t4);
    lemma_pack_bits(mandatory, immediate, false, false, false);
}

proof fn lemma_basic_return_round_trip(
    reply_code: u16,
    reply_text: Seq<u8>,
    exchange: Seq<u8>,
    routing_key: Seq<u8>,
    tail: Seq<u8>,
)
    requires
        reply_text.len() < 0x100,
        exchange.len() < 0x100,
        routing_key.len() < 0x100,
    ensures
        spec_basic_return(encode_arguments(Arguments::BasicReturn { reply_code, reply_text, exchange, routing_key }) + tail)
            == Ok::<ArgumentsView, FrameDecodeErr>(Arguments::BasicReturn { reply_code, reply_text, exchange, routing_key }),
{
    let t4 = tail;
    let t3 = short_octets(routing_key) + t4;
    let t2 = short_octets(exchange) + t3;
    let t1 = short_octets(reply_text) + t2;
    let t0 = be16_octets(reply_code) + t1;
    let r3 = short_octets(routing_key);
    let r2 = short_octets(exchange) + r3;
    let r1 = short_octets(reply_text) + r2;
    let r0 = be16_octets(reply_code) + r1;
    assert(r2 + tail =~= t2);
    assert(r1 + tail =~= t1);
    assert(r0 + tail =~= t0);
    assert(encode_arguments(Arguments::BasicReturn { reply_code, reply_text, exchange, routing_key })
        == r0);
    lemma_u16_octets(reply_code, t1);
    lemma_short_octets(reply_text, t2);
    lemma_short_octets(exchange, t3);
    lemma_short_octets(routing_key, t4);
}

proof fn lemma_basic_delivery_round_trip(
    consumer_tag: Seq<u8>,
    delivery_tag: u64,
    redelivered: bool,
    exchange: Seq<u8>,
    routing_key: Seq<u8>,
    tail: Seq<u8>,
)
    requires
        consumer_tag.len() < 0x100,
        exchange.len() < 0x100,
        routing_key.len() < 0x100,
    ensures
        spec_basic_delivery(encode_arguments(Arguments::BasicDeliver { consumer_tag, delivery_tag, redelivered, exchange, routing_key }) + tail)
            == Ok::<ArgumentsView, FrameDecodeErr>(Arguments::BasicDeliver { consumer_tag, delivery_tag, redelivered, exchange, routing_key }),
{
    let t5 = tail;
    let t4 = short_octets(routing_key) + t5;
    let t3 = short_octets(exchange) + t4;
    let t2 = seq![pack_bits(redelivered, false, false, false, false)] + t3;
    let t1 = be64_octets(delivery_tag) + t2;
    let t0 = short_octets(consumer_tag) + t1;
    let r4 = short_octets(routing_key);
    let r3 = short_octets(exchange) + r4;
    let r2 = seq![pack_bits(redelivered, false, false, false, false)] + r3;
    let r1 = be64_octets(delivery_tag) + r2;
    let r0 = short_octets(consumer_tag) + r1;
    assert(r3 + tail =~= t3);
    assert(r2 + tail =~= t2);
    assert(r1 + tail =~= t1);
    assert(r0 + tail =~= t0);
    assert(encode_arguments(Arguments::BasicDeliver { consumer_tag, delivery_tag, redelivered, exchange, routing_key })
        == r0);
    lemma_short_octets(consumer_tag, t1);
    lemma_u64_octets(delivery_tag, t2);
    lemma_u8_octet(pack_bits(redelivered, false, false, false, false), t3);
    lemma_pack_bits(redelivered, false, false, false, false);
    lemma_short_octets(exchange, t4);
    lemma_short_octets(routing_key, t5);
}

proof fn lemma_basic_get_round_trip(ticket: u16, queue: Seq<u8>, no_ack: bool, tail: Seq<u8>)
    requires
        queue.len() < 0x100,
    ensures
        spec_basic_get(encode_arguments(Arguments::BasicGet { ticket, queue, no_ack }) + tail)
            == Ok::<ArgumentsView, FrameDecodeErr>(Arguments::BasicGet { ticket, queue, no_ack }),
{
    let t3 = tail;
    let t2 = seq![pack_bits(no_ack, false, false, false, false)] + t3;
    let t1 = short_octets(queue) + t2;
    let t0 = be16_octets(ticket) + t1;
    let r2 = seq![pack_bits(no_ack, false, false, false, false)];
    let r1 = short_octets(queue) + r2;
    let r0 = be16_octets(ticket) + r1;
    assert(r1 + tail =~= t1);
    assert(r0 + tail =~= t0);
    assert(encode_arguments(Arguments::BasicGet { ticket, queue, no_ack }) == r0);
    lemma_u16_octets(ticket, t1);
    lemma_short_octets(queue, t2);
    lemma_u8_octet(pack_bits(no_ack, false, false, false, false), t3);
    lemma_pack_bits(no_ack, false, false, false, false);
}

proof fn lemma_basic_get_ok_round_trip(
    delivery_tag: u64,
    redelivered: bool,
    exchange: Seq<u8>,
    routing_key: Seq<u8>,
    message_count: u32,
    tail: Seq<u8>,
)
    requires
        exchange.len() < 0x100,
        routing_key.len() < 0x100,
    ensures
        spec_basic_get_ok(encode_arguments(Arguments::BasicGetOk { delivery_tag, redelivered, exchange, routing_key, message_count }) + tail)
            == Ok::<ArgumentsView, FrameDecodeErr>(Arguments::BasicGetOk { delivery_tag, redelivered, exchange, routing_key, message_count }),
{
    let t5 = tail;
    let t4 = be32_octets(message_count) + t5;
    let t3 = short_octets(routing_key) + t4;
    let t2 = short_octets(exchange) + t3;
    let t1 = seq![pack_bits(redelivered, false, false, false, false)] + t2;
    let t0 = be64_octets(delivery_tag) + t1;
    let r4 = be32_octets(message_count);
    let r3 = short_octets(routing_key) + r4;
    let r2 = short_octets(exchange) + r3;
    let r1 = seq![pack_bits(redelivered, false, false, false, false)] + r2;
    let r0 = be64_octets(delivery_tag) + r1;
    assert(r3 + tail =~= t3);
    assert(r2 + tail =~= t2);
    assert(r1 + tail =~= t1);
    assert(r0 + tail =~= t0);
    assert(encode_arguments(Arguments::BasicGetOk { delivery_tag, redelivered, exchange, routing_key, message_count })
        == r0);
    lemma_u64_octets(delivery_tag, t1);
    lemma_u8_octet(pack_bits(redelivered, false, false, false, false), t2);
    lemma_pack_bits(redelivered, false, false, false, false);
    lemma_short_octets(exchange, t3);
    lemma_short_octets(routing_key, t4);
    lemma_u32_octets(message_count, t5);
}

proof fn lemma_basic_get_empty_round_trip(cluster_id: Seq<u8>, tail: Seq<u8>)
    requires
        cluster_id.len() < 0x100,
    ensures
        spec_basic_get_empty(encode_arguments(Arguments::BasicGetEmpty { cluster_id }) + tail)
            == Ok::<ArgumentsView, FrameDecodeErr>(Arguments::BasicGetEmpty { cluster_id }),
{
    let t1 = tail;
    let t0 = short_octets(cluster_id) + t1;
    let r0 = short_octets(cluster_id);
    assert(encode_arguments(Arguments::BasicGetEmpty { cluster_id }) == r0);
    lemma_short_octets(cluster_id, t1);
}

proof fn lemma_basic_ack_round_trip(delivery_tag: u64, multiple: bool, tail: Seq<u8>)
    ensures
        spec_basic_ack(encode_arguments(Arguments::BasicAck { delivery_tag, multiple }) + tail)
            == Ok::<ArgumentsView, FrameDecodeErr>(Arguments::BasicAck { delivery_tag, multiple }),
{
    let t2 = tail;
    let t1 = seq![pack_bits(multiple, false, false, false, false)] + t2;
    let t0 = be64_octets(delivery_tag) + t1;
    let r1 = seq![pack_bits(multiple, false, false, false, false)];
    let r0 = be64_octets(delivery_tag) + r1;
    assert(r0 + tail =~= t0);
    assert(encode_arguments(Arguments::BasicAck { delivery_tag, multiple }) == r0);
    lemma_u64_octets(delivery_tag, t1);
    lemma_u8_octet(pack_bits(multiple, false, false, false, false), t2);
    lemma_pack_bits(multiple, false, false, false, false);
}

proof fn lemma_basic_reject_round_trip(delivery_tag: u64, requeue: bool, tail: Seq<u8>)
    ensures
        spec_basic_reject(encode_arguments(Arguments::BasicReject { delivery_tag, requeue }) + tail)
            == Ok::<ArgumentsView, FrameDecodeErr>(Arguments::BasicReject { delivery_tag, requeue }),
{
    let t2 = tail;
    let t1 = seq![pack_bits(requeue, false, false, false, false)] + t2;
    let t0 = be64_octets(delivery_tag) + t1;
    let r1 = seq![pack_bits(requeue, false, false, false, false)];
    let r0 = be64_octets(delivery_tag) + r1;
    assert(r0 + tail =~= t0);
    assert(encode_arguments(Arguments::BasicReject { delivery_tag, requeue }) == r0);
    lemma_u64_octets(delivery_tag, t1);
    lemma_u8_octet(pack_bits(requeue, false, false, false, false), t2);
    lemma_pack_bits(requeue, false, false, false, false);
}

proof fn lemma_basic_recover_async_round_trip(requeue: bool, tail: Seq<u8>)
    ensures
        spec_basic_recover_async(encode_arguments(Arguments::BasicRecoverAsync { requeue }) + tail)
            == Ok::<ArgumentsView, FrameDecodeErr>(Arguments::BasicRecoverAsync { requeue }),
{
    let t1 = tail;
    let t0 = seq![pack_bits(requeue, false, false, false, false)] + t1;
    let r0 = seq![pack_bits(requeue, false, false, false, false)];
    assert(encode_arguments(Arguments::BasicRecoverAsync { requeue }) == r0);
    lemma_u8_octet(pack_bits(requeue, false, false, false, false), t1);
    lemma_pack_bits(requeue, false, false, false, false);
}

proof fn lemma_basic_recover_round_trip(requeue: bool, tail: Seq<u8>)
    ensures
        spec_basic_recover(encode_arguments(Arguments::BasicRecover { requeue }) + tail)
            == Ok::<ArgumentsView, FrameDecodeErr>(Arguments::BasicRecover { requeue }),
{
    let t1 = tail;
    let t0 = seq![pack_bits(requeue, false, false, false, false)] + t1;
    let r0 = seq![pack_bits(requeue, false, false, false, false)];
    assert(encode_arguments(Arguments::BasicRecover { requeue }) == r0);
    lemma_u8_octet(pack_bits(requeue, false, false, false, false), t1);
    lemma_pack_bits(requeue, false, false, false, false);
}

proof fn lemma_basic_recover_ok_round_trip(tail: Seq<u8>)
    ensures
        spec_basic_recover_ok(encode_arguments(Arguments::BasicRecoverOk) + tail)
            == Ok::<ArgumentsView, FrameDecodeErr>(Arguments::BasicRecoverOk),
{
}

proof fn lemma_basic_nack_round_trip(
    delivery_tag: u64,
    multiple: bool,
    requeue: bool,
    tail: Seq<u8>,
)
    ensures
        spec_basic_nack(encode_arguments(Arguments::BasicNack { delivery_tag, multiple, requeue }) + tail)
            == Ok::<ArgumentsView, FrameDecodeErr>(Arguments::BasicNack { delivery_tag, multiple, requeue }),
{
    let t2 = tail;
    let t1 = seq![pack_bits(multiple, requeue, false, false, false)] + t2;
    let t0 = be64_octets(delivery_tag) + t1;
    let r1 = seq![pack_bits(multiple, requeue, false, false, false)];
    let r0 = be64_octets(delivery_tag) + r1;
    assert(r0 + tail =~= t0);
    assert(encode_arguments(Arguments::BasicNack { delivery_tag, multiple, requeue }) == r0);
    lemma_u64_octets(delivery_tag, t1);
    lemma_u8_octet(pack_bits(multiple, requeue, false, false, false), t2);
    lemma_pack_bits(multiple, requeue, false, false, false);
}

proof fn lemma_tx_select_round_trip(tail: Seq<u8>)
    ensures
        spec_tx_select(encode_arguments(Arguments::TxSelect) + tail)
            == Ok::<ArgumentsView, FrameDecodeErr>(Arguments::TxSelect),
{
}

proof fn lemma_tx_select_ok_round_trip(tail: Seq<u8>)
    ensures
        spec_tx_select_ok(encode_arguments(Arguments::TxSelectOk) + tail)
            == Ok::<ArgumentsView, FrameDecodeErr>(Arguments::TxSelectOk),
{
}

proof fn lemma_tx_commit_round_trip(tail: Seq<u8>)
    ensures
        spec_tx_commit(encode_arguments(Arguments::TxCommit) + tail)
            == Ok::<ArgumentsView, FrameDecodeErr>(Arguments::TxCommit),
{
}

proof fn lemma_tx_commit_ok_round_trip(tail: Seq<u8>)
    ensures
        spec_tx_commit_ok(encode_arguments(Arguments::TxCommitOk) + tail)
            == Ok::<ArgumentsView, FrameDecodeErr>(Arguments::TxCommitOk),
{
}

proof fn lemma_tx_rollback_round_trip(tail: Seq<u8>)
    ensures
        spec_tx_rollback(encode_arguments(Arguments::TxRollback) + tail)
            == Ok::<ArgumentsView, FrameDecodeErr>(Arguments::TxRollback),
{
}

proof fn lemma_tx_rollback_ok_round_trip(tail: Seq<u8>)
    ensures
        spec_tx_rollback_ok(encode_arguments(Arguments::TxRollbackOk) + tail)
            == Ok::<ArgumentsView, FrameDecodeErr>(Arguments::TxRollbackOk),
{
}

proof fn lemma_confirm_select_round_trip(no_wait: bool, tail: Seq<u8>)
    ensures
        spec_confirm_select(encode_arguments(Arguments::ConfirmSelect { no_wait }) + tail)
            == Ok::<ArgumentsView, FrameDecodeErr>(Arguments::ConfirmSelect { no_wait }),
{
    let t1 = tail;
    let t0 = seq![pack_bits(no_wait, false, false, false, false)] + t1;
    let r0 = seq![pack_bits(no_wait, false, false, false, false)];
    assert(encode_arguments(Arguments::ConfirmSelect { no_wait }) == r0);
    lemma_u8_octet(pack_bits(no_wait, false, false, false, false), t1);
    lemma_pack_bits(no_wait, false, false, false, false);
}

proof fn lemma_confirm_select_ok_round_trip(tail: Seq<u8>)
    ensures
        spec_confirm_select_ok(encode_arguments(Arguments::ConfirmSelectOk) + tail)
            == Ok::<ArgumentsView, FrameDecodeErr>(Arguments::ConfirmSelectOk),
{
}

/// Every argument grammar decodes the encoding of encodable arguments back
/// to exactly those arguments, whatever octets follow them.
pub proof fn lemma_arguments_round_trip(a: ArgumentsView, tail: Seq<u8>)
    requires
        arguments_encodable(a),
    ensures
        spec_arguments(method_of_arguments(a), encode_arguments(a) + tail) == Ok::<ArgumentsView, FrameDecodeErr>(a),
{
    match a {
        Arguments::ConnectionStart { version_major, version_minor, server_properties, mechanisms, locales } => lemma_connection_start_round_trip(version_major, version_minor, server_properties, mechanisms, locales, tail),
        Arguments::ConnectionStartOk { client_properties, mechanism, response, locale } => lemma_connection_start_ok_round_trip(client_properties, mechanism, response, locale, tail),
        Arguments::ConnectionSecure { challenge } => lemma_connection_secure_round_trip(challenge, tail),
        Arguments::ConnectionSecureOk { response } => lemma_connection_secure_ok_round_trip(response, tail),
        Arguments::ConnectionTune { channel_max, frame_max, heartbeat } => lemma_connection_tune_round_trip(channel_max, frame_max, heartbeat, tail),
        Arguments::ConnectionTuneOk { channel_max, frame_max, heartbeat } => lemma_connection_tune_ok_round_trip(channel_max, frame_max, heartbeat, tail),
        Arguments::ConnectionOpen { vhost, capabilities, insist } => lemma_connection_open_round_trip(vhost, capabilities, insist, tail),
        Arguments::ConnectionOpenOk { known_hosts } => lemma_connection_open_ok_round_trip(known_hosts, tail),
        Arguments::ConnectionClose { reply_code, reply_text, class_id, method_id } => lemma_connection_close_round_trip(reply_code, reply_text, class_id, method_id, tail),
        Arguments::ConnectionCloseOk => lemma_connection_close_ok_round_trip(tail),
        Arguments::ChannelOpen { out_of_band } => lemma_channel_open_round_trip(out_of_band, tail),
        Arguments::ChannelOpenOk { channel_id } => lemma_channel_open_ok_round_trip(channel_id, tail),
        Arguments::ChannelFlow { active } => lemma_channel_flow_round_trip(active, tail),
        Arguments::ChannelFlowOk { active } => lemma_channel_flow_ok_round_trip(active, tail),
        Arguments::ChannelClose { reply_code, reply_text, class_id, method_id } => lemma_channel_close_round_trip(reply_code, reply_text, class_id, method_id, tail),
        Arguments::ChannelCloseOk => lemma_channel_close_ok_round_trip(tail),
        Arguments::AccessRequest { realm, exclusive, passive, active, write, read } => lemma_access_request_round_trip(realm, exclusive, passive, active, write, read, tail),
        Arguments::AccessRequestOk { ticket } => lemma_access_request_ok_round_trip(ticket, tail),
        Arguments::ExchangeDeclare { ticket, exchange, exchange_type, passive, durable, auto_delete, internal, no_wait, arguments } => lemma_exchange_declare_round_trip(ticket, exchange, exchange_type, passive, durable, auto_delete, internal, no_wait, arguments, tail),
        Arguments::ExchangeDeclareOk => lemma_exchange_declare_ok_round_trip(tail),
        Arguments::ExchangeDelete { ticket, exchange, if_unused, no_wait } => lemma_exchange_delete_round_trip(ticket, exchange, if_unused, no_wait, tail),
        Arguments::ExchangeDeleteOk => lemma_exchange_delete_ok_round_trip(tail),
        Arguments::ExchangeBind { ticket, destination, source, routing_key, no_wait, arguments } => lemma_exchange_bind_round_trip(ticket, destination, source, routing_key, no_wait, arguments, tail),
        Arguments::ExchangeBindOk => lemma_exchange_bind_ok_round_trip(tail),
        Arguments::ExchangeUnbind { ticket, destination, source, routing_key, no_wait, arguments } => lemma_exchange_unbind_round_trip(ticket, destination, source, routing_key, no_wait, arguments, tail),
        Arguments::ExchangeUnbindOk => lemma_exchange_unbind_ok_round_trip(tail),
        Arguments::QueueDeclare { ticket, queue, passive, durable, exclusive, auto_delete, no_wait, arguments } => lemma_queue_declare_round_trip(ticket, queue, passive, durable, exclusive, auto_delete, no_wait, arguments, tail),
        Arguments::QueueDeclareOk { queue, message_count, consumer_count } => lemma_queue_declare_ok_round_trip(queue, message_count, consumer_count, tail),
        Arguments::QueueBind { ticket, queue, exchange, routing_key, no_wait, arguments } => lemma_queue_bind_round_trip(ticket, queue, exchange, routing_key, no_wait, arguments, tail),
        Arguments::QueueBindOk => lemma_queue_bind_ok_round_trip(tail),
        Arguments::QueueUnbind { ticket, queue, exchange, routing_key, arguments } => lemma_queue_unbind_round_trip(ticket, queue, exchange, routing_key, arguments, tail),
        Arguments::QueueUnbindOk => lemma_queue_unbind_ok_round_trip(tail),
        Arguments::QueuePurge { ticket, queue, no_wait } => lemma_queue_purge_round_trip(ticket, queue, no_wait, tail),
        Arguments::QueuePurgeOk { message_count } => lemma_queue_purge_ok_round_trip(message_count, tail),
        Arguments::QueueDelete { ticket, queue, if_unused, if_empty, no_wait } => lemma_queue_delete_round_trip(ticket, queue, if_unused, if_empty, no_wait, tail),
        Arguments::QueueDeleteOk { message_count } => lemma_queue_delete_ok_round_trip(message_count, tail),
        Arguments::BasicQos { prefetch_size, prefetch_count, global } => lemma_basic_qos_round_trip(prefetch_size, prefetch_count, global, tail),
        Arguments::BasicQosOk => lemma_basic_qos_ok_round_trip(tail),
        Arguments::BasicConsume { ticket, queue, consumer_tag, no_local, no_ack, exclusive, no_wait, arguments } => lemma_basic_consume_round_trip(ticket, queue, consumer_tag, no_local, no_ack, exclusive, no_wait, arguments, tail),
        Arguments::BasicConsumeOk { consumer_tag } => lemma_basic_consume_ok_round_trip(consumer_tag, tail),
        Arguments::BasicCancel { consumer_tag, no_wait } => lemma_basic_cancel_round_trip(consumer_tag, no_wait, tail),
        Arguments::BasicCancelOk { consumer_tag } => lemma_basic_cancel_ok_round_trip(consumer_tag, tail),
        Arguments::BasicPublish { ticket, exchange, routing_key, mandatory, immediate } => lemma_basic_publish_round_trip(ticket, exchange, routing_key, mandatory, immediate, tail),
        Arguments::BasicReturn { reply_code, reply_text, exchange, routing_key } => lemma_basic_return_round_trip(reply_code, reply_text, exchange, routing_key, tail),
        Arguments::BasicDeliver { consumer_tag, delivery_tag, redelivered, exchange, routing_key } => lemma_basic_delivery_round_trip(consumer_tag, delivery_tag, redelivered, exchange, routing_key, tail),
        Arguments::BasicGet { ticket, queue, no_ack } => lemma_basic_get_round_trip(ticket, queue, no_ack, tail),
        Arguments::BasicGetOk { delivery_tag, redelivered, exchange, routing_key, message_count } => lemma_basic_get_ok_round_trip(delivery_tag, redelivered, exchange, routing_key, message_count, tail),
        Arguments::BasicGetEmpty { cluster_id } => lemma_basic_get_empty_round_trip(cluster_id, tail),
        Arguments::BasicAck { delivery_tag, multiple } => lemma_basic_ack_round_trip(delivery_tag, multiple, tail),
        Arguments::BasicReject { delivery_tag, requeue } => lemma_basic_reject_round_trip(delivery_tag, requeue, tail),
        Arguments::BasicRecoverAsync { requeue } => lemma_basic_recover_async_round_trip(requeue, tail),
        Arguments::BasicRecover { requeue } => lemma_basic_recover_round_trip(requeue, tail),
        Arguments::BasicRecoverOk => lemma_basic_recover_ok_round_trip(tail),
        Arguments::BasicNack { delivery_tag, multiple, requeue } => lemma_basic_nack_round_trip(delivery_tag, multiple, requeue, tail),
        Arguments::TxSelect => lemma_tx_select_round_trip(tail),
        Arguments::TxSelectOk => lemma_tx_select_ok_round_trip(tail),
        Arguments::TxCommit => lemma_tx_commit_round_trip(tail),
        Arguments::TxCommitOk => lemma_tx_commit_ok_round_trip(tail),
        Arguments::TxRollback => lemma_tx_rollback_round_trip(tail),
        Arguments::TxRollbackOk => lemma_tx_rollback_ok_round_trip(tail),
        Arguments::ConfirmSelect { no_wait } => lemma_confirm_select_round_trip(no_wait, tail),
        Arguments::ConfirmSelectOk => lemma_confirm_select_ok_round_trip(tail),
    }
}

} // verus!
