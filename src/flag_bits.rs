//! Packed-bits octets: a method with `k` flags reads only the low `k` bits
//! of its flags octet.
use vstd::prelude::*;
use crate::method::{
    spec_arguments, Method, AccessMethod, BasicMethod, ConfirmMethod, ConnectionMethod,
    ExchangeMethod, QueueMethod,
};
use crate::util::{bit, spec_short_str, spec_u16, spec_u32, spec_u64};
use crate::connection::spec_connection_open;
use crate::access::spec_access_request;
use crate::exchange::{
    spec_exchange_declare, spec_exchange_delete, spec_exchange_bind, spec_exchange_unbind,
};
use crate::queue::{spec_queue_declare, spec_queue_bind, spec_queue_purge, spec_queue_delete};
use crate::basic::{
    spec_basic_qos, spec_basic_consume, spec_basic_cancel, spec_basic_publish, spec_basic_delivery,
    spec_basic_get, spec_basic_get_ok, spec_basic_ack, spec_basic_reject, spec_basic_recover_async,
    spec_basic_recover, spec_basic_nack,
};
use crate::confirm::spec_confirm_select;

verus! {

/// `x` and `y` agree on their low `k` bits.
pub open spec fn same_low_bits(x: u8, y: u8, k: u8) -> bool {
    x & (0xffu8 >> ((8 - k) as u8)) == y & (0xffu8 >> ((8 - k) as u8))
}

/// Octets that agree on their low `k` bits agree on flags `0..k`.
pub proof fn lemma_same_low_bits(x: u8, y: u8, k: u8, i: u8)
    requires
        1 <= k <= 8,
        i < k,
        same_low_bits(x, y, k),
    ensures
        bit(x, i) == bit(y, i),
{
    assert(x & (0xffu8 >> ((8 - k) as u8)) == y & (0xffu8 >> ((8 - k) as u8)) && i < k && 1 <= k <= 8
        ==> ((x >> i) & 1u8 == 1u8) == ((y >> i) & 1u8 == 1u8)) by (bit_vector);
}

proof fn lemma_u16_local(t: Seq<u8>, q: int, y: u8)
    requires
        2 <= q < t.len(),
    ensures
        spec_u16(t.update(q, y)) == Ok::<(Seq<u8>, u16), crate::error::FrameDecodeErr>((t.skip(2).update(q - 2, y), spec_u16(t)->Ok_0.1)),
{
    assert(t.update(q, y).skip(2) =~= t.skip(2).update(q - 2, y));
}

proof fn lemma_u32_local(t: Seq<u8>, q: int, y: u8)
    requires
        4 <= q < t.len(),
    ensures
        spec_u32(t.update(q, y)) == Ok::<(Seq<u8>, u32), crate::error::FrameDecodeErr>((t.skip(4).update(q - 4, y), spec_u32(t)->Ok_0.1)),
{
    assert(t.update(q, y).skip(4) =~= t.skip(4).update(q - 4, y));
}

proof fn lemma_u64_local(t: Seq<u8>, q: int, y: u8)
    requires
        8 <= q < t.len(),
    ensures
        spec_u64(t.update(q, y)) == Ok::<(Seq<u8>, u64), crate::error::FrameDecodeErr>((t.skip(8).update(q - 8, y), spec_u64(t)->Ok_0.1)),
{
    assert(t.update(q, y).skip(8) =~= t.skip(8).update(q - 8, y));
    assert(t.update(q, y).skip(4).take(4) =~= t.skip(4).take(4));
    assert(t.update(q, y).skip(4)[0] == t.skip(4)[0]);
    assert(t.update(q, y).skip(4)[1] == t.skip(4)[1]);
    assert(t.update(q, y).skip(4)[2] == t.skip(4)[2]);
    assert(t.update(q, y).skip(4)[3] == t.skip(4)[3]);
}

proof fn lemma_short_str_local(t: Seq<u8>, q: int, y: u8)
    requires
        spec_short_str(t) matches Ok((r, _)) && t.len() - r.len() <= q < t.len(),
    ensures
        spec_short_str(t) matches Ok((r, v)) && spec_short_str(t.update(q, y)) == Ok::<(Seq<u8>, Seq<u8>), crate::error::FrameDecodeErr>(
            (r.update(q - (t.len() - r.len()), y), v),
        ),
{
    let n = t[0] as int;
    assert(t.update(q, y).skip(1).take(n) =~= t.skip(1).take(n));
    assert(t.update(q, y).skip(1).skip(n) =~= t.skip(1).skip(n).update(q - 1 - n, y));
}

/// The number of packed flags that method `m` declares, zero if it has none.
pub open spec fn flag_count(m: Method) -> u8 {
    match m {
        Method::Connection(ConnectionMethod::Open) => 1,
        Method::Access(AccessMethod::Request) => 5,
        Method::Exchange(ExchangeMethod::Declare) => 5,
        Method::Exchange(ExchangeMethod::Delete) => 2,
        Method::Exchange(ExchangeMethod::Bind) => 1,
        Method::Exchange(ExchangeMethod::Unbind) => 1,
        Method::Queue(QueueMethod::Declare) => 5,
        Method::Queue(QueueMethod::Bind) => 1,
        Method::Queue(QueueMethod::Purge) => 1,
        Method::Queue(QueueMethod::Delete) => 3,
        Method::Basic(BasicMethod::Qos) => 1,
        Method::Basic(BasicMethod::Consume) => 4,
        Method::Basic(BasicMethod::Cancel) => 1,
        Method::Basic(BasicMethod::Publish) => 2,
        Method::Basic(BasicMethod::Deliver) => 1,
        Method::Basic(BasicMethod::Get) => 1,
        Method::Basic(BasicMethod::GetOk) => 1,
        Method::Basic(BasicMethod::Ack) => 1,
        Method::Basic(BasicMethod::Reject) => 1,
        Method::Basic(BasicMethod::RecoverAsync) => 1,
        Method::Basic(BasicMethod::Recover) => 1,
        Method::Basic(BasicMethod::Nack) => 2,
        Method::Confirm(ConfirmMethod::Select) => 1,
        _ => 0,
    }
}

/// Where the flags octet of method `m` stands in its argument octets `s0`:
/// after the fields that precede it, when those can be read.
pub open spec fn flags_position(m: Method, s0: Seq<u8>) -> Option<int> {
    match m {
        Method::Connection(ConnectionMethod::Open) =>
            match spec_short_str(s0) {
                Err(_) => None,
                Ok((s1, _)) =>
                    match spec_short_str(s1) {
                        Err(_) => None,
                        Ok((s2, _)) =>
                            Some(s0.len() - s2.len()),
                    },
            },
        Method::Access(AccessMethod::Request) =>
            match spec_short_str(s0) {
                Err(_) => None,
                Ok((s1, _)) =>
                    Some(s0.len() - s1.len()),
            },
        Method::Exchange(ExchangeMethod::Declare) =>
            match spec_u16(s0) {
                Err(_) => None,
                Ok((s1, _)) =>
                    match spec_short_str(s1) {
                        Err(_) => None,
                        Ok((s2, _)) =>
                            match spec_short_str(s2) {
                                Err(_) => None,
                                Ok((s3, _)) =>
                                    Some(s0.len() - s3.len()),
                            },
                    },
            },
        Method::Exchange(ExchangeMethod::Delete) =>
            match spec_u16(s0) {
                Err(_) => None,
                Ok((s1, _)) =>
                    match spec_short_str(s1) {
                        Err(_) => None,
                        Ok((s2, _)) =>
                            Some(s0.len() - s2.len()),
                    },
            },
        Method::Exchange(ExchangeMethod::Bind) =>
            match spec_u16(s0) {
                Err(_) => None,
                Ok((s1, _)) =>
                    match spec_short_str(s1) {
                        Err(_) => None,
                        Ok((s2, _)) =>
                            match spec_short_str(s2) {
                                Err(_) => None,
                                Ok((s3, _)) =>
                                    match spec_short_str(s3) {
                                        Err(_) => None,
                                        Ok((s4, _)) =>
                                            Some(s0.len() - s4.len()),
                                    },
                            },
                    },
            },
        Method::Exchange(ExchangeMethod::Unbind) =>
            match spec_u16(s0) {
                Err(_) => None,
                Ok((s1, _)) =>
                    match spec_short_str(s1) {
                        Err(_) => None,
                        Ok((s2, _)) =>
                            match spec_short_str(s2) {
                                Err(_) => None,
                                Ok((s3, _)) =>
                                    match spec_short_str(s3) {
                                        Err(_) => None,
                                        Ok((s4, _)) =>
                                            Some(s0.len() - s4.len()),
                                    },
                            },
                    },
            },
        Method::Queue(QueueMethod::Declare) =>
            match spec_u16(s0) {
                Err(_) => None,
                Ok((s1, _)) =>
                    match spec_short_str(s1) {
                        Err(_) => None,
                        Ok((s2, _)) =>
                            Some(s0.len() - s2.len()),
                    },
            },
        Method::Queue(QueueMethod::Bind) =>
            match spec_u16(s0) {
                Err(_) => None,
                Ok((s1, _)) =>
                    match spec_short_str(s1) {
                        Err(_) => None,
                        Ok((s2, _)) =>
                            match spec_short_str(s2) {
                                Err(_) => None,
                                Ok((s3, _)) =>
                                    match spec_short_str(s3) {
                                        Err(_) => None,
                                        Ok((s4, _)) =>
                                            Some(s0.len() - s4.len()),
                                    },
                            },
                    },
            },
        Method::Queue(QueueMethod::Purge) =>
            match spec_u16(s0) {
                Err(_) => None,
                Ok((s1, _)) =>
                    match spec_short_str(s1) {
                        Err(_) => None,
                        Ok((s2, _)) =>
                            Some(s0.len() - s2.len()),
                    },
            },
        Method::Queue(QueueMethod::Delete) =>
            match spec_u16(s0) {
                Err(_) => None,
                Ok((s1, _)) =>
                    match spec_short_str(s1) {
                        Err(_) => None,
                        Ok((s2, _)) =>
                            Some(s0.len() - s2.len()),
                    },
            },
        Method::Basic(BasicMethod::Qos) =>
            match spec_u32(s0) {
                Err(_) => None,
                Ok((s1, _)) =>
                    match spec_u16(s1) {
                        Err(_) => None,
                        Ok((s2, _)) =>
                            Some(s0.len() - s2.len()),
                    },
            },
        Method::Basic(BasicMethod::Consume) =>
            match spec_u16(s0) {
                Err(_) => None,
                Ok((s1, _)) =>
                    match spec_short_str(s1) {
                        Err(_) => None,
                        Ok((s2, _)) =>
                            match spec_short_str(s2) {
                                Err(_) => None,
                                Ok((s3, _)) =>
                                    Some(s0.len() - s3.len()),
                            },
                    },
            },
        Method::Basic(BasicMethod::Cancel) =>
            match spec_short_str(s0) {
                Err(_) => None,
                Ok((s1, _)) =>
                    Some(s0.len() - s1.len()),
            },
        Method::Basic(BasicMethod::Publish) =>
            match spec_u16(s0) {
                Err(_) => None,
                Ok((s1, _)) =>
                    match spec_short_str(s1) {
                        Err(_) => None,
                        Ok((s2, _)) =>
                            match spec_short_str(s2) {
                                Err(_) => None,
                                Ok((s3, _)) =>
                                    Some(s0.len() - s3.len()),
                            },
                    },
            },
        Method::Basic(BasicMethod::Deliver) =>
            match spec_short_str(s0) {
                Err(_) => None,
                Ok((s1, _)) =>
                    match spec_u64(s1) {
                        Err(_) => None,
                        Ok((s2, _)) =>
                            Some(s0.len() - s2.len()),
                    },
            },
        Method::Basic(BasicMethod::Get) =>
            match spec_u16(s0) {
                Err(_) => None,
                Ok((s1, _)) =>
                    match spec_short_str(s1) {
                        Err(_) => None,
                        Ok((s2, _)) =>
                            Some(s0.len() - s2.len()),
                    },
            },
        Method::Basic(BasicMethod::GetOk) =>
            match spec_u64(s0) {
                Err(_) => None,
                Ok((s1, _)) =>
                    Some(s0.len() - s1.len()),
            },
        Method::Basic(BasicMethod::Ack) =>
            match spec_u64(s0) {
                Err(_) => None,
                Ok((s1, _)) =>
                    Some(s0.len() - s1.len()),
            },
        Method::Basic(BasicMethod::Reject) =>
            match spec_u64(s0) {
                Err(_) => None,
                Ok((s1, _)) =>
                    Some(s0.len() - s1.len()),
            },
        Method::Basic(BasicMethod::RecoverAsync) =>
            Some(0),
        Method::Basic(BasicMethod::Recover) =>
            Some(0),
        Method::Basic(BasicMethod::Nack) =>
            match spec_u64(s0) {
                Err(_) => None,
                Ok((s1, _)) =>
                    Some(s0.len() - s1.len()),
            },
        Method::Confirm(ConfirmMethod::Select) =>
            Some(0),
        _ => None,
    }
}

proof fn lemma_flags_connection_open(s: Seq<u8>, y: u8)
    requires
        flags_position(Method::Connection(ConnectionMethod::Open), s) matches Some(p) && p < s.len() && same_low_bits(s[p], y, 1),
    ensures
        spec_connection_open(s.update(flags_position(Method::Connection(ConnectionMethod::Open), s)->Some_0, y)) == spec_connection_open(s),
{
    let p = flags_position(Method::Connection(ConnectionMethod::Open), s)->Some_0;
    let s0 = s;
    lemma_short_str_local(s0, p - (s0.len() - s0.len()), y);
    let s1 = spec_short_str(s0)->Ok_0.0;
    lemma_short_str_local(s1, p - (s0.len() - s1.len()), y);
    let s2 = spec_short_str(s1)->Ok_0.0;
    assert(s2.update(0, y).skip(1) =~= s2.skip(1));
    lemma_same_low_bits(s2[0], y, 1, 0);
}

proof fn lemma_flags_access_request(s: Seq<u8>, y: u8)
    requires
        flags_position(Method::Access(AccessMethod::Request), s) matches Some(p) && p < s.len() && same_low_bits(s[p], y, 5),
    ensures
        spec_access_request(s.update(flags_position(Method::Access(AccessMethod::Request), s)->Some_0, y)) == spec_access_request(s),
{
    let p = flags_position(Method::Access(AccessMethod::Request), s)->Some_0;
    let s0 = s;
    lemma_short_str_local(s0, p - (s0.len() - s0.len()), y);
    let s1 = spec_short_str(s0)->Ok_0.0;
    assert(s1.update(0, y).skip(1) =~= s1.skip(1));
    lemma_same_low_bits(s1[0], y, 5, 0);
    lemma_same_low_bits(s1[0], y, 5, 1);
    lemma_same_low_bits(s1[0], y, 5, 2);
    lemma_same_low_bits(s1[0], y, 5, 3);
    lemma_same_low_bits(s1[0], y, 5, 4);
}

proof fn lemma_flags_exchange_declare(s: Seq<u8>, y: u8)
    requires
        flags_position(Method::Exchange(ExchangeMethod::Declare), s) matches Some(p) && p < s.len() && same_low_bits(s[p], y, 5),
    ensures
        spec_exchange_declare(s.update(flags_position(Method::Exchange(ExchangeMethod::Declare), s)->Some_0, y)) == spec_exchange_declare(s),
{
    let p = flags_position(Method::Exchange(ExchangeMethod::Declare), s)->Some_0;
    let s0 = s;
    lemma_u16_local(s0, p - (s0.len() - s0.len()), y);
    let s1 = spec_u16(s0)->Ok_0.0;
    lemma_short_str_local(s1, p - (s0.len() - s1.len()), y);
    let s2 = spec_short_str(s1)->Ok_0.0;
    lemma_short_str_local(s2, p - (s0.len() - s2.len()), y);
    let s3 = spec_short_str(s2)->Ok_0.0;
    assert(s3.update(0, y).skip(1) =~= s3.skip(1));
    lemma_same_low_bits(s3[0], y, 5, 0);
    lemma_same_low_bits(s3[0], y, 5, 1);
    lemma_same_low_bits(s3[0], y, 5, 2);
    lemma_same_low_bits(s3[0], y, 5, 3);
    lemma_same_low_bits(s3[0], y, 5, 4);
}

proof fn lemma_flags_exchange_delete(s: Seq<u8>, y: u8)
    requires
        flags_position(Method::Exchange(ExchangeMethod::Delete), s) matches Some(p) && p < s.len() && same_low_bits(s[p], y, 2),
    ensures
        spec_exchange_delete(s.update(flags_position(Method::Exchange(ExchangeMethod::Delete), s)->Some_0, y)) == spec_exchange_delete(s),
{
    let p = flags_position(Method::Exchange(ExchangeMethod::Delete), s)->Some_0;
    let s0 = s;
    lemma_u16_local(s0, p - (s0.len() - s0.len()), y);
    let s1 = spec_u16(s0)->Ok_0.0;
    lemma_short_str_local(s1, p - (s0.len() - s1.len()), y);
    let s2 = spec_short_str(s1)->Ok_0.0;
    assert(s2.update(0, y).skip(1) =~= s2.skip(1));
    lemma_same_low_bits(s2[0], y, 2, 0);
    lemma_same_low_bits(s2[0], y, 2, 1);
}

proof fn lemma_flags_exchange_bind(s: Seq<u8>, y: u8)
    requires
        flags_position(Method::Exchange(ExchangeMethod::Bind), s) matches Some(p) && p < s.len() && same_low_bits(s[p], y, 1),
    ensures
        spec_exchange_bind(s.update(flags_position(Method::Exchange(ExchangeMethod::Bind), s)->Some_0, y)) == spec_exchange_bind(s),
{
    let p = flags_position(Method::Exchange(ExchangeMethod::Bind), s)->Some_0;
    let s0 = s;
    lemma_u16_local(s0, p - (s0.len() - s0.len()), y);
    let s1 = spec_u16(s0)->Ok_0.0;
    lemma_short_str_local(s1, p - (s0.len() - s1.len()), y);
    let s2 = spec_short_str(s1)->Ok_0.0;
    lemma_short_str_local(s2, p - (s0.len() - s2.len()), y);
    let s3 = spec_short_str(s2)->Ok_0.0;
    lemma_short_str_local(s3, p - (s0.len() - s3.len()), y);
    let s4 = spec_short_str(s3)->Ok_0.0;
    assert(s4.update(0, y).skip(1) =~= s4.skip(1));
    lemma_same_low_bits(s4[0], y, 1, 0);
}

proof fn lemma_flags_exchange_unbind(s: Seq<u8>, y: u8)
    requires
        flags_position(Method::Exchange(ExchangeMethod::Unbind), s) matches Some(p) && p < s.len() && same_low_bits(s[p], y, 1),
    ensures
        spec_exchange_unbind(s.update(flags_position(Method::Exchange(ExchangeMethod::Unbind), s)->Some_0, y)) == spec_exchange_unbind(s),
{
    let p = flags_position(Method::Exchange(ExchangeMethod::Unbind), s)->Some_0;
    let s0 = s;
    lemma_u16_local(s0, p - (s0.len() - s0.len()), y);
    let s1 = spec_u16(s0)->Ok_0.0;
    lemma_short_str_local(s1, p - (s0.len() - s1.len()), y);
    let s2 = spec_short_str(s1)->Ok_0.0;
    lemma_short_str_local(s2, p - (s0.len() - s2.len()), y);
    let s3 = spec_short_str(s2)->Ok_0.0;
    lemma_short_str_local(s3, p - (s0.len() - s3.len()), y);
    let s4 = spec_short_str(s3)->Ok_0.0;
    assert(s4.update(0, y).skip(1) =~= s4.skip(1));
    lemma_same_low_bits(s4[0], y, 1, 0);
}

proof fn lemma_flags_queue_declare(s: Seq<u8>, y: u8)
    requires
        flags_position(Method::Queue(QueueMethod::Declare), s) matches Some(p) && p < s.len() && same_low_bits(s[p], y, 5),
    ensures
        spec_queue_declare(s.update(flags_position(Method::Queue(QueueMethod::Declare), s)->Some_0, y)) == spec_queue_declare(s),
{
    let p = flags_position(Method::Queue(QueueMethod::Declare), s)->Some_0;
    let s0 = s;
    lemma_u16_local(s0, p - (s0.len() - s0.len()), y);
    let s1 = spec_u16(s0)->Ok_0.0;
    lemma_short_str_local(s1, p - (s0.len() - s1.len()), y);
    let s2 = spec_short_str(s1)->Ok_0.0;
    assert(s2.update(0, y).skip(1) =~= s2.skip(1));
    lemma_same_low_bits(s2[0], y, 5, 0);
    lemma_same_low_bits(s2[0], y, 5, 1);
    lemma_same_low_bits(s2[0], y, 5, 2);
    lemma_same_low_bits(s2[0], y, 5, 3);
    lemma_same_low_bits(s2[0], y, 5, 4);
}

proof fn lemma_flags_queue_bind(s: Seq<u8>, y: u8)
    requires
        flags_position(Method::Queue(QueueMethod::Bind), s) matches Some(p) && p < s.len() && same_low_bits(s[p], y, 1),
    ensures
        spec_queue_bind(s.update(flags_position(Method::Queue(QueueMethod::Bind), s)->Some_0, y)) == spec_queue_bind(s),
{
    let p = flags_position(Method::Queue(QueueMethod::Bind), s)->Some_0;
    let s0 = s;
    lemma_u16_local(s0, p - (s0.len() - s0.len()), y);
    let s1 = spec_u16(s0)->Ok_0.0;
    lemma_short_str_local(s1, p - (s0.len() - s1.len()), y);
    let s2 = spec_short_str(s1)->Ok_0.0;
    lemma_short_str_local(s2, p - (s0.len() - s2.len()), y);
    let s3 = spec_short_str(s2)->Ok_0.0;
    lemma_short_str_local(s3, p - (s0.len() - s3.len()), y);
    let s4 = spec_short_str(s3)->Ok_0.0;
    assert(s4.update(0, y).skip(1) =~= s4.skip(1));
    lemma_same_low_bits(s4[0], y, 1, 0);
}

proof fn lemma_flags_queue_purge(s: Seq<u8>, y: u8)
    requires
        flags_position(Method::Queue(QueueMethod::Purge), s) matches Some(p) && p < s.len() && same_low_bits(s[p], y, 1),
    ensures
        spec_queue_purge(s.update(flags_position(Method::Queue(QueueMethod::Purge), s)->Some_0, y)) == spec_queue_purge(s),
{
    let p = flags_position(Method::Queue(QueueMethod::Purge), s)->Some_0;
    let s0 = s;
    lemma_u16_local(s0, p - (s0.len() - s0.len()), y);
    let s1 = spec_u16(s0)->Ok_0.0;
    lemma_short_str_local(s1, p - (s0.len() - s1.len()), y);
    let s2 = spec_short_str(s1)->Ok_0.0;
    assert(s2.update(0, y).skip(1) =~= s2.skip(1));
    lemma_same_low_bits(s2[0], y, 1, 0);
}

proof fn lemma_flags_queue_delete(s: Seq<u8>, y: u8)
    requires
        flags_position(Method::Queue(QueueMethod::Delete), s) matches Some(p) && p < s.len() && same_low_bits(s[p], y, 3),
    ensures
        spec_queue_delete(s.update(flags_position(Method::Queue(QueueMethod::Delete), s)->Some_0, y)) == spec_queue_delete(s),
{
    let p = flags_position(Method::Queue(QueueMethod::Delete), s)->Some_0;
    let s0 = s;
    lemma_u16_local(s0, p - (s0.len() - s0.len()), y);
    let s1 = spec_u16(s0)->Ok_0.0;
    lemma_short_str_local(s1, p - (s0.len() - s1.len()), y);
    let s2 = spec_short_str(s1)->Ok_0.0;
    assert(s2.update(0, y).skip(1) =~= s2.skip(1));
    lemma_same_low_bits(s2[0], y, 3, 0);
    lemma_same_low_bits(s2[0], y, 3, 1);
    lemma_same_low_bits(s2[0], y, 3, 2);
}

proof fn lemma_flags_basic_qos(s: Seq<u8>, y: u8)
    requires
        flags_position(Method::Basic(BasicMethod::Qos), s) matches Some(p) && p < s.len() && same_low_bits(s[p], y, 1),
    ensures
        spec_basic_qos(s.update(flags_position(Method::Basic(BasicMethod::Qos), s)->Some_0, y)) == spec_basic_qos(s),
{
    let p = flags_position(Method::Basic(BasicMethod::Qos), s)->Some_0;
    let s0 = s;
    lemma_u32_local(s0, p - (s0.len() - s0.len()), y);
    let s1 = spec_u32(s0)->Ok_0.0;
    lemma_u16_local(s1, p - (s0.len() - s1.len()), y);
    let s2 = spec_u16(s1)->Ok_0.0;
    assert(s2.update(0, y).skip(1) =~= s2.skip(1));
    lemma_same_low_bits(s2[0], y, 1, 0);
}

proof fn lemma_flags_basic_consume(s: Seq<u8>, y: u8)
    requires
        flags_position(Method::Basic(BasicMethod::Consume), s) matches Some(p) && p < s.len() && same_low_bits(s[p], y, 4),
    ensures
        spec_basic_consume(s.update(flags_position(Method::Basic(BasicMethod::Consume), s)->Some_0, y)) == spec_basic_consume(s),
{
    let p = flags_position(Method::Basic(BasicMethod::Consume), s)->Some_0;
    let s0 = s;
    lemma_u16_local(s0, p - (s0.len() - s0.len()), y);
    let s1 = spec_u16(s0)->Ok_0.0;
    lemma_short_str_local(s1, p - (s0.len() - s1.len()), y);
    let s2 = spec_short_str(s1)->Ok_0.0;
    lemma_short_str_local(s2, p - (s0.len() - s2.len()), y);
    let s3 = spec_short_str(s2)->Ok_0.0;
    assert(s3.update(0, y).skip(1) =~= s3.skip(1));
    lemma_same_low_bits(s3[0], y, 4, 0);
    lemma_same_low_bits(s3[0], y, 4, 1);
    lemma_same_low_bits(s3[0], y, 4, 2);
    lemma_same_low_bits(s3[0], y, 4, 3);
}

proof fn lemma_flags_basic_cancel(s: Seq<u8>, y: u8)
    requires
        flags_position(Method::Basic(BasicMethod::Cancel), s) matches Some(p) && p < s.len() && same_low_bits(s[p], y, 1),
    ensures
        spec_basic_cancel(s.update(flags_position(Method::Basic(BasicMethod::Cancel), s)->Some_0, y)) == spec_basic_cancel(s),
{
    let p = flags_position(Method::Basic(BasicMethod::Cancel), s)->Some_0;
    let s0 = s;
    lemma_short_str_local(s0, p - (s0.len() - s0.len()), y);
    let s1 = spec_short_str(s0)->Ok_0.0;
    assert(s1.update(0, y).skip(1) =~= s1.skip(1));
    lemma_same_low_bits(s1[0], y, 1, 0);
}

proof fn lemma_flags_basic_publish(s: Seq<u8>, y: u8)
    requires
        flags_position(Method::Basic(BasicMethod::Publish), s) matches Some(p) && p < s.len() && same_low_bits(s[p], y, 2),
    ensures
        spec_basic_publish(s.update(flags_position(Method::Basic(BasicMethod::Publish), s)->Some_0, y)) == spec_basic_publish(s),
{
    let p = flags_position(Method::Basic(BasicMethod::Publish), s)->Some_0;
    let s0 = s;
    lemma_u16_local(s0, p - (s0.len() - s0.len()), y);
    let s1 = spec_u16(s0)->Ok_0.0;
    lemma_short_str_local(s1, p - (s0.len() - s1.len()), y);
    let s2 = spec_short_str(s1)->Ok_0.0;
    lemma_short_str_local(s2, p - (s0.len() - s2.len()), y);
    let s3 = spec_short_str(s2)->Ok_0.0;
    assert(s3.update(0, y).skip(1) =~= s3.skip(1));
    lemma_same_low_bits(s3[0], y, 2, 0);
    lemma_same_low_bits(s3[0], y, 2, 1);
}

proof fn lemma_flags_basic_delivery(s: Seq<u8>, y: u8)
    requires
        flags_position(Method::Basic(BasicMethod::Deliver), s) matches Some(p) && p < s.len() && same_low_bits(s[p], y, 1),
    ensures
        spec_basic_delivery(s.update(flags_position(Method::Basic(BasicMethod::Deliver), s)->Some_0, y)) == spec_basic_delivery(s),
{
    let p = flags_position(Method::Basic(BasicMethod::Deliver), s)->Some_0;
    let s0 = s;
    lemma_short_str_local(s0, p - (s0.len() - s0.len()), y);
    let s1 = spec_short_str(s0)->Ok_0.0;
    lemma_u64_local(s1, p - (s0.len() - s1.len()), y);
    let s2 = spec_u64(s1)->Ok_0.0;
    assert(s2.update(0, y).skip(1) =~= s2.skip(1));
    lemma_same_low_bits(s2[0], y, 1, 0);
}

proof fn lemma_flags_basic_get(s: Seq<u8>, y: u8)
    requires
        flags_position(Method::Basic(BasicMethod::Get), s) matches Some(p) && p < s.len() && same_low_bits(s[p], y, 1),
    ensures
        spec_basic_get(s.update(flags_position(Method::Basic(BasicMethod::Get), s)->Some_0, y)) == spec_basic_get(s),
{
    let p = flags_position(Method::Basic(BasicMethod::Get), s)->Some_0;
    let s0 = s;
    lemma_u16_local(s0, p - (s0.len() - s0.len()), y);
    let s1 = spec_u16(s0)->Ok_0.0;
    lemma_short_str_local(s1, p - (s0.len() - s1.len()), y);
    let s2 = spec_short_str(s1)->Ok_0.0;
    assert(s2.update(0, y).skip(1) =~= s2.skip(1));
    lemma_same_low_bits(s2[0], y, 1, 0);
}

proof fn lemma_flags_basic_get_ok(s: Seq<u8>, y: u8)
    requires
        flags_position(Method::Basic(BasicMethod::GetOk), s) matches Some(p) && p < s.len() && same_low_bits(s[p], y, 1),
    ensures
        spec_basic_get_ok(s.update(flags_position(Method::Basic(BasicMethod::GetOk), s)->Some_0, y)) == spec_basic_get_ok(s),
{
    let p = flags_position(Method::Basic(BasicMethod::GetOk), s)->Some_0;
    let s0 = s;
    lemma_u64_local(s0, p - (s0.len() - s0.len()), y);
    let s1 = spec_u64(s0)->Ok_0.0;
    assert(s1.update(0, y).skip(1) =~= s1.skip(1));
    lemma_same_low_bits(s1[0], y, 1, 0);
}

proof fn lemma_flags_basic_ack(s: Seq<u8>, y: u8)
    requires
        flags_position(Method::Basic(BasicMethod::Ack), s) matches Some(p) && p < s.len() && same_low_bits(s[p], y, 1),
    ensures
        spec_basic_ack(s.update(flags_position(Method::Basic(BasicMethod::Ack), s)->Some_0, y)) == spec_basic_ack(s),
{
    let p = flags_position(Method::Basic(BasicMethod::Ack), s)->Some_0;
    let s0 = s;
    lemma_u64_local(s0, p - (s0.len() - s0.len()), y);
    let s1 = spec_u64(s0)->Ok_0.0;
    assert(s1.update(0, y).skip(1) =~= s1.skip(1));
    lemma_same_low_bits(s1[0], y, 1, 0);
}

proof fn lemma_flags_basic_reject(s: Seq<u8>, y: u8)
    requires
        flags_position(Method::Basic(BasicMethod::Reject), s) matches Some(p) && p < s.len() && same_low_bits(s[p], y, 1),
    ensures
        spec_basic_reject(s.update(flags_position(Method::Basic(BasicMethod::Reject), s)->Some_0, y)) == spec_basic_reject(s),
{
    let p = flags_position(Method::Basic(BasicMethod::Reject), s)->Some_0;
    let s0 = s;
    lemma_u64_local(s0, p - (s0.len() - s0.len()), y);
    let s1 = spec_u64(s0)->Ok_0.0;
    assert(s1.update(0, y).skip(1) =~= s1.skip(1));
    lemma_same_low_bits(s1[0], y, 1, 0);
}

proof fn lemma_flags_basic_recover_async(s: Seq<u8>, y: u8)
    requires
        flags_position(Method::Basic(BasicMethod::RecoverAsync), s) matches Some(p) && p < s.len() && same_low_bits(s[p], y, 1),
    ensures
        spec_basic_recover_async(s.update(flags_position(Method::Basic(BasicMethod::RecoverAsync), s)->Some_0, y)) == spec_basic_recover_async(s),
{
    let p = flags_position(Method::Basic(BasicMethod::RecoverAsync), s)->Some_0;
    let s0 = s;
    assert(s0.update(0, y).skip(1) =~= s0.skip(1));
    lemma_same_low_bits(s0[0], y, 1, 0);
}

proof fn lemma_flags_basic_recover(s: Seq<u8>, y: u8)
    requires
        flags_position(Method::Basic(BasicMethod::Recover), s) matches Some(p) && p < s.len() && same_low_bits(s[p], y, 1),
    ensures
        spec_basic_recover(s.update(flags_position(Method::Basic(BasicMethod::Recover), s)->Some_0, y)) == spec_basic_recover(s),
{
    let p = flags_position(Method::Basic(BasicMethod::Recover), s)->Some_0;
    let s0 = s;
    assert(s0.update(0, y).skip(1) =~= s0.skip(1));
    lemma_same_low_bits(s0[0], y, 1, 0);
}

proof fn lemma_flags_basic_nack(s: Seq<u8>, y: u8)
    requires
        flags_position(Method::Basic(BasicMethod::Nack), s) matches Some(p) && p < s.len() && same_low_bits(s[p], y, 2),
    ensures
        spec_basic_nack(s.update(flags_position(Method::Basic(BasicMethod::Nack), s)->Some_0, y)) == spec_basic_nack(s),
{
    let p = flags_position(Method::Basic(BasicMethod::Nack), s)->Some_0;
    let s0 = s;
    lemma_u64_local(s0, p - (s0.len() - s0.len()), y);
    let s1 = spec_u64(s0)->Ok_0.0;
    assert(s1.update(0, y).skip(1) =~= s1.skip(1));
    lemma_same_low_bits(s1[0], y, 2, 0);
    lemma_same_low_bits(s1[0], y, 2, 1);
}

proof fn lemma_flags_confirm_select(s: Seq<u8>, y: u8)
    requires
        flags_position(Method::Confirm(ConfirmMethod::Select), s) matches Some(p) && p < s.len() && same_low_bits(s[p], y, 1),
    ensures
        spec_confirm_select(s.update(flags_position(Method::Confirm(ConfirmMethod::Select), s)->Some_0, y)) == spec_confirm_select(s),
{
    let p = flags_position(Method::Confirm(ConfirmMethod::Select), s)->Some_0;
    let s0 = s;
    assert(s0.update(0, y).skip(1) =~= s0.skip(1));
    lemma_same_low_bits(s0[0], y, 1, 0);
}

/// A method with `k` packed flags decodes alike whatever the high `8 - k`
/// bits of its flags octet hold: changing the flags octet at its position to
/// any octet with the same low `k` bits leaves the decoded arguments unchanged.
pub proof fn lemma_unused_flag_bits_ignored(m: Method, s: Seq<u8>, y: u8)
    requires
        flags_position(m, s) matches Some(p) && p < s.len() && same_low_bits(s[p], y, flag_count(m)),
    ensures
        spec_arguments(m, s.update(flags_position(m, s)->Some_0, y)) == spec_arguments(m, s),
{
    match m {
        Method::Connection(ConnectionMethod::Open) => lemma_flags_connection_open(s, y),
        Method::Access(AccessMethod::Request) => lemma_flags_access_request(s, y),
        Method::Exchange(ExchangeMethod::Declare) => lemma_flags_exchange_declare(s, y),
        Method::Exchange(ExchangeMethod::Delete) => lemma_flags_exchange_delete(s, y),
        Method::Exchange(ExchangeMethod::Bind) => lemma_flags_exchange_bind(s, y),
        Method::Exchange(ExchangeMethod::Unbind) => lemma_flags_exchange_unbind(s, y),
        Method::Queue(QueueMethod::Declare) => lemma_flags_queue_declare(s, y),
        Method::Queue(QueueMethod::Bind) => lemma_flags_queue_bind(s, y),
        Method::Queue(QueueMethod::Purge) => lemma_flags_queue_purge(s, y),
        Method::Queue(QueueMethod::Delete) => lemma_flags_queue_delete(s, y),
        Method::Basic(BasicMethod::Qos) => lemma_flags_basic_qos(s, y),
        Method::Basic(BasicMethod::Consume) => lemma_flags_basic_consume(s, y),
        Method::Basic(BasicMethod::Cancel) => lemma_flags_basic_cancel(s, y),
        Method::Basic(BasicMethod::Publish) => lemma_flags_basic_publish(s, y),
        Method::Basic(BasicMethod::Deliver) => lemma_flags_basic_delivery(s, y),
        Method::Basic(BasicMethod::Get) => lemma_flags_basic_get(s, y),
        Method::Basic(BasicMethod::GetOk) => lemma_flags_basic_get_ok(s, y),
        Method::Basic(BasicMethod::Ack) => lemma_flags_basic_ack(s, y),
        Method::Basic(BasicMethod::Reject) => lemma_flags_basic_reject(s, y),
        Method::Basic(BasicMethod::RecoverAsync) => lemma_flags_basic_recover_async(s, y),
        Method::Basic(BasicMethod::Recover) => lemma_flags_basic_recover(s, y),
        Method::Basic(BasicMethod::Nack) => lemma_flags_basic_nack(s, y),
        Method::Confirm(ConfirmMethod::Select) => lemma_flags_confirm_select(s, y),
        _ => {},
    }
}

} // verus!
