//! The exchange as a sequence of physical operations, and the laws it obeys.
use vstd::prelude::*;

verus! {

/// One physical operation on the chip-select line or on the bus, with its
/// outcome. Errors are recorded in the exchange's own error type.
pub enum BusEvent<E> {
    /// The chip-select line was driven low.
    Select(Result<(), E>),
    /// The bytes were written to the bus, ignoring what came back.
    Write(Seq<u8>, Result<(), E>),
    /// A full-duplex transfer in place: the bytes clocked out, then the bytes
    /// the buffer held afterwards.
    Transfer(Seq<u8>, Seq<u8>, Result<(), E>),
    /// The chip-select line was driven high.
    Deselect(Result<(), E>),
}

impl<E> BusEvent<E> {
    /// What the operation returned.
    pub open spec fn outcome(self) -> Result<(), E> {
        match self {
            BusEvent::Select(r) => r,
            BusEvent::Write(_, r) => r,
            BusEvent::Transfer(_, _, r) => r,
            BusEvent::Deselect(r) => r,
        }
    }

    /// The operation went over the bus (a write or a transfer).
    pub open spec fn is_bus_op(self) -> bool {
        self is Write || self is Transfer
    }
}

/// The events appended to a log that grew from `before` to `after`.
pub open spec fn events_since<E>(before: Seq<BusEvent<E>>, after: Seq<BusEvent<E>>) -> Seq<
    BusEvent<E>,
> {
    after.skip(before.len() as int)
}

/// `ops` is one exchange that writes `payload` and then clocks `filler` out
/// while capturing the response:
/// select; if that worked, write; if that worked, transfer; and deselect
/// whenever the select worked.
pub open spec fn is_exchange<E>(payload: Seq<u8>, filler: Seq<u8>, ops: Seq<BusEvent<E>>) -> bool {
    &&& ops.len() >= 1
    &&& ops[0] is Select
    &&& if ops[0].outcome() is Err {
        ops.len() == 1
    } else {
        &&& ops.len() >= 3
        &&& ops[1] == BusEvent::Write(payload, ops[1].outcome())
        &&& if ops[1].outcome() is Err {
            &&& ops.len() == 3
            &&& ops[2] is Deselect
        } else {
            &&& ops.len() == 4
            &&& ops[2] == BusEvent::Transfer(filler, received(ops), ops[2].outcome())
            &&& ops[3] is Deselect
        }
    }
}

/// The bytes the transfer of an exchange left in the buffer.
pub open spec fn received<E>(ops: Seq<BusEvent<E>>) -> Seq<u8> {
    ops[2]->Transfer_1
}

/// The words an exchange hands the bus: none when selecting failed, the
/// payload alone when writing it failed, else the payload and the filler.
pub open spec fn exchange_sent<E>(payload: Seq<u8>, filler: Seq<u8>, ops: Seq<BusEvent<E>>) -> Seq<
    Seq<u8>,
> {
    if ops[0].outcome() is Err {
        seq![]
    } else if ops[1].outcome() is Err {
        seq![payload]
    } else {
        seq![payload, filler]
    }
}

/// The levels an exchange drives the chip-select line to (`true` for high):
/// low, then high whenever selecting worked.
pub open spec fn exchange_levels<E>(ops: Seq<BusEvent<E>>) -> Seq<bool> {
    if ops[0].outcome() is Ok {
        seq![false, true]
    } else {
        seq![false]
    }
}

/// Every failure in `ops` is reported by the layer that failed: `bus` holds
/// of the errors of writes and transfers, `pin` of those of the chip-select
/// line.
pub open spec fn blames_layer<E>(
    ops: Seq<BusEvent<E>>,
    bus: spec_fn(E) -> bool,
    pin: spec_fn(E) -> bool,
) -> bool {
    forall|i: int|
        0 <= i < ops.len() && (#[trigger] ops[i]).outcome() is Err ==> if ops[i].is_bus_op() {
            bus(ops[i].outcome()->Err_0)
        } else {
            pin(ops[i].outcome()->Err_0)
        }
}

/// The outcome of the first operation in `ops` that failed, or success when
/// none did: the first error detected wins.
pub open spec fn first_failure<E>(ops: Seq<BusEvent<E>>) -> Result<(), E>
    decreases ops.len(),
{
    if ops.len() == 0 {
        Ok(())
    } else if ops[0].outcome() is Err {
        ops[0].outcome()
    } else {
        first_failure(ops.drop_first())
    }
}

/// A successful exchange performed exactly select, write of the payload,
/// transfer of the buffer and deselect, in that order, each succeeding.
pub proof fn lemma_success_order<E>(payload: Seq<u8>, filler: Seq<u8>, ops: Seq<BusEvent<E>>)
    requires
        is_exchange(payload, filler, ops),
        first_failure(ops) is Ok,
    ensures
        ops == seq![
            BusEvent::<E>::Select(Ok(())),
            BusEvent::Write(payload, Ok(())),
            BusEvent::Transfer(filler, received(ops), Ok(())),
            BusEvent::Deselect(Ok(())),
        ],
{
    reveal_with_fuel(first_failure, 5);
    let rest1 = ops.drop_first();
    let rest2 = rest1.drop_first();
    assert(rest1[0] == ops[1] && rest2[0] == ops[2] && rest2.drop_first()[0] == ops[3]);
    lemma_unit_ok(ops[0].outcome());
    lemma_unit_ok(ops[1].outcome());
    lemma_unit_ok(ops[2].outcome());
    lemma_unit_ok(ops[3].outcome());
    assert(ops =~= seq![ops[0], ops[1], ops[2], ops[3]]);
}

/// When the write or the transfer of an exchange fails, the chip is still
/// deselected afterwards, exactly once, as the last operation.
pub proof fn lemma_deselect_after_bus_failure<E>(
    payload: Seq<u8>,
    filler: Seq<u8>,
    ops: Seq<BusEvent<E>>,
    i: int,
)
    requires
        is_exchange(payload, filler, ops),
        0 <= i < ops.len(),
        ops[i].is_bus_op(),
        ops[i].outcome() is Err,
    ensures
        i < ops.len() - 1,
        ops.last() is Deselect,
        forall|j: int| 0 <= j < ops.len() - 1 ==> !(#[trigger] ops[j] is Deselect),
{
}

/// When selecting the chip fails, that is the whole exchange: no write, no
/// transfer and no deselect follow, and the pin's error is returned.
pub proof fn lemma_select_failure_alone<E>(payload: Seq<u8>, filler: Seq<u8>, ops: Seq<BusEvent<E>>)
    requires
        is_exchange(payload, filler, ops),
        ops[0].outcome() is Err,
    ensures
        ops == seq![ops[0]],
        first_failure(ops) == ops[0].outcome(),
{
    assert(ops =~= seq![ops[0]]);
}

/// The error of a failed write or transfer is the error of the exchange,
/// whatever deselecting the chip did afterwards: in particular, when both
/// the transfer and the deselect fail, the transfer's error is returned, and
/// where every failure blames its layer, it is a bus error.
pub proof fn lemma_bus_error_precedence<E>(
    payload: Seq<u8>,
    filler: Seq<u8>,
    ops: Seq<BusEvent<E>>,
    i: int,
    bus: spec_fn(E) -> bool,
    pin: spec_fn(E) -> bool,
)
    requires
        is_exchange(payload, filler, ops),
        0 <= i < ops.len(),
        ops[i].is_bus_op(),
        ops[i].outcome() is Err,
    ensures
        first_failure(ops) == ops[i].outcome(),
        blames_layer(ops, bus, pin) ==> bus(first_failure(ops)->Err_0),
{
    reveal_with_fuel(first_failure, 4);
    let rest1 = ops.drop_first();
    let rest2 = rest1.drop_first();
    assert(rest1[0] == ops[1] && rest2[0] == ops[2]);
}

/// Two successive exchanges on one log, from `log0` to `log1` and from
/// `log1` to `log2`, against a device that behaved the same both times (the
/// same operations with the same outcomes), return the same result and the
/// same bytes; between them the chip was deselected, unless selecting it had
/// failed.
pub proof fn lemma_repeat_agrees<E>(
    payload: Seq<u8>,
    filler: Seq<u8>,
    log0: Seq<BusEvent<E>>,
    log1: Seq<BusEvent<E>>,
    log2: Seq<BusEvent<E>>,
)
    requires
        log0.is_prefix_of(log1),
        log1.is_prefix_of(log2),
        is_exchange(payload, filler, events_since(log0, log1)),
        is_exchange(payload, filler, events_since(log1, log2)),
        events_since(log0, log1) == events_since(log1, log2),
    ensures
        first_failure(events_since(log0, log1)) == first_failure(events_since(log1, log2)),
        received(events_since(log0, log1)) == received(events_since(log1, log2)),
        log1.last() is Deselect || events_since(log0, log1)[0].outcome() is Err,
{
    let ops = events_since(log0, log1);
    assert(log1.last() == ops.last());
}

proof fn lemma_unit_ok<E>(r: Result<(), E>)
    requires
        r is Ok,
    ensures
        r == Ok::<(), E>(()),
{
    match r {
        Ok(u) => assert(u == ()),
        Err(_) => {},
    }
}

} // verus!
