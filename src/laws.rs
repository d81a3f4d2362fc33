//! Properties of the driver that relate several operations or whole runs of
//! the one-shot acquisition.
use vstd::prelude::*;
use embedded_hal::i2c::ErrorKind;
use crate::bus::{Transfer, issued};
use crate::device::{Ads1119Err, sample_of};
use crate::flags::{CmdFlags, InputSelection, RegSelectFlags, status_ready};
use crate::oneshot::{OneShot, Step, READ_INPUT_TIMEOUT_MS, step_spec, timed_out};

verus! {

/// Selecting an input writes the configuration command followed by a byte
/// whose top three bits are the input's multiplexer code and whose five low
/// bits are zero.
pub proof fn lemma_input_selection_config(address: u8, input: InputSelection, now_ms: u128, before: Seq<Transfer>, after: Seq<Transfer>, r: Step)
    requires
        step_spec(address, OneShot::Idle(input), now_ms, before, after, r),
    ensures
        after.last().bytes.len() == 2,
        after.last().bytes[0] == CmdFlags::WREG | RegSelectFlags::CONFIG,
        after.last().bytes[1] / 32 == input.mux_code(),
        after.last().bytes[1] % 32 == 0,
        after.last().read_len == 0,
{
}

/// The ready check looks at bit 7 alone: two status bytes that agree in bit 7
/// are both ready or both not ready, whatever their other bits.
pub proof fn lemma_ready_ignores_other_bits(a: u8, b: u8)
    requires
        a & 0x80 == b & 0x80,
    ensures
        status_ready(a) == status_ready(b),
        status_ready(a) == (a & 0x80 != 0),
{
    assert(status_ready(a) == (a & 0x80 != 0)) by (bit_vector);
    assert(status_ready(b) == (b & 0x80 != 0)) by (bit_vector);
}

/// The value that the configuration register of a device holds after the
/// transactions `ts`, for a device that stores each value written to it and
/// clears it on reset (its power-on value is zero).
pub open spec fn config_register(ts: Seq<Transfer>) -> u8
    decreases ts.len(),
{
    if ts.len() == 0 {
        0
    } else {
        let t = ts.last();
        if t.reply is Ok && t.bytes.len() == 2 && t.bytes[0] == CmdFlags::WREG | RegSelectFlags::CONFIG {
            t.bytes[1]
        } else if t.reply is Ok && t.bytes == seq![CmdFlags::RESET] {
            0
        } else {
            config_register(ts.drop_last())
        }
    }
}

/// Reading the configuration right after writing `value` returns `value`, on a
/// device that answers the read with what its register holds. The
/// requirements on `written` and `read` are what `write_config` and
/// `read_config` ensure.
pub proof fn lemma_config_round_trip(address: u8, value: u8, t0: Seq<Transfer>, t1: Seq<Transfer>, t2: Seq<Transfer>, written: Result<(), ErrorKind>, read: Result<u8, ErrorKind>)
    requires
        issued(t0, t1, address, seq![CmdFlags::WREG | RegSelectFlags::CONFIG, value], 0),
        written is Ok <==> t1.last().reply is Ok,
        issued(t1, t2, address, seq![CmdFlags::RREG | RegSelectFlags::CONFIG], 1),
        read is Ok <==> t2.last().reply is Ok,
        read matches Ok(v) ==> t2.last().reply == Ok::<Seq<u8>, ErrorKind>(seq![v]),
        t2.last().reply is Ok ==> t2.last().reply == Ok::<Seq<u8>, ErrorKind>(seq![config_register(t1)]),
        written is Ok,
        t2.last().reply is Ok,
    ensures
        read == Ok::<u8, ErrorKind>(value),
{
    assert(t1.last().bytes[0] == CmdFlags::WREG | RegSelectFlags::CONFIG);
    assert(config_register(t1) == value);
    let v = read->Ok_0;
    assert(seq![v][0] == seq![config_register(t1)][0]);
}

/// The state that a step hands to the next one; none once the acquisition is over.
pub open spec fn next_state(r: Step) -> Option<OneShot> {
    match r {
        Step::Continue(s) => Some(s),
        Step::Pause(s) => Some(s),
        Step::Done(_) => None,
    }
}

/// Consecutive steps of one acquisition by a device at `address`: step `i`
/// starts in `states[i]` at clock reading `nows[i]`, takes the record of
/// transactions from `logs[i]` to `logs[i + 1]` and returns `steps[i]`, and
/// each step but the last hands its successor the state it starts in.
pub open spec fn is_run(address: u8, states: Seq<OneShot>, nows: Seq<u128>, logs: Seq<Seq<Transfer>>, steps: Seq<Step>) -> bool {
    &&& states.len() == steps.len()
    &&& nows.len() == steps.len()
    &&& logs.len() == steps.len() + 1
    &&& forall|i: int| 0 <= i < steps.len() ==> #[trigger] step_spec(address, states[i], nows[i], logs[i], logs[i + 1], steps[i])
    &&& forall|i: int| 0 <= i < steps.len() - 1 ==> next_state(#[trigger] steps[i]) == Some(states[i + 1])
}

/// Step `i` of a run issued a transaction.
pub open spec fn step_issued(logs: Seq<Seq<Transfer>>, i: int) -> bool {
    logs[i + 1].len() == logs[i].len() + 1
}

/// In a run from `Idle` in which every status read answers "not ready", the
/// result is never read: no step issues the read-data command and none
/// returns a sample. The polls go on while less than the timeout has passed
/// since the conversion started; a timeout is declared only once it has, and
/// carries the configured timeout.
pub proof fn lemma_never_ready_never_reads(address: u8, input: InputSelection, states: Seq<OneShot>, nows: Seq<u128>, logs: Seq<Seq<Transfer>>, steps: Seq<Step>)
    requires
        is_run(address, states, nows, logs, steps),
        states.len() > 0,
        states[0] == OneShot::Idle(input),
        forall|i: int| 0 <= i < steps.len() && #[trigger] states[i] is Polling && logs[i + 1].last().reply is Ok
            ==> !status_ready(logs[i + 1].last().reply->Ok_0[0]),
    ensures
        forall|i: int| 0 <= i < steps.len() ==> !(#[trigger] states[i] is Ready),
        forall|i: int| 0 <= i < steps.len() && #[trigger] step_issued(logs, i) ==> logs[i + 1].last().bytes != seq![CmdFlags::RDATA],
        forall|i: int| 0 <= i < steps.len() ==> !(#[trigger] steps[i] matches Step::Done(Ok(_))),
        forall|i: int| 0 <= i < steps.len()
            ==> (#[trigger] steps[i] matches Step::Done(Err(Ads1119Err::ConversionTimeout(t))) ==> t == READ_INPUT_TIMEOUT_MS),
        forall|i: int| 0 <= i < steps.len() && (#[trigger] steps[i] matches Step::Done(Err(Ads1119Err::ConversionTimeout(_))))
            ==> (states[i] matches OneShot::Waiting { started_ms } && timed_out(started_ms, nows[i])),
        forall|i: int| 0 <= i < steps.len() - 1 ==> (#[trigger] states[i] matches OneShot::Waiting { started_ms } ==> !timed_out(started_ms, nows[i])),
{
    assert forall|i: int| 0 <= i < steps.len() implies !(#[trigger] states[i] is Ready) by {
        if i > 0 {
            assert(step_spec(address, states[i - 1], nows[i - 1], logs[i - 1], logs[i], steps[i - 1]));
            assert(next_state(steps[i - 1]) == Some(states[i]));
        }
    }
    assert forall|i: int| 0 <= i < steps.len() && #[trigger] step_issued(logs, i) implies logs[i + 1].last().bytes != seq![CmdFlags::RDATA] by {
        assert(step_spec(address, states[i], nows[i], logs[i], logs[i + 1], steps[i]));
        assert(!(states[i] is Ready));
        assert(0x20u8 | 0x04u8 == 0x24u8) by (bit_vector);
        assert(seq![CmdFlags::RDATA][0] != (seq![CmdFlags::RREG | RegSelectFlags::STATUS])[0]);
        assert(seq![CmdFlags::RDATA][0] != (seq![CmdFlags::START_SYNC])[0]);
        assert(seq![CmdFlags::RDATA].len() != (seq![CmdFlags::WREG | RegSelectFlags::CONFIG, 0u8]).len());
    }
    assert forall|i: int| 0 <= i < steps.len() implies !(#[trigger] steps[i] matches Step::Done(Ok(_))) by {
        assert(step_spec(address, states[i], nows[i], logs[i], logs[i + 1], steps[i]));
        assert(!(states[i] is Ready));
    }
    assert forall|i: int| 0 <= i < steps.len()
        implies (#[trigger] steps[i] matches Step::Done(Err(Ads1119Err::ConversionTimeout(t))) ==> t == READ_INPUT_TIMEOUT_MS) by {
        assert(step_spec(address, states[i], nows[i], logs[i], logs[i + 1], steps[i]));
    }
    assert forall|i: int| 0 <= i < steps.len() && (#[trigger] steps[i] matches Step::Done(Err(Ads1119Err::ConversionTimeout(_))))
        implies (states[i] matches OneShot::Waiting { started_ms } && timed_out(started_ms, nows[i])) by {
        assert(step_spec(address, states[i], nows[i], logs[i], logs[i + 1], steps[i]));
    }
    assert forall|i: int| 0 <= i < steps.len() - 1
        implies (#[trigger] states[i] matches OneShot::Waiting { started_ms } ==> !timed_out(started_ms, nows[i])) by {
        assert(step_spec(address, states[i], nows[i], logs[i], logs[i + 1], steps[i]));
        assert(next_state(steps[i]) == Some(states[i + 1]));
    }
}

/// Two runs from the same `Idle` state, with the same clock readings and the
/// same replies to the transactions that both issue.
pub open spec fn alike_runs(address: u8, input: InputSelection, nows: Seq<u128>, states1: Seq<OneShot>, logs1: Seq<Seq<Transfer>>, steps1: Seq<Step>, states2: Seq<OneShot>, logs2: Seq<Seq<Transfer>>, steps2: Seq<Step>) -> bool {
    &&& is_run(address, states1, nows, logs1, steps1)
    &&& is_run(address, states2, nows, logs2, steps2)
    &&& states1.len() > 0
    &&& states1[0] == OneShot::Idle(input)
    &&& states2[0] == OneShot::Idle(input)
    &&& forall|i: int| 0 <= i < steps1.len() && #[trigger] step_issued(logs1, i) && step_issued(logs2, i)
        ==> logs1[i + 1].last().reply == logs2[i + 1].last().reply
}

proof fn lemma_alike_runs_prefix(address: u8, input: InputSelection, nows: Seq<u128>, states1: Seq<OneShot>, logs1: Seq<Seq<Transfer>>, steps1: Seq<Step>, states2: Seq<OneShot>, logs2: Seq<Seq<Transfer>>, steps2: Seq<Step>, k: int)
    requires
        alike_runs(address, input, nows, states1, logs1, steps1, states2, logs2, steps2),
        0 <= k < states1.len(),
    ensures
        forall|i: int| 0 <= i <= k ==> states1[i] == states2[i],
    decreases k,
{
    if k > 0 {
        lemma_alike_runs_prefix(address, input, nows, states1, logs1, steps1, states2, logs2, steps2, k - 1);
        let j = k - 1;
        assert(step_spec(address, states1[j], nows[j], logs1[j], logs1[j + 1], steps1[j]));
        assert(step_spec(address, states2[j], nows[j], logs2[j], logs2[j + 1], steps2[j]));
        assert(next_state(steps1[j]) == Some(states1[k]));
        assert(next_state(steps2[j]) == Some(states2[k]));
        match states1[j] {
            OneShot::Idle(_) | OneShot::ConfigWritten | OneShot::Polling { .. } | OneShot::Ready => {
                assert(step_issued(logs1, j) && step_issued(logs2, j));
            },
            _ => {},
        }
    }
}

/// An acquisition repeated with the same input issues the same transactions,
/// passes through the same states and ends with the same result, whatever
/// the device issued before,
/// provided it sees the same clock readings and gets the same replies: no
/// state carries over from one acquisition to the next.
pub proof fn lemma_oneshot_repeatable(address: u8, input: InputSelection, nows: Seq<u128>, states1: Seq<OneShot>, logs1: Seq<Seq<Transfer>>, steps1: Seq<Step>, states2: Seq<OneShot>, logs2: Seq<Seq<Transfer>>, steps2: Seq<Step>)
    requires
        alike_runs(address, input, nows, states1, logs1, steps1, states2, logs2, steps2),
    ensures
        forall|i: int| 0 <= i < states1.len() ==> states1[i] == states2[i],
        forall|i: int| 0 <= i < steps1.len() ==> #[trigger] step_issued(logs1, i) == step_issued(logs2, i),
        forall|i: int| 0 <= i < steps1.len() && #[trigger] step_issued(logs1, i) ==> logs1[i + 1].last() == logs2[i + 1].last(),
        forall|i: int| 0 <= i < steps1.len() ==> #[trigger] steps1[i] == steps2[i],
{
    lemma_alike_runs_prefix(address, input, nows, states1, logs1, steps1, states2, logs2, steps2, states1.len() - 1);
    assert forall|i: int| 0 <= i < steps1.len() implies #[trigger] step_issued(logs1, i) == step_issued(logs2, i)
        && (step_issued(logs1, i) ==> logs1[i + 1].last() == logs2[i + 1].last()) by {
        assert(states1[i] == states2[i]);
        assert(step_spec(address, states1[i], nows[i], logs1[i], logs1[i + 1], steps1[i]));
        assert(step_spec(address, states2[i], nows[i], logs2[i], logs2[i + 1], steps2[i]));
    }
    assert forall|i: int| 0 <= i < steps1.len() implies #[trigger] steps1[i] == steps2[i] by {
        assert(states1[i] == states2[i]);
        assert(step_spec(address, states1[i], nows[i], logs1[i], logs1[i + 1], steps1[i]));
        assert(step_spec(address, states2[i], nows[i], logs2[i], logs2[i + 1], steps2[i]));
        if step_issued(logs1, i) && step_issued(logs2, i) {
            assert(logs1[i + 1].last().reply == logs2[i + 1].last().reply);
        }
    }
}

/// The state that step `i` of a successful acquisition of `input` in `n`
/// steps starts in, for a conversion started at `started_ms`: the
/// configuration write, the start, the clock reading, then polls and clock
/// checks in turn, and the data read last.
pub open spec fn success_state(input: InputSelection, started_ms: u128, i: int, n: int) -> OneShot {
    if i == 0 {
        OneShot::Idle(input)
    } else if i == 1 {
        OneShot::ConfigWritten
    } else if i == 2 {
        OneShot::ConversionStarted
    } else if i == n - 1 {
        OneShot::Ready
    } else if i % 2 == 1 {
        OneShot::Polling { started_ms }
    } else {
        OneShot::Waiting { started_ms }
    }
}

/// The bytes that step `i` of a successful acquisition of `input` in `n`
/// steps writes, or `None` where the step issues no transaction.
pub open spec fn success_request(input: InputSelection, i: int, n: int) -> Option<Seq<u8>> {
    if i == 0 {
        Some(seq![CmdFlags::WREG | RegSelectFlags::CONFIG, input.spec_bits()])
    } else if i == 1 {
        Some(seq![CmdFlags::START_SYNC])
    } else if i == 2 {
        None
    } else if i == n - 1 {
        Some(seq![CmdFlags::RDATA])
    } else if i % 2 == 1 {
        Some(seq![CmdFlags::RREG | RegSelectFlags::STATUS])
    } else {
        None
    }
}

proof fn lemma_success_prefix(address: u8, input: InputSelection, states: Seq<OneShot>, nows: Seq<u128>, logs: Seq<Seq<Transfer>>, steps: Seq<Step>, k: int)
    requires
        is_run(address, states, nows, logs, steps),
        states[0] == OneShot::Idle(input),
        0 <= k < steps.len() - 1,
    ensures
        forall|i: int| 0 <= i <= k ==> states[i] == success_state(input, nows[2], i, steps.len() as int),
    decreases k,
{
    let n = steps.len() as int;
    if k > 0 {
        lemma_success_prefix(address, input, states, nows, logs, steps, k - 1);
        let j = k - 1;
        assert(step_spec(address, states[j], nows[j], logs[j], logs[j + 1], steps[j]));
        assert(step_spec(address, states[k], nows[k], logs[k], logs[k + 1], steps[k]));
        assert(next_state(steps[j]) == Some(states[k]));
        assert(next_state(steps[k]) == Some(states[k + 1]));
    }
}

/// A run from `Idle` that ends with the sample `v` wrote the configuration
/// that selects the input, started the conversion, read the status until it
/// said "ready" (every earlier poll said "not ready"), then read the result
/// once, in that order, with every transaction answered; `v` is the result
/// read.
pub proof fn lemma_oneshot_success(address: u8, input: InputSelection, states: Seq<OneShot>, nows: Seq<u128>, logs: Seq<Seq<Transfer>>, steps: Seq<Step>, v: i16)
    requires
        is_run(address, states, nows, logs, steps),
        states.len() > 0,
        states[0] == OneShot::Idle(input),
        steps.last() == Step::Done(Ok(v)),
    ensures
        steps.len() >= 5,
        steps.len() % 2 == 1,
        forall|i: int| 0 <= i < steps.len() ==> #[trigger] states[i] == success_state(input, nows[2], i, steps.len() as int),
        forall|i: int| 0 <= i < steps.len() ==> (#[trigger] step_issued(logs, i) <==> success_request(input, i, steps.len() as int) is Some),
        forall|i: int| 0 <= i < steps.len() && #[trigger] step_issued(logs, i) ==> {
            &&& logs[i + 1].last().bytes == success_request(input, i, steps.len() as int)->0
            &&& logs[i + 1].last().reply is Ok
        },
        forall|i: int| 3 <= i < steps.len() - 2 && i % 2 == 1 ==> !status_ready(#[trigger] logs[i + 1].last().reply->Ok_0[0]),
        status_ready(logs[steps.len() - 1].last().reply->Ok_0[0]),
        v as int == sample_of(logs[steps.len() as int].last().reply->Ok_0),
{
    let n = steps.len() as int;
    let last = n - 1;
    assert(step_spec(address, states[last], nows[last], logs[last], logs[last + 1], steps[last]));
    assert(states[n - 1] == OneShot::Ready);
    assert(n >= 2) by {
        if n == 1 {
            assert(states[0] is Idle);
        }
    }
    lemma_success_prefix(address, input, states, nows, logs, steps, n - 2);
    let pre = n - 2;
    assert(step_spec(address, states[pre], nows[pre], logs[pre], logs[pre + 1], steps[pre]));
    assert(next_state(steps[pre]) == Some(states[pre + 1]));
    assert(n >= 5 && n % 2 == 1);
    assert forall|i: int| 0 <= i < n implies #[trigger] states[i] == success_state(input, nows[2], i, n) by {}
    assert forall|i: int| 0 <= i < n implies {
        &&& (#[trigger] step_issued(logs, i) <==> success_request(input, i, n) is Some)
        &&& (step_issued(logs, i) ==> {
            &&& logs[i + 1].last().bytes == success_request(input, i, n)->0
            &&& logs[i + 1].last().reply is Ok
        })
    } by {
        assert(step_spec(address, states[i], nows[i], logs[i], logs[i + 1], steps[i]));
        if i < n - 1 {
            assert(next_state(steps[i]) == Some(states[i + 1]));
        }
    }
    assert forall|i: int| 3 <= i < n - 2 && i % 2 == 1 implies !status_ready(#[trigger] logs[i + 1].last().reply->Ok_0[0]) by {
        assert(step_spec(address, states[i], nows[i], logs[i], logs[i + 1], steps[i]));
        assert(next_state(steps[i]) == Some(states[i + 1]));
    }
}

} // verus!
