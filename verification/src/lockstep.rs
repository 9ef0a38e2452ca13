//! The tick-stamped records that the peers exchange, and the queue that
//! pairs the local and the remote input of each tick.

use std::collections::VecDeque;
use vstd::prelude::*;

verus! {

/// The nominal pace of the simulation, in ticks per second.
pub const EXPECTED_FPS: u32 = 60;

/// The buttons held during one tick.
#[derive(Clone, Copy, Debug, PartialEq, Eq, Structural)]
pub struct JoyInput {
    pub local_tick: u32,
    pub joyflags: u16,
}

/// The payload that the simulated link exchanges for one tick.
#[derive(Debug, PartialEq, Eq)]
pub struct Packet {
    pub tick: u32,
    pub payload: Vec<u8>,
}

/// What a [`Packet`] holds.
pub struct PacketView {
    pub tick: u32,
    pub payload: Seq<u8>,
}

impl View for Packet {
    type V = PacketView;

    open spec fn view(&self) -> PacketView {
        PacketView { tick: self.tick, payload: self.payload@ }
    }
}

impl Clone for Packet {
    fn clone(&self) -> (copy: Packet)
        ensures
            copy@ == self@,
    {
        let payload = self.payload.clone();
        Packet { tick: self.tick, payload }
    }
}

/// The two inputs of one tick.
#[derive(Clone, Copy, Debug, PartialEq, Eq, Structural)]
pub struct InputPair {
    pub local: JoyInput,
    pub remote: JoyInput,
}

/// Why the queue refused an input or a configuration.
#[derive(Clone, Copy, Debug, PartialEq, Eq, Structural)]
pub enum QueueError {
    /// The capacity is zero, or a delay exceeds the capacity.
    InvalidConfig,
    /// The side of the queue that the input belongs to is full.
    Overflow,
    /// The input is not stamped with the tick that follows the last one queued.
    UnexpectedTick,
    /// The packet is not stamped with the tick of the input it came with.
    PacketTickMismatch,
    /// The tick counter has no room for another input.
    TickLimit,
}

/// A remote input with the packet that came with it.
#[derive(Debug, PartialEq, Eq)]
pub struct RemoteInput {
    pub input: JoyInput,
    pub packet: Packet,
}

/// What a [`Queue`] holds: the tick at its head, and for each side the inputs
/// of the ticks from the head on, in tick order.
pub struct QueueView {
    pub max_length: nat,
    pub local_delay: nat,
    pub remote_delay: nat,
    pub max_multiplier: nat,
    pub next_tick: nat,
    pub local: Seq<JoyInput>,
    pub remote: Seq<RemoteInput>,
}

impl QueueView {
    /// The number of ticks for which both inputs are queued.
    pub open spec fn paired(self) -> nat {
        if self.local.len() <= self.remote.len() {
            self.local.len()
        } else {
            self.remote.len()
        }
    }

    /// The pair of `tick`, where both its inputs are queued.
    pub open spec fn pair_at(self, tick: nat) -> Option<InputPair> {
        if self.next_tick <= tick < self.next_tick + self.paired() {
            Some(
                InputPair {
                    local: self.local[tick - self.next_tick],
                    remote: self.remote[tick - self.next_tick].input,
                },
            )
        } else {
            None
        }
    }

    /// How far the remote side is ahead of the local side, each measured
    /// against its own delay.
    pub open spec fn lead(self) -> int {
        (self.remote.len() - self.remote_delay) - (self.local.len() - self.local_delay)
    }

    /// The largest adjustment in either direction.
    pub open spec fn adjustment_limit(self) -> int {
        spec_adjustment_limit(self.max_multiplier)
    }

    /// The adjustment of the pace, in ticks per second.
    pub open spec fn tps_adjustment(self) -> int {
        spec_tps_adjustment(self.lead(), self.max_length as int, self.adjustment_limit())
    }

    /// Whether this is the queue as it is made: the head at tick 0, and for
    /// each side idle inputs for the ticks that its delay covers.
    pub open spec fn is_fresh(
        self,
        max_length: nat,
        local_delay: nat,
        remote_delay: nat,
        max_multiplier: nat,
    ) -> bool {
        &&& self.max_length == max_length
        &&& self.local_delay == local_delay
        &&& self.remote_delay == remote_delay
        &&& self.max_multiplier == max_multiplier
        &&& self.next_tick == 0
        &&& self.local.len() == local_delay
        &&& self.remote.len() == remote_delay
        &&& forall|i: int| 0 <= i < local_delay ==> self.local[i] == idle_input(i as nat)
        &&& forall|i: int| 0 <= i < remote_delay ==> is_idle_remote(self.remote[i], i as nat)
    }

    /// The queue after the pair at its head has left.
    pub open spec fn after_pop(self) -> QueueView {
        QueueView {
            next_tick: self.next_tick + 1,
            local: self.local.subrange(1, self.local.len() as int),
            remote: self.remote.subrange(1, self.remote.len() as int),
            ..self
        }
    }

    /// What `push_local` answers for `input`.
    pub open spec fn push_local_result(self, input: JoyInput) -> Result<(), QueueError> {
        if self.local.len() >= self.max_length {
            Err(QueueError::Overflow)
        } else if self.next_tick + self.local.len() >= u32::MAX {
            Err(QueueError::TickLimit)
        } else if input.local_tick != self.next_tick + self.local.len() {
            Err(QueueError::UnexpectedTick)
        } else {
            Ok(())
        }
    }

    /// What `push_remote` answers for `input` and a packet stamped `packet_tick`.
    pub open spec fn push_remote_result(self, input: JoyInput, packet_tick: u32) -> Result<
        (),
        QueueError,
    > {
        if self.remote.len() >= self.max_length {
            Err(QueueError::Overflow)
        } else if self.next_tick + self.remote.len() >= u32::MAX {
            Err(QueueError::TickLimit)
        } else if input.local_tick != self.next_tick + self.remote.len() {
            Err(QueueError::UnexpectedTick)
        } else if packet_tick != input.local_tick {
            Err(QueueError::PacketTickMismatch)
        } else {
            Ok(())
        }
    }
}

/// The largest adjustment that a multiplier of the nominal pace allows,
/// held to what an `i32` can express.
pub open spec fn spec_adjustment_limit(max_multiplier: nat) -> int {
    if max_multiplier * EXPECTED_FPS <= i32::MAX {
        max_multiplier * EXPECTED_FPS
    } else {
        i32::MAX as int
    }
}

/// The adjustment for a lead before the limit applies: the nominal pace for
/// a lead of a full queue, in proportion for less, rounded towards zero.
pub open spec fn spec_raw_adjustment(lead: int, max_length: int) -> int {
    if lead >= 0 {
        (lead * EXPECTED_FPS) / max_length
    } else {
        -(((-lead) * EXPECTED_FPS) / max_length)
    }
}

/// The adjustment for a lead, held within the limit.
pub open spec fn spec_tps_adjustment(lead: int, max_length: int, limit: int) -> int {
    let raw = spec_raw_adjustment(lead, max_length);
    if raw > limit {
        limit
    } else if raw < -limit {
        -limit
    } else {
        raw
    }
}

/// The input that stands for a tick before the first input of a side.
pub open spec fn idle_input(tick: nat) -> JoyInput {
    JoyInput { local_tick: tick as u32, joyflags: 0 }
}

/// The remote input that stands for a tick before the first remote input.
pub open spec fn is_idle_remote(entry: RemoteInput, tick: nat) -> bool {
    &&& entry.input == idle_input(tick)
    &&& entry.packet.tick == tick
    &&& entry.packet.payload@.len() == 0
}

/// The queue that pairs the local and the remote input of each tick.
pub struct Queue {
    max_length: usize,
    local_delay: u32,
    remote_delay: u32,
    max_multiplier: u32,
    next_tick: u32,
    local: VecDeque<JoyInput>,
    remote: VecDeque<RemoteInput>,
}

impl View for Queue {
    type V = QueueView;

    closed spec fn view(&self) -> QueueView {
        QueueView {
            max_length: self.max_length as nat,
            local_delay: self.local_delay as nat,
            remote_delay: self.remote_delay as nat,
            max_multiplier: self.max_multiplier as nat,
            next_tick: self.next_tick as nat,
            local: self.local@,
            remote: self.remote@,
        }
    }
}

impl QueueView {
    /// The inputs of each side are those of consecutive ticks from the head
    /// on, each packet is stamped like its input, and neither side holds more
    /// than the capacity.
    pub open spec fn wf(self) -> bool {
        &&& 0 < self.max_length <= usize::MAX
        &&& self.local_delay <= self.max_length
        &&& self.remote_delay <= self.max_length
        &&& self.local_delay <= u32::MAX
        &&& self.remote_delay <= u32::MAX
        &&& self.max_multiplier <= u32::MAX
        &&& self.local.len() <= self.max_length
        &&& self.remote.len() <= self.max_length
        &&& self.next_tick + self.local.len() <= u32::MAX
        &&& self.next_tick + self.remote.len() <= u32::MAX
        &&& forall|i: int|
            0 <= i < self.local.len() ==> (#[trigger] self.local[i]).local_tick == self.next_tick
                + i
        &&& forall|i: int|
            0 <= i < self.remote.len() ==> {
                &&& (#[trigger] self.remote[i]).input.local_tick == self.next_tick + i
                &&& self.remote[i].packet.tick == self.next_tick + i
            }
    }
}

impl Queue {
    /// The invariant of the queue.
    pub open spec fn wf(&self) -> bool {
        self@.wf()
    }

    /// Makes a queue whose head is tick 0 and that holds, for each side, idle
    /// inputs for the ticks that the side's delay covers.
    pub fn new(
        max_length: usize,
        local_delay: u32,
        remote_delay: u32,
        max_multiplier: u32,
    ) -> (made: Result<Queue, QueueError>)
        ensures
            made is Ok <==> 0 < max_length && local_delay <= max_length && remote_delay
                <= max_length,
            made matches Err(e) ==> e == QueueError::InvalidConfig,
            made matches Ok(q) ==> q.wf() && q@.is_fresh(
                max_length as nat,
                local_delay as nat,
                remote_delay as nat,
                max_multiplier as nat,
            ),
    {
        if max_length == 0 || local_delay as u64 > max_length as u64 || remote_delay as u64
            > max_length as u64 {
            return Err(QueueError::InvalidConfig);
        }
        let mut local: VecDeque<JoyInput> = VecDeque::new();
        let mut tick: u32 = 0;
        while tick < local_delay
            invariant
                tick <= local_delay,
                local@.len() == tick,
                forall|i: int| 0 <= i < tick ==> local@[i] == idle_input(i as nat),
            decreases local_delay - tick,
        {
            local.push_back(JoyInput { local_tick: tick, joyflags: 0 });
            tick = tick + 1;
        }
        let mut remote: VecDeque<RemoteInput> = VecDeque::new();
        let mut tick: u32 = 0;
        while tick < remote_delay
            invariant
                tick <= remote_delay,
                remote@.len() == tick,
                forall|i: int| 0 <= i < tick ==> is_idle_remote(remote@[i], i as nat),
            decreases remote_delay - tick,
        {
            remote.push_back(
                RemoteInput {
                    input: JoyInput { local_tick: tick, joyflags: 0 },
                    packet: Packet { tick, payload: Vec::new() },
                },
            );
            tick = tick + 1;
        }
        Ok(
            Queue {
                max_length,
                local_delay,
                remote_delay,
                max_multiplier,
                next_tick: 0,
                local,
                remote,
            },
        )
    }

    /// The capacity of each side.
    pub fn max_length(&self) -> (n: usize)
        ensures
            n == self@.max_length,
    {
        self.max_length
    }

    /// The number of ticks that the local side buffers ahead.
    pub fn local_delay(&self) -> (n: u32)
        ensures
            n == self@.local_delay,
    {
        self.local_delay
    }

    /// The number of ticks that the remote side buffers ahead.
    pub fn remote_delay(&self) -> (n: u32)
        ensures
            n == self@.remote_delay,
    {
        self.remote_delay
    }

    /// The tick of the next pair to leave the queue.
    pub fn next_tick(&self) -> (tick: u32)
        ensures
            tick == self@.next_tick,
    {
        self.next_tick
    }

    /// The number of local inputs queued.
    pub fn local_queue_length(&self) -> (n: usize)
        ensures
            n == self@.local.len(),
    {
        self.local.len()
    }

    /// The number of remote inputs queued.
    pub fn remote_queue_length(&self) -> (n: usize)
        ensures
            n == self@.remote.len(),
    {
        self.remote.len()
    }

    /// Queues the local input of the tick that follows the last one queued.
    pub fn push_local(&mut self, input: JoyInput) -> (pushed: Result<(), QueueError>)
        requires
            old(self).wf(),
        ensures
            final(self).wf(),
            pushed == old(self)@.push_local_result(input),
            pushed is Ok ==> final(self)@ == (QueueView {
                local: old(self)@.local.push(input),
                ..old(self)@
            }),
            pushed is Err ==> final(self)@ == old(self)@,
    {
        if self.local.len() >= self.max_length {
            return Err(QueueError::Overflow);
        }
        let expected: u64 = self.next_tick as u64 + self.local.len() as u64;
        if expected >= u32::MAX as u64 {
            return Err(QueueError::TickLimit);
        }
        if input.local_tick as u64 != expected {
            return Err(QueueError::UnexpectedTick);
        }
        self.local.push_back(input);
        Ok(())
    }

    /// Queues the remote input of the tick that follows the last one queued,
    /// with the packet that came with it.
    pub fn push_remote(&mut self, input: JoyInput, packet: Packet) -> (pushed: Result<
        (),
        QueueError,
    >)
        requires
            old(self).wf(),
        ensures
            final(self).wf(),
            pushed == old(self)@.push_remote_result(input, packet.tick),
            pushed is Ok ==> final(self)@ == (QueueView {
                remote: old(self)@.remote.push(RemoteInput { input, packet }),
                ..old(self)@
            }),
            pushed is Err ==> final(self)@ == old(self)@,
    {
        if self.remote.len() >= self.max_length {
            return Err(QueueError::Overflow);
        }
        let expected: u64 = self.next_tick as u64 + self.remote.len() as u64;
        if expected >= u32::MAX as u64 {
            return Err(QueueError::TickLimit);
        }
        if input.local_tick as u64 != expected {
            return Err(QueueError::UnexpectedTick);
        }
        if packet.tick != input.local_tick {
            return Err(QueueError::PacketTickMismatch);
        }
        self.remote.push_back(RemoteInput { input, packet });
        Ok(())
    }

    /// The pair of `tick`, if both its inputs are queued.
    pub fn peek_pair(&self, tick: u32) -> (pair: Option<InputPair>)
        requires
            self.wf(),
        ensures
            pair == self@.pair_at(tick as nat),
            pair matches Some(p) ==> p.local.local_tick == tick && p.remote.local_tick == tick,
    {
        if tick < self.next_tick {
            return None;
        }
        let offset: usize = (tick - self.next_tick) as usize;
        if offset >= self.local.len() || offset >= self.remote.len() {
            return None;
        }
        Some(InputPair { local: self.local[offset], remote: self.remote[offset].input })
    }

    /// The packet that came with the remote input at the head.
    pub fn peek_remote_packet(&self) -> (packet: Option<&Packet>)
        requires
            self.wf(),
        ensures
            packet is Some <==> self@.remote.len() > 0,
            packet matches Some(p) ==> *p == self@.remote[0].packet && p.tick
                == self@.next_tick,
    {
        if self.remote.len() == 0 {
            return None;
        }
        Some(&self.remote[0].packet)
    }

    /// Takes the pair at the head with the packet of its remote input, if both
    /// inputs are queued. The pair is that of the head's tick, and the head
    /// moves on by one tick.
    pub fn pop_pair_with_packet(&mut self) -> (popped: Option<(InputPair, Packet)>)
        requires
            old(self).wf(),
        ensures
            final(self).wf(),
            popped is Some <==> old(self)@.paired() > 0,
            popped matches Some(p) ==> {
                &&& Some(p.0) == old(self)@.pair_at(old(self)@.next_tick)
                &&& p.1 == old(self)@.remote[0].packet
                &&& p.0.local.local_tick == p.0.remote.local_tick
                &&& p.0.local.local_tick == old(self)@.next_tick
                &&& p.1.tick == old(self)@.next_tick
                &&& final(self)@ == old(self)@.after_pop()
            },
            popped is None ==> final(self)@ == old(self)@,
    {
        if self.local.len() == 0 || self.remote.len() == 0 {
            return None;
        }
        let local = self.local.pop_front();
        let remote = self.remote.pop_front();
        self.next_tick = self.next_tick + 1;
        match (local, remote) {
            (Some(local), Some(remote)) => Some(
                (InputPair { local, remote: remote.input }, remote.packet),
            ),
            _ => None,
        }
    }

    /// Takes the pair at the head, if both its inputs are queued. The two
    /// inputs of the pair are stamped with the head's tick, and the head moves
    /// on by one tick.
    pub fn pop_pair(&mut self) -> (pair: Option<InputPair>)
        requires
            old(self).wf(),
        ensures
            final(self).wf(),
            pair == old(self)@.pair_at(old(self)@.next_tick),
            pair matches Some(p) ==> {
                &&& p.local.local_tick == p.remote.local_tick
                &&& p.local.local_tick == old(self)@.next_tick
                &&& final(self)@ == old(self)@.after_pop()
            },
            pair is None ==> final(self)@ == old(self)@,
    {
        match self.pop_pair_with_packet() {
            Some(popped) => Some(popped.0),
            None => None,
        }
    }

    /// The adjustment of the pace, in ticks per second: positive where the
    /// remote side is ahead, negative where the local side is.
    pub fn tps_adjustment(&self) -> (adjustment: i32)
        requires
            self.wf(),
        ensures
            adjustment == self@.tps_adjustment(),
            -self@.adjustment_limit() <= adjustment <= self@.adjustment_limit(),
    {
        let limit: i64 = if self.max_multiplier as u64 * EXPECTED_FPS as u64 <= i32::MAX as u64 {
            (self.max_multiplier as u64 * EXPECTED_FPS as u64) as i64
        } else {
            i32::MAX as i64
        };
        let ahead: u64 = self.remote.len() as u64 + self.local_delay as u64;
        let behind: u64 = self.local.len() as u64 + self.remote_delay as u64;
        let max_length: u64 = self.max_length as u64;
        let raw: i64 = if ahead >= behind {
            let lead: u64 = ahead - behind;
            assert((lead * 60) / (max_length as int) <= lead * 60) by (nonlinear_arith)
                requires
                    max_length > 0,
            ;
            (lead * EXPECTED_FPS as u64 / max_length) as i64
        } else {
            let lag: u64 = behind - ahead;
            assert((lag * 60) / (max_length as int) <= lag * 60) by (nonlinear_arith)
                requires
                    max_length > 0,
            ;
            -((lag * EXPECTED_FPS as u64 / max_length) as i64)
        };
        if raw > limit {
            limit as i32
        } else if raw < -limit {
            (-limit) as i32
        } else {
            raw as i32
        }
    }
}

/// Dividing by the capacity keeps the order of two leads.
proof fn lemma_raw_adjustment_monotonic(lead_a: int, lead_b: int, max_length: int)
    requires
        lead_a <= lead_b,
        max_length > 0,
    ensures
        spec_raw_adjustment(lead_a, max_length) <= spec_raw_adjustment(lead_b, max_length),
{
    if lead_a >= 0 {
        assert((lead_a * 60) / max_length <= (lead_b * 60) / max_length) by (nonlinear_arith)
            requires
                0 <= lead_a <= lead_b,
                max_length > 0,
        ;
    } else if lead_b >= 0 {
        assert(((-lead_a) * 60) / max_length >= 0) by (nonlinear_arith)
            requires
                lead_a < 0,
                max_length > 0,
        ;
        assert((lead_b * 60) / max_length >= 0) by (nonlinear_arith)
            requires
                lead_b >= 0,
                max_length > 0,
        ;
    } else {
        assert(((-lead_a) * 60) / max_length >= ((-lead_b) * 60) / max_length)
            by (nonlinear_arith)
            requires
                lead_a <= lead_b < 0,
                max_length > 0,
        ;
    }
}

/// For fixed delays, capacity and multiplier, the adjustment does not fall
/// when the remote queue grows against the local queue, and it never leaves
/// the limit that the multiplier sets.
pub proof fn lemma_tps_adjustment_monotonic(a: QueueView, b: QueueView)
    requires
        a.wf(),
        b.wf(),
        a.max_length == b.max_length,
        a.local_delay == b.local_delay,
        a.remote_delay == b.remote_delay,
        a.max_multiplier == b.max_multiplier,
        a.remote.len() - a.local.len() <= b.remote.len() - b.local.len(),
    ensures
        a.tps_adjustment() <= b.tps_adjustment(),
        -a.adjustment_limit() <= a.tps_adjustment() <= a.adjustment_limit(),
        -b.adjustment_limit() <= b.tps_adjustment() <= b.adjustment_limit(),
{
    lemma_raw_adjustment_monotonic(a.lead(), b.lead(), a.max_length as int);
}

} // verus!
