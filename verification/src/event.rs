//! Event replay: timestamped input events applied to the board in order,
//! and output events collected from it. Timestamps are nanoseconds.

use vstd::prelude::*;
use vstd::multiset::Multiset;

verus! {

/// What the board produced: a Q transition or an OUT strobe on a port.
#[derive(Debug, Clone, Copy, PartialEq, Eq, Structural)]
pub enum OutputKind {
    Q,
    Io1,
    Io2,
    Io3,
    Io4,
    Io5,
    Io6,
    Io7,
}

/// What is fed to the board: an interrupt pulse, an external flag level or
/// a byte latched on an input port.
#[derive(Debug, Clone, Copy, PartialEq, Eq, Structural)]
pub enum InputKind {
    Intr,
    Ef1,
    Ef2,
    Ef3,
    Ef4,
    Io1,
    Io2,
    Io3,
    Io4,
    Io5,
    Io6,
    Io7,
}

/// One timestamped event; the timestamp counts nanoseconds.
#[derive(Debug, Clone, Copy, PartialEq, Eq, Structural)]
pub struct Event<K> {
    pub timestamp: u64,
    pub kind: K,
    pub value: u8,
}

impl<K> Event<K> {
    pub fn new(timestamp: u64, kind: K, value: u8) -> (r: Self)
        ensures
            r == (Event { timestamp, kind, value }),
    {
        Event { timestamp, kind, value }
    }
}

pub type InputEvent = Event<InputKind>;

pub type OutputEvent = Event<OutputKind>;

/// Non-strictly ascending timestamps.
pub open spec fn sorted_by_time<K>(s: Seq<Event<K>>) -> bool {
    forall|i: int, j: int| 0 <= i <= j < s.len() ==> #[trigger] s[i].timestamp <= #[trigger] s[j].timestamp
}

/// An input event log: pending events sorted ascending by timestamp, and
/// already-applied ones kept aside so a reset can replay them.
#[derive(Debug, Clone)]
pub struct InputEventLog {
    pending: Vec<InputEvent>,
    expired: Vec<InputEvent>,
}

impl InputEventLog {
    pub closed spec fn pending_seq(self) -> Seq<InputEvent> {
        self.pending@
    }

    pub closed spec fn expired_seq(self) -> Seq<InputEvent> {
        self.expired@
    }

    pub open spec fn wf(self) -> bool {
        sorted_by_time(self.pending_seq())
    }

    pub fn new() -> (r: Self)
        ensures
            r.pending_seq() == Seq::<InputEvent>::empty(),
            r.expired_seq() == Seq::<InputEvent>::empty(),
            r.wf(),
    {
        InputEventLog { pending: Vec::new(), expired: Vec::new() }
    }

    /// Insert `event` into the sorted pending list, after every event with
    /// the same or an earlier timestamp, so that equal timestamps fire in
    /// insertion order.
    fn insert_pending(&mut self, event: InputEvent)
        requires
            old(self).wf(),
        ensures
            final(self).wf(),
            final(self).expired_seq() == old(self).expired_seq(),
            final(self).pending_seq().to_multiset() == old(self).pending_seq().to_multiset().insert(
                event,
            ),
    {
        let mut k: usize = 0;
        while k < self.pending.len() && self.pending[k].timestamp <= event.timestamp
            invariant
                k <= self.pending@.len(),
                forall|i: int| 0 <= i < k ==> #[trigger] self.pending@[i].timestamp <= event.timestamp,
                sorted_by_time(self.pending@),
                self.pending@ == old(self).pending_seq(),
            decreases self.pending@.len() - k,
        {
            k = k + 1;
        }
        self.pending.insert(k, event);
        proof {
            let s = old(self).pending@;
            let s2 = self.pending@;
            assert(s2 =~= s.take(k as int) + seq![event] + s.skip(k as int));
            assert(s =~= s.take(k as int) + s.skip(k as int));
            assert forall|i: int, j: int| 0 <= i <= j < s2.len() implies #[trigger] s2[i].timestamp
                <= #[trigger] s2[j].timestamp by {
                assert(forall|m: int| 0 <= m < s.len() && m >= k ==> #[trigger] s[m].timestamp
                    >= event.timestamp);
            }
            s.take(k as int).to_multiset_ensures();
            s.skip(k as int).to_multiset_ensures();
            vstd::seq_lib::lemma_multiset_commutative(s.take(k as int), s.skip(k as int));
            vstd::seq_lib::lemma_multiset_commutative(
                s.take(k as int) + seq![event],
                s.skip(k as int),
            );
            assert(s.take(k as int) + seq![event] =~= s.take(k as int).push(event));
            assert(s.take(k as int).push(event).to_multiset() =~= s.take(
                k as int,
            ).to_multiset().insert(event));
            assert(s2.to_multiset() =~= s.to_multiset().insert(event));
        }
    }

    /// Add an event: one before `now` goes straight to the expired side, a
    /// current or future one joins the sorted pending list.
    pub fn add(&mut self, event: InputEvent, now: u64)
        requires
            old(self).wf(),
        ensures
            final(self).wf(),
            event.timestamp < now ==> final(self).expired_seq() == old(self).expired_seq().push(
                event,
            ) && final(self).pending_seq() == old(self).pending_seq(),
            event.timestamp >= now ==> final(self).expired_seq() == old(self).expired_seq()
                && final(self).pending_seq().to_multiset() == old(
                self,
            ).pending_seq().to_multiset().insert(event),
    {
        if event.timestamp < now {
            self.expired.push(event);
        } else {
            self.insert_pending(event);
        }
    }

    /// Remove every event from the log.
    pub fn clear(&mut self)
        ensures
            final(self).pending_seq() == Seq::<InputEvent>::empty(),
            final(self).expired_seq() == Seq::<InputEvent>::empty(),
            final(self).wf(),
    {
        self.expired.clear();
        self.pending.clear();
    }

    /// The next pending event, if it is due at or before `when`.
    pub fn peek_next_at(&self, when: u64) -> (r: Option<InputEvent>)
        ensures
            r == (if self.pending_seq().len() > 0 && self.pending_seq()[0].timestamp <= when {
                Some(self.pending_seq()[0])
            } else {
                Option::<InputEvent>::None
            }),
    {
        if self.pending.len() > 0 && self.pending[0].timestamp <= when {
            Some(self.pending[0])
        } else {
            None
        }
    }

    /// Pop the next pending event due at or before `when`, moving it to the
    /// expired side.
    pub fn pop_next_at(&mut self, when: u64) -> (r: Option<InputEvent>)
        requires
            old(self).wf(),
        ensures
            final(self).wf(),
            r == (if old(self).pending_seq().len() > 0 && old(self).pending_seq()[0].timestamp
                <= when {
                Some(old(self).pending_seq()[0])
            } else {
                Option::<InputEvent>::None
            }),
            r matches Some(e) ==> final(self).pending_seq() == old(self).pending_seq().drop_first()
                && final(self).expired_seq() == old(self).expired_seq().push(e),
            r is None ==> *final(self) == *old(self),
    {
        if self.pending.len() > 0 && self.pending[0].timestamp <= when {
            let e = self.pending.remove(0);
            self.expired.push(e);
            proof {
                assert(self.pending@ =~= old(self).pending@.drop_first());
            }
            Some(e)
        } else {
            None
        }
    }

    /// Move every expired event back into the sorted pending list.
    pub fn reset(&mut self)
        requires
            old(self).wf(),
        ensures
            final(self).wf(),
            final(self).expired_seq() == Seq::<InputEvent>::empty(),
            final(self).pending_seq().to_multiset() == old(self).pending_seq().to_multiset().add(
                old(self).expired_seq().to_multiset(),
            ),
    {
        proof {
            old(self).expired_seq().to_multiset_ensures();
            Seq::<InputEvent>::empty().to_multiset_ensures();
            assert(old(self).expired_seq().take(0) =~= Seq::<InputEvent>::empty());
            assert(Seq::<InputEvent>::empty().to_multiset() =~= Multiset::<InputEvent>::empty());
            assert(old(self).pending_seq().to_multiset().add(
                old(self).expired_seq().take(0).to_multiset(),
            ) =~= old(self).pending_seq().to_multiset());
        }
        let mut k: usize = 0;
        while k < self.expired.len()
            invariant
                k <= self.expired@.len(),
                self.expired@ == old(self).expired_seq(),
                sorted_by_time(self.pending@),
                self.pending@.to_multiset() == old(self).pending_seq().to_multiset().add(
                    old(self).expired_seq().take(k as int).to_multiset(),
                ),
            decreases self.expired@.len() - k,
        {
            let e = self.expired[k];
            self.insert_pending(e);
            proof {
                let t = old(self).expired_seq().take(k as int);
                let t2 = old(self).expired_seq().take(k + 1);
                assert(t2 =~= t.push(old(self).expired_seq()[k as int]));
                t.to_multiset_ensures();
                t2.to_multiset_ensures();
                assert(t2.to_multiset() =~= t.to_multiset().insert(
                    old(self).expired_seq()[k as int],
                )) by {
                    vstd::seq_lib::lemma_multiset_commutative(
                        t,
                        seq![old(self).expired_seq()[k as int]],
                    );
                    seq![old(self).expired_seq()[k as int]].to_multiset_ensures();
                    assert(seq![old(self).expired_seq()[k as int]].drop_first()
                        =~= Seq::<InputEvent>::empty());
                    assert(t.push(old(self).expired_seq()[k as int]) =~= t + seq![
                        old(self).expired_seq()[k as int]
                    ]);
                }
                assert(self.pending@.to_multiset() =~= old(self).pending_seq().to_multiset().add(
                    t2.to_multiset(),
                ));
            }
            k = k + 1;
        }
        proof {
            assert(old(self).expired_seq().take(old(self).expired_seq().len() as int) =~= old(
                self,
            ).expired_seq());
        }
        self.expired.clear();
    }

    /// Every event in the log, the expired ones first.
    pub fn iter(&self) -> (r: Vec<InputEvent>)
        ensures
            r@ == self.expired_seq() + self.pending_seq(),
    {
        let mut out: Vec<InputEvent> = Vec::new();
        let mut k: usize = 0;
        while k < self.expired.len()
            invariant
                k <= self.expired@.len(),
                out@ == self.expired_seq().take(k as int),
            decreases self.expired@.len() - k,
        {
            out.push(self.expired[k]);
            proof {
                assert(self.expired_seq().take(k + 1) =~= self.expired_seq().take(k as int).push(
                    self.expired_seq()[k as int],
                ));
            }
            k = k + 1;
        }
        proof {
            assert(self.expired_seq().take(self.expired@.len() as int) =~= self.expired_seq());
        }
        let mut k2: usize = 0;
        while k2 < self.pending.len()
            invariant
                k2 <= self.pending@.len(),
                out@ == self.expired_seq() + self.pending_seq().take(k2 as int),
            decreases self.pending@.len() - k2,
        {
            out.push(self.pending[k2]);
            proof {
                assert(self.pending_seq().take(k2 + 1) =~= self.pending_seq().take(
                    k2 as int,
                ).push(self.pending_seq()[k2 as int]));
                assert(self.expired_seq() + self.pending_seq().take(k2 + 1) =~= (self.expired_seq()
                    + self.pending_seq().take(k2 as int)).push(self.pending_seq()[k2 as int]));
            }
            k2 = k2 + 1;
        }
        proof {
            assert(self.pending_seq().take(self.pending@.len() as int) =~= self.pending_seq());
        }
        out
    }
}

impl Default for InputEventLog {
    /// An empty log.
    fn default() -> (r: Self)
        ensures
            r.pending_seq() == Seq::<InputEvent>::empty(),
            r.expired_seq() == Seq::<InputEvent>::empty(),
            r.wf(),
    {
        InputEventLog { pending: Vec::new(), expired: Vec::new() }
    }
}

/// The output events the board has produced, in emission order.
#[derive(Debug)]
pub struct OutputEventLog(pub Vec<OutputEvent>);

impl OutputEventLog {
    /// Append an event.
    pub fn push(&mut self, event: OutputEvent)
        ensures
            final(self).0@ == old(self).0@.push(event),
    {
        self.0.push(event);
    }

    /// Remove every event.
    pub fn clear(&mut self)
        ensures
            final(self).0@ == Seq::<OutputEvent>::empty(),
    {
        self.0.clear();
    }

    /// Every event, in emission order.
    pub fn iter(&self) -> (r: Vec<OutputEvent>)
        ensures
            r@ == self.0@,
    {
        let mut out: Vec<OutputEvent> = Vec::new();
        let mut k: usize = 0;
        while k < self.0.len()
            invariant
                k <= self.0@.len(),
                out@ == self.0@.take(k as int),
            decreases self.0@.len() - k,
        {
            out.push(self.0[k]);
            proof {
                assert(self.0@.take(k + 1) =~= self.0@.take(k as int).push(self.0@[k as int]));
            }
            k = k + 1;
        }
        proof {
            assert(self.0@.take(self.0@.len() as int) =~= self.0@);
        }
        out
    }
}

impl Default for OutputEventLog {
    /// An empty log.
    fn default() -> (r: Self)
        ensures
            r.0@ == Seq::<OutputEvent>::empty(),
    {
        OutputEventLog(Vec::new())
    }
}

/// The pins as an input event leaves them: INTR and the flags drive their
/// lines directly; a port byte is driven onto the bus only while the CPU
/// reads (MRD low) with that port number on the N lines.
pub open spec fn apply_input_event_spec(
    pins: crate::cdp1802::pins::Cdp1802Pins,
    e: InputEvent,
) -> crate::cdp1802::pins::Cdp1802Pins {
    match e.kind {
        InputKind::Intr => pins.spec_set_intr(e.value > 0),
        InputKind::Ef1 => pins.spec_set_ef1(e.value > 0),
        InputKind::Ef2 => pins.spec_set_ef2(e.value > 0),
        InputKind::Ef3 => pins.spec_set_ef3(e.value > 0),
        InputKind::Ef4 => pins.spec_set_ef4(e.value > 0),
        InputKind::Io1 => apply_io_spec(pins, 1, e.value),
        InputKind::Io2 => apply_io_spec(pins, 2, e.value),
        InputKind::Io3 => apply_io_spec(pins, 3, e.value),
        InputKind::Io4 => apply_io_spec(pins, 4, e.value),
        InputKind::Io5 => apply_io_spec(pins, 5, e.value),
        InputKind::Io6 => apply_io_spec(pins, 6, e.value),
        InputKind::Io7 => apply_io_spec(pins, 7, e.value),
    }
}

pub open spec fn apply_io_spec(
    pins: crate::cdp1802::pins::Cdp1802Pins,
    port: u8,
    value: u8,
) -> crate::cdp1802::pins::Cdp1802Pins {
    if pins.get_mrd() && pins.get_n() == port {
        pins.spec_set_bus(value)
    } else {
        pins
    }
}

/// Apply one input event to the shared CPU pins.
pub fn apply_input_event(pins: &mut crate::cdp1802::pins::Cdp1802Pins, e: InputEvent)
    ensures
        *final(pins) == apply_input_event_spec(*old(pins), e),
{
    match e.kind {
        InputKind::Intr => pins.set_intr(e.value > 0),
        InputKind::Ef1 => pins.set_ef1(e.value > 0),
        InputKind::Ef2 => pins.set_ef2(e.value > 0),
        InputKind::Ef3 => pins.set_ef3(e.value > 0),
        InputKind::Ef4 => pins.set_ef4(e.value > 0),
        InputKind::Io1 => apply_io(pins, 1, e.value),
        InputKind::Io2 => apply_io(pins, 2, e.value),
        InputKind::Io3 => apply_io(pins, 3, e.value),
        InputKind::Io4 => apply_io(pins, 4, e.value),
        InputKind::Io5 => apply_io(pins, 5, e.value),
        InputKind::Io6 => apply_io(pins, 6, e.value),
        InputKind::Io7 => apply_io(pins, 7, e.value),
    }
}

fn apply_io(pins: &mut crate::cdp1802::pins::Cdp1802Pins, port: u8, value: u8)
    ensures
        *final(pins) == apply_io_spec(*old(pins), port, value),
{
    if pins.get_mrd() && pins.get_n() == port {
        pins.set_bus(value);
    }
}

/// The output kind of port `port`, for ports 1 to 7.
pub open spec fn spec_port_kind(port: u8) -> Option<OutputKind> {
    match port {
        1u8 => Some(OutputKind::Io1),
        2u8 => Some(OutputKind::Io2),
        3u8 => Some(OutputKind::Io3),
        4u8 => Some(OutputKind::Io4),
        5u8 => Some(OutputKind::Io5),
        6u8 => Some(OutputKind::Io6),
        7u8 => Some(OutputKind::Io7),
        _ => None,
    }
}

/// The OUT-strobe event a tick's pins deliver: while the CPU reads memory
/// (MRD low) under a TPB pulse with a port number on the N lines, the bus
/// byte leaves on that port.
pub open spec fn output_strobe_spec(pins: crate::cdp1802::pins::Cdp1802Pins) -> Option<
    (OutputKind, u8),
> {
    if !pins.get_mrd() && pins.get_tpb() {
        match spec_port_kind(pins.get_n()) {
            Some(kind) => Some((kind, pins.get_bus())),
            None => None,
        }
    } else {
        None
    }
}

/// Classify the OUT strobe of one tick, if the pins carry one.
pub fn output_strobe(pins: &crate::cdp1802::pins::Cdp1802Pins) -> (r: Option<(OutputKind, u8)>)
    ensures
        r == output_strobe_spec(*pins),
{
    if !pins.get_mrd() && pins.get_tpb() {
        let kind = match pins.get_n() {
            1 => Some(OutputKind::Io1),
            2 => Some(OutputKind::Io2),
            3 => Some(OutputKind::Io3),
            4 => Some(OutputKind::Io4),
            5 => Some(OutputKind::Io5),
            6 => Some(OutputKind::Io6),
            7 => Some(OutputKind::Io7),
            _ => None,
        };
        match kind {
            Some(kind) => Some((kind, pins.get_bus())),
            None => None,
        }
    } else {
        None
    }
}

/// The Q event a tick produces: `Some` exactly when the Q line differs
/// from `prev_q`, carrying the new level as 0 or 1.
pub open spec fn q_event_spec(pins: crate::cdp1802::pins::Cdp1802Pins, prev_q: bool) -> Option<
    (OutputKind, u8),
> {
    if pins.get_q() != prev_q {
        Some(
            (
                OutputKind::Q,
                if pins.get_q() {
                    1u8
                } else {
                    0u8
                },
            ),
        )
    } else {
        None
    }
}

/// Classify the Q transition of one tick, if the level moved.
pub fn q_event(pins: &crate::cdp1802::pins::Cdp1802Pins, prev_q: bool) -> (r: Option<
    (OutputKind, u8),
>)
    ensures
        r == q_event_spec(*pins, prev_q),
{
    if pins.get_q() != prev_q {
        Some(
            (
                OutputKind::Q,
                if pins.get_q() {
                    1u8
                } else {
                    0u8
                },
            ),
        )
    } else {
        None
    }
}

} // verus!
