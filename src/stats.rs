use vstd::prelude::*;

verus! {

/// The four counters of one forwarding session, as mathematical values.
pub struct StatsView {
    pub active: nat,
    pub total: nat,
    pub sent: nat,
    pub received: nat,
}

/// Counters of a freshly created session.
pub open spec fn fresh_stats() -> StatsView {
    StatsView { active: 0, total: 0, sent: 0, received: 0 }
}

/// Effect of one accepted connection.
pub open spec fn after_open(v: StatsView) -> StatsView {
    StatsView { active: v.active + 1, total: v.total + 1, ..v }
}

/// Effect of one connection that finished.
pub open spec fn after_close(v: StatsView) -> StatsView {
    StatsView { active: (v.active - 1) as nat, ..v }
}

/// `a + b`, held at the largest `u64`.
pub open spec fn saturating(a: nat, b: nat) -> nat {
    if a + b > u64::MAX {
        u64::MAX as nat
    } else {
        a + b
    }
}

/// How one proxied connection ended.
#[derive(Clone, Copy, Debug, PartialEq, Eq, Structural)]
pub enum ProxyOutcome {
    /// The tunnel to the pod could not be opened.
    TunnelFailed,
    /// Both copy directions ended, with the bytes each relayed: `sent`
    /// from the local client to the pod, `received` back. Bytes relayed
    /// before an I/O error count too.
    Copied { sent: u64, received: u64 },
}

/// The byte counters after both copy directions were accounted.
pub open spec fn with_copied(v: StatsView, o: ProxyOutcome) -> StatsView {
    match o {
        ProxyOutcome::Copied { sent, received } => StatsView {
            sent: saturating(v.sent, sent as nat),
            received: saturating(v.received, received as nat),
            ..v
        },
        ProxyOutcome::TunnelFailed => v,
    }
}

/// Effect of one connection that finished with the given outcome.
pub open spec fn after_finish(v: StatsView, o: ProxyOutcome) -> StatsView {
    after_close(with_copied(v, o))
}

/// One accounting event of a session.
pub enum ConnEvent {
    Opened,
    Finished(ProxyOutcome),
}

pub open spec fn step(v: StatsView, e: ConnEvent) -> StatsView {
    match e {
        ConnEvent::Opened => after_open(v),
        ConnEvent::Finished(o) => after_finish(v, o),
    }
}

/// The counters after the events, in order, starting from `v`.
pub open spec fn replay(v: StatsView, evs: Seq<ConnEvent>) -> StatsView
    decreases evs.len(),
{
    if evs.len() == 0 {
        v
    } else {
        step(replay(v, evs.drop_last()), evs.last())
    }
}

pub open spec fn count_opened(evs: Seq<ConnEvent>) -> nat
    decreases evs.len(),
{
    if evs.len() == 0 {
        0
    } else {
        count_opened(evs.drop_last()) + if evs.last() is Opened { 1nat } else { 0nat }
    }
}

pub open spec fn count_finished(evs: Seq<ConnEvent>) -> nat
    decreases evs.len(),
{
    if evs.len() == 0 {
        0
    } else {
        count_finished(evs.drop_last()) + if evs.last() is Finished { 1nat } else { 0nat }
    }
}

/// No connection finishes before it was accepted: in every prefix, at most
/// as many finish events as accept events.
pub open spec fn finishes_follow_opens(evs: Seq<ConnEvent>) -> bool {
    forall|k: int| 0 <= k <= evs.len() ==> count_finished(#[trigger] evs.subrange(0, k)) <= count_opened(evs.subrange(0, k))
}

/// Accounting is conserved: along any run in which connections finish only
/// after they were accepted, `total` counts the accepted connections and
/// `active` those not yet finished. So once all of N accepted connections
/// have finished, `active` is back to 0 and `total` is N.
pub proof fn lemma_accounting_conserved(evs: Seq<ConnEvent>)
    requires
        finishes_follow_opens(evs),
    ensures
        replay(fresh_stats(), evs).total == count_opened(evs),
        replay(fresh_stats(), evs).active == count_opened(evs) - count_finished(evs),
        count_finished(evs) == count_opened(evs) ==> replay(fresh_stats(), evs).active == 0,
    decreases evs.len(),
{
    if evs.len() > 0 {
        let pre = evs.drop_last();
        assert forall|k: int| 0 <= k <= pre.len() implies count_finished(#[trigger] pre.subrange(0, k))
            <= count_opened(pre.subrange(0, k)) by {
            assert(pre.subrange(0, k) =~= evs.subrange(0, k));
        }
        lemma_accounting_conserved(pre);
        assert(evs.subrange(0, evs.len() as int) =~= evs);
    }
}

/// Traffic counters of one forwarding session.
pub struct ForwardStats {
    active_connections: u64,
    total_connections: u64,
    bytes_sent: u64,
    bytes_received: u64,
}

impl View for ForwardStats {
    type V = StatsView;

    closed spec fn view(&self) -> StatsView {
        StatsView {
            active: self.active_connections as nat,
            total: self.total_connections as nat,
            sent: self.bytes_sent as nat,
            received: self.bytes_received as nat,
        }
    }
}

impl ForwardStats {
    /// Every open connection was counted when it was accepted.
    pub open spec fn wf(&self) -> bool {
        &&& self@.active <= self@.total
        &&& self@.total <= u64::MAX
        &&& self@.sent <= u64::MAX
        &&& self@.received <= u64::MAX
    }

    pub fn new() -> (r: ForwardStats)
        ensures
            r@ == fresh_stats(),
            r.wf(),
    {
        ForwardStats { active_connections: 0, total_connections: 0, bytes_sent: 0, bytes_received: 0 }
    }

    /// Counts a connection that was just accepted.
    pub fn connection_opened(&mut self)
        requires
            old(self).wf(),
            old(self)@.total < u64::MAX,
        ensures
            final(self)@ == after_open(old(self)@),
            final(self).wf(),
    {
        self.active_connections = self.active_connections + 1;
        self.total_connections = self.total_connections + 1;
    }

    /// Counts the end of a connection that `connection_opened` counted.
    pub fn connection_closed(&mut self)
        requires
            old(self).wf(),
            old(self)@.active > 0,
        ensures
            final(self)@ == after_close(old(self)@),
            final(self).wf(),
    {
        self.active_connections = self.active_connections - 1;
    }

    pub fn add_bytes_sent(&mut self, bytes: u64)
        requires
            old(self).wf(),
        ensures
            final(self)@ == (StatsView { sent: saturating(old(self)@.sent, bytes as nat), ..old(self)@ }),
            final(self).wf(),
    {
        self.bytes_sent = self.bytes_sent.saturating_add(bytes);
    }

    pub fn add_bytes_received(&mut self, bytes: u64)
        requires
            old(self).wf(),
        ensures
            final(self)@ == (StatsView { received: saturating(old(self)@.received, bytes as nat), ..old(self)@ }),
            final(self).wf(),
    {
        self.bytes_received = self.bytes_received.saturating_add(bytes);
    }

    /// Accounts a connection that ended: the bytes relayed in each
    /// direction, then the end of the connection, exactly once.
    pub fn connection_finished(&mut self, outcome: ProxyOutcome)
        requires
            old(self).wf(),
            old(self)@.active > 0,
        ensures
            final(self)@ == after_finish(old(self)@, outcome),
            final(self).wf(),
    {
        match outcome {
            ProxyOutcome::Copied { sent, received } => {
                self.add_bytes_sent(sent);
                self.add_bytes_received(received);
            },
            ProxyOutcome::TunnelFailed => {},
        }
        self.connection_closed();
    }

    /// `(active, total, sent, received)` at this moment.
    pub fn snapshot(&self) -> (r: (u64, u64, u64, u64))
        ensures
            r.0 as nat == self@.active,
            r.1 as nat == self@.total,
            r.2 as nat == self@.sent,
            r.3 as nat == self@.received,
    {
        (self.active_connections, self.total_connections, self.bytes_sent, self.bytes_received)
    }
}

} // verus!
