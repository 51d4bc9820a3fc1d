use vstd::prelude::*;
use crate::forward::{
    ForwardError, PortForwardInfo, PortForwardStatus, PortHolder, ResourceType, is_live,
    legal_transition,
};
use crate::stats::{ForwardStats, ProxyOutcome, StatsView, after_finish, after_open, fresh_stats};

verus! {

/// One session of the registry: its description, its counters, and the
/// handle through which its runner is told to stop.
pub struct ActiveForward<H> {
    pub info: PortForwardInfo,
    pub stats: ForwardStats,
    pub shutdown: H,
}

/// The registry of forwarding sessions, in the order they were started.
pub struct PortForwardManager<H> {
    forwards: Vec<ActiveForward<H>>,
}

impl<H> View for PortForwardManager<H> {
    type V = Seq<ActiveForward<H>>;

    closed spec fn view(&self) -> Seq<ActiveForward<H>> {
        self.forwards@
    }
}

pub open spec fn has_id<H>(s: Seq<ActiveForward<H>>, id: Seq<char>) -> bool {
    exists|i: int| 0 <= i < s.len() && (#[trigger] s[i]).info.id@ == id
}

/// Some live session of `s` holds local port `port`.
pub open spec fn holds_port<H>(s: Seq<ActiveForward<H>>, port: u16) -> bool {
    exists|i: int| 0 <= i < s.len() && (#[trigger] s[i]).info.local_port == port && is_live(s[i].info.status)
}

pub open spec fn unique_ids<H>(s: Seq<ActiveForward<H>>) -> bool {
    forall|i: int, j: int| 0 <= i < s.len() && 0 <= j < s.len() && i != j ==> (#[trigger] s[i]).info.id@ != (#[trigger] s[j]).info.id@
}

/// No two live sessions share a local port.
pub open spec fn ports_exclusive<H>(s: Seq<ActiveForward<H>>) -> bool {
    forall|i: int, j: int|
        0 <= i < s.len() && 0 <= j < s.len() && i != j && is_live((#[trigger] s[i]).info.status) && is_live((#[trigger] s[j]).info.status)
            ==> s[i].info.local_port != s[j].info.local_port
}

pub open spec fn registry_wf<H>(s: Seq<ActiveForward<H>>) -> bool {
    &&& unique_ids(s)
    &&& ports_exclusive(s)
    &&& forall|i: int| 0 <= i < s.len() ==> (#[trigger] s[i]).stats.wf()
}

/// The description of a session with its live counters merged in.
pub open spec fn with_counters(info: PortForwardInfo, v: StatsView) -> PortForwardInfo {
    PortForwardInfo {
        active_connections: v.active as u64,
        total_connections: v.total as u64,
        bytes_sent: v.sent as u64,
        bytes_received: v.received as u64,
        ..info
    }
}

/// The session `f` with status `st`.
pub open spec fn with_status<H>(f: ActiveForward<H>, st: PortForwardStatus) -> ActiveForward<H> {
    ActiveForward { info: PortForwardInfo { status: st, ..f.info }, ..f }
}

/// The status a session takes when its runner ends: `Stopped` after a
/// clean end of an active session, `Error` after a failure of a live one;
/// any other status stays.
pub open spec fn finish_status(s: PortForwardStatus, clean: bool) -> PortForwardStatus {
    if clean {
        if s is Active {
            PortForwardStatus::Stopped
        } else {
            s
        }
    } else if is_live(s) {
        PortForwardStatus::Error
    } else {
        s
    }
}

/// `f` is `g` with other counters.
pub open spec fn same_but_stats<H>(f: ActiveForward<H>, g: ActiveForward<H>) -> bool {
    f.info == g.info && f.shutdown == g.shutdown
}

/// Every session of `b` kept its status or made a legal transition.
pub open spec fn transitions_legal<H>(a: Seq<ActiveForward<H>>, b: Seq<ActiveForward<H>>) -> bool {
    &&& a.len() == b.len()
    &&& forall|i: int|
        0 <= i < a.len() ==> (#[trigger] b[i]).info.status == a[i].info.status
            || legal_transition(a[i].info.status, b[i].info.status)
}

/// The description of a session that was just registered.
pub open spec fn starting_info(
    id: String,
    context: String,
    namespace: String,
    resource_type: ResourceType,
    resource_name: String,
    pod_name: String,
    local_port: u16,
    remote_port: u16,
) -> PortForwardInfo {
    PortForwardInfo {
        id,
        context,
        namespace,
        resource_type,
        resource_name,
        pod_name,
        local_port,
        remote_port,
        status: PortForwardStatus::Starting,
        active_connections: 0,
        total_connections: 0,
        bytes_sent: 0,
        bytes_received: 0,
    }
}

/// Relies on uuid's Uuid::new_v4 and its Display form: a random id in the
/// hyphenated form, 36 characters long.
#[verifier::external_body]
fn new_forward_id() -> (r: String)
    ensures
        r@.len() == 36,
{
    uuid::Uuid::new_v4().to_string()
}

impl<H> PortForwardManager<H> {
    pub open spec fn wf(&self) -> bool {
        registry_wf(self@)
    }

    pub fn new() -> (r: PortForwardManager<H>)
        ensures
            r@ == Seq::<ActiveForward<H>>::empty(),
            r.wf(),
    {
        PortForwardManager { forwards: Vec::new() }
    }

    /// The position of the session with this id.
    pub fn find(&self, id: &String) -> (r: Option<usize>)
        ensures
            match r {
                Some(i) => i < self@.len() && self@[i as int].info.id@ == id@,
                None => !has_id(self@, id@),
            },
    {
        let mut i: usize = 0;
        while i < self.forwards.len()
            invariant
                i <= self.forwards.len(),
                forall|j: int| 0 <= j < i ==> (#[trigger] self.forwards@[j]).info.id@ != id@,
            decreases self.forwards.len() - i,
        {
            if self.forwards[i].info.id == *id {
                return Some(i);
            }
            i = i + 1;
        }
        None
    }

    /// Whether a live session of this registry holds `local_port`.
    pub fn is_port_forwarded(&self, local_port: u16) -> (r: bool)
        ensures
            r == holds_port(self@, local_port),
    {
        let mut i: usize = 0;
        while i < self.forwards.len()
            invariant
                i <= self.forwards.len(),
                forall|j: int| 0 <= j < i ==> !((#[trigger] self.forwards@[j]).info.local_port == local_port && is_live(self.forwards@[j].info.status)),
            decreases self.forwards.len() - i,
        {
            let st = self.forwards[i].info.status;
            if self.forwards[i].info.local_port == local_port && (st == PortForwardStatus::Starting || st == PortForwardStatus::Active) {
                return true;
            }
            i = i + 1;
        }
        false
    }

    /// The checks before a forward starts: the port must not be held by a
    /// live session here, and must be free on the machine (`os_free`, the
    /// outcome of a bind-and-release probe).
    pub fn check_local_port(&self, local_port: u16, os_free: bool) -> (r: Result<(), ForwardError>)
        ensures
            r == if holds_port(self@, local_port) {
                Err(ForwardError::PortInUse(local_port, PortHolder::ThisRegistry))
            } else if !os_free {
                Err(ForwardError::PortInUse(local_port, PortHolder::OtherProcess))
            } else {
                Ok::<(), ForwardError>(())
            },
    {
        if self.is_port_forwarded(local_port) {
            Err(ForwardError::PortInUse(local_port, PortHolder::ThisRegistry))
        } else if !os_free {
            Err(ForwardError::PortInUse(local_port, PortHolder::OtherProcess))
        } else {
            Ok(())
        }
    }
}

impl<H> PortForwardManager<H> {
    /// Registers a session in `Starting` status, with fresh counters and the
    /// handle that stops its runner, unless a live session holds
    /// `local_port`. A session that had the same id is replaced.
    pub fn insert_forward(
        &mut self,
        id: String,
        context: String,
        namespace: String,
        resource_type: ResourceType,
        resource_name: String,
        pod_name: String,
        local_port: u16,
        remote_port: u16,
        shutdown: H,
    ) -> (r: Result<PortForwardInfo, ForwardError>)
        requires
            old(self).wf(),
        ensures
            final(self).wf(),
            holds_port(old(self)@, local_port) ==> {
                &&& r == Err::<PortForwardInfo, ForwardError>(ForwardError::PortInUse(local_port, PortHolder::ThisRegistry))
                &&& final(self)@ == old(self)@
            },
            !holds_port(old(self)@, local_port) ==> {
                let info = starting_info(id, context, namespace, resource_type, resource_name, pod_name, local_port, remote_port);
                &&& r == Ok::<PortForwardInfo, ForwardError>(info)
                &&& final(self)@.len() > 0
                &&& final(self)@.last().info == info
                &&& final(self)@.last().stats@ == fresh_stats()
                &&& final(self)@.last().shutdown == shutdown
                &&& if has_id(old(self)@, id@) {
                    exists|i: int| 0 <= i < old(self)@.len() && old(self)@[i].info.id@ == id@ && final(self)@.drop_last() == old(self)@.remove(i)
                } else {
                    final(self)@.drop_last() == old(self)@
                }
            },
    {
        if self.is_port_forwarded(local_port) {
            return Err(ForwardError::PortInUse(local_port, PortHolder::ThisRegistry));
        }
        let ghost s0 = self@;
        match self.find(&id) {
            Some(i) => {
                let _replaced = self.forwards.remove(i);
                assert(self@ == s0.remove(i as int));
            },
            None => {},
        }
        let ghost s1 = self@;
        assert forall|k: int| 0 <= k < s1.len() implies (#[trigger] s1[k]).info.id@ != id@
            && !(s1[k].info.local_port == local_port && is_live(s1[k].info.status))
            && exists|j: int| 0 <= j < s0.len() && s0[j] == s1[k] by {
            if s1.len() < s0.len() {
                let i = choose|i: int| 0 <= i < s0.len() && s0[i].info.id@ == id@ && s1 == s0.remove(i);
                if k < i {
                    assert(s1[k] == s0[k]);
                } else {
                    assert(s1[k] == s0[k + 1]);
                }
            } else {
                assert(s1[k] == s0[k]);
            }
        }
        let info = PortForwardInfo {
            id,
            context,
            namespace,
            resource_type,
            resource_name,
            pod_name,
            local_port,
            remote_port,
            status: PortForwardStatus::Starting,
            active_connections: 0,
            total_connections: 0,
            bytes_sent: 0,
            bytes_received: 0,
        };
        let ret = info.duplicate();
        self.forwards.push(ActiveForward { info, stats: ForwardStats::new(), shutdown });
        proof {
            let s2 = self@;
            assert(s2.drop_last() =~= s1);
            assert forall|a: int, b: int| 0 <= a < s2.len() && 0 <= b < s2.len() && a != b implies (#[trigger] s2[a]).info.id@ != (#[trigger] s2[b]).info.id@ by {
                if a < s1.len() && b < s1.len() {
                    let ja = choose|j: int| 0 <= j < s0.len() && s0[j] == s1[a];
                    let jb = choose|j: int| 0 <= j < s0.len() && s0[j] == s1[b];
                    if s1.len() < s0.len() {
                        let i = choose|i: int| 0 <= i < s0.len() && s0[i].info.id@ == id@ && s1 == s0.remove(i);
                        assert(s1[a] == s0[if a < i { a } else { a + 1 }]);
                        assert(s1[b] == s0[if b < i { b } else { b + 1 }]);
                    } else {
                        assert(s1[a] == s0[a] && s1[b] == s0[b]);
                    }
                }
            }
            assert forall|a: int, b: int|
                0 <= a < s2.len() && 0 <= b < s2.len() && a != b && is_live((#[trigger] s2[a]).info.status) && is_live((#[trigger] s2[b]).info.status)
                implies s2[a].info.local_port != s2[b].info.local_port by {
                if a < s1.len() && b < s1.len() {
                    if s1.len() < s0.len() {
                        let i = choose|i: int| 0 <= i < s0.len() && s0[i].info.id@ == id@ && s1 == s0.remove(i);
                        assert(s1[a] == s0[if a < i { a } else { a + 1 }]);
                        assert(s1[b] == s0[if b < i { b } else { b + 1 }]);
                    } else {
                        assert(s1[a] == s0[a] && s1[b] == s0[b]);
                    }
                }
            }
            assert forall|k: int| 0 <= k < s2.len() implies (#[trigger] s2[k]).stats.wf() by {
                if k < s1.len() {
                    let j = choose|j: int| 0 <= j < s0.len() && s0[j] == s1[k];
                }
            }
        }
        Ok(ret)
    }

    /// Starts a forward in the registry under a fresh random id; see
    /// `insert_forward`.
    pub fn start_forward(
        &mut self,
        context: String,
        namespace: String,
        resource_type: ResourceType,
        resource_name: String,
        pod_name: String,
        local_port: u16,
        remote_port: u16,
        shutdown: H,
    ) -> (r: Result<PortForwardInfo, ForwardError>)
        requires
            old(self).wf(),
        ensures
            final(self).wf(),
            holds_port(old(self)@, local_port) ==> {
                &&& r == Err::<PortForwardInfo, ForwardError>(ForwardError::PortInUse(local_port, PortHolder::ThisRegistry))
                &&& final(self)@ == old(self)@
            },
            !holds_port(old(self)@, local_port) ==> {
                &&& r is Ok
                &&& r->Ok_0.id@.len() == 36
                &&& r->Ok_0 == starting_info(r->Ok_0.id, context, namespace, resource_type, resource_name, pod_name, local_port, remote_port)
                &&& final(self)@.len() > 0
                &&& final(self)@.last().info == r->Ok_0
                &&& final(self)@.last().stats@ == fresh_stats()
                &&& final(self)@.last().shutdown == shutdown
                &&& if has_id(old(self)@, r->Ok_0.id@) {
                    exists|i: int|
                        0 <= i < old(self)@.len() && old(self)@[i].info.id@ == r->Ok_0.id@ && final(self)@.drop_last()
                            == old(self)@.remove(i)
                } else {
                    final(self)@.drop_last() == old(self)@
                }
            },
    {
        let id = new_forward_id();
        self.insert_forward(id, context, namespace, resource_type, resource_name, pod_name, local_port, remote_port, shutdown)
    }
}

impl<H> PortForwardManager<H> {
    /// The runner of session `id` bound its listener: a `Starting` session
    /// becomes `Active`. Nothing else changes.
    pub fn mark_active(&mut self, id: &String)
        requires
            old(self).wf(),
        ensures
            final(self).wf(),
            transitions_legal(old(self)@, final(self)@),
            final(self)@.len() == old(self)@.len(),
            forall|i: int|
                0 <= i < old(self)@.len() ==> #[trigger] final(self)@[i] == if old(self)@[i].info.id@ == id@
                    && old(self)@[i].info.status is Starting {
                    with_status(old(self)@[i], PortForwardStatus::Active)
                } else {
                    old(self)@[i]
                },
    {
        match self.find(id) {
            Some(i) => {
                if self.forwards[i].info.status == PortForwardStatus::Starting {
                    self.forwards[i].info.status = PortForwardStatus::Active;
                }
            },
            None => {},
        }
    }

    /// The runner of session `id` ended, cleanly or not: the session takes
    /// `finish_status`. Nothing else changes.
    pub fn mark_finished(&mut self, id: &String, clean: bool)
        requires
            old(self).wf(),
        ensures
            final(self).wf(),
            transitions_legal(old(self)@, final(self)@),
            final(self)@.len() == old(self)@.len(),
            forall|i: int|
                0 <= i < old(self)@.len() ==> #[trigger] final(self)@[i] == if old(self)@[i].info.id@ == id@ {
                    with_status(old(self)@[i], finish_status(old(self)@[i].info.status, clean))
                } else {
                    old(self)@[i]
                },
    {
        match self.find(id) {
            Some(i) => {
                let st = self.forwards[i].info.status;
                if clean {
                    if st == PortForwardStatus::Active {
                        self.forwards[i].info.status = PortForwardStatus::Stopped;
                    }
                } else if st == PortForwardStatus::Starting || st == PortForwardStatus::Active {
                    self.forwards[i].info.status = PortForwardStatus::Error;
                }
            },
            None => {},
        }
    }

    /// Counts a connection accepted by session `id`. Returns whether it was
    /// counted: the session exists and its total is below the largest `u64`.
    pub fn record_connection_opened(&mut self, id: &String) -> (r: bool)
        requires
            old(self).wf(),
        ensures
            final(self).wf(),
            final(self)@.len() == old(self)@.len(),
            r == exists|i: int| 0 <= i < old(self)@.len() && (#[trigger] old(self)@[i]).info.id@ == id@ && old(self)@[i].stats@.total < u64::MAX,
            forall|i: int|
                0 <= i < old(self)@.len() ==> if old(self)@[i].info.id@ == id@ && old(self)@[i].stats@.total < u64::MAX {
                    same_but_stats(#[trigger] final(self)@[i], old(self)@[i]) && final(self)@[i].stats@ == after_open(old(self)@[i].stats@)
                } else {
                    final(self)@[i] == old(self)@[i]
                },
    {
        match self.find(id) {
            Some(i) => {
                if self.forwards[i].stats.snapshot().1 < u64::MAX {
                    self.forwards[i].stats.connection_opened();
                    true
                } else {
                    false
                }
            },
            None => false,
        }
    }

    /// Accounts the end of a connection of session `id`: the bytes it
    /// relayed each way, then one connection less. A session
    /// that is gone, or that counts no open connection, is left alone.
    pub fn record_connection_finished(&mut self, id: &String, outcome: ProxyOutcome)
        requires
            old(self).wf(),
        ensures
            final(self).wf(),
            final(self)@.len() == old(self)@.len(),
            forall|i: int|
                0 <= i < old(self)@.len() ==> if old(self)@[i].info.id@ == id@ && old(self)@[i].stats@.active > 0 {
                    same_but_stats(#[trigger] final(self)@[i], old(self)@[i]) && final(self)@[i].stats@ == after_finish(old(self)@[i].stats@, outcome)
                } else {
                    final(self)@[i] == old(self)@[i]
                },
    {
        match self.find(id) {
            Some(i) => {
                if self.forwards[i].stats.snapshot().0 > 0 {
                    self.forwards[i].stats.connection_finished(outcome);
                }
            },
            None => {},
        }
    }

    /// Every session, with its counters as they stand now.
    pub fn list_forwards(&self) -> (r: Vec<PortForwardInfo>)
        requires
            self.wf(),
        ensures
            r.len() == self@.len(),
            forall|i: int| 0 <= i < r.len() ==> #[trigger] r@[i] == with_counters(self@[i].info, self@[i].stats@),
    {
        let mut out: Vec<PortForwardInfo> = Vec::new();
        let mut i: usize = 0;
        while i < self.forwards.len()
            invariant
                i <= self.forwards.len(),
                out.len() == i,
                forall|k: int| 0 <= k < i ==> #[trigger] out@[k] == with_counters(self@[k].info, self@[k].stats@),
            decreases self.forwards.len() - i,
        {
            let f = &self.forwards[i];
            let (active, total, sent, received) = f.stats.snapshot();
            let mut info = f.info.duplicate();
            info.active_connections = active;
            info.total_connections = total;
            info.bytes_sent = sent;
            info.bytes_received = received;
            out.push(info);
            i = i + 1;
        }
        out
    }

    /// Takes session `id` out of the registry and hands back the handle
    /// that stops its runner; an unknown id is `NotFound`.
    pub fn stop_forward(&mut self, id: &String) -> (r: Result<H, ForwardError>)
        requires
            old(self).wf(),
        ensures
            final(self).wf(),
            r is Ok <==> has_id(old(self)@, id@),
            match r {
                Ok(h) => exists|i: int|
                    0 <= i < old(self)@.len() && old(self)@[i].info.id@ == id@ && h == old(self)@[i].shutdown && final(self)@ == old(self)@.remove(i),
                Err(e) => e == ForwardError::NotFound(*id) && final(self)@ == old(self)@,
            },
    {
        match self.find(id) {
            Some(i) => {
                let ghost s0 = self@;
                let f = self.forwards.remove(i);
                proof {
                    lemma_remove_keeps_wf(s0, i as int);
                }
                Ok(f.shutdown)
            },
            None => Err(ForwardError::NotFound(id.clone())),
        }
    }

    /// Takes every session out of the registry and hands back their stop
    /// handles, in the registry's order.
    pub fn stop_all(&mut self) -> (r: Vec<H>)
        requires
            old(self).wf(),
        ensures
            final(self).wf(),
            final(self)@.len() == 0,
            r.len() == old(self)@.len(),
            old(self)@.len() == 0 ==> final(self)@ == old(self)@ && r@.len() == 0,
            forall|i: int| 0 <= i < r.len() ==> #[trigger] r@[i] == old(self)@[i].shutdown,
    {
        let ghost s0 = self@;
        let mut handles: Vec<H> = Vec::new();
        while self.forwards.len() > 0
            invariant
                handles.len() + self.forwards.len() == s0.len(),
                self.forwards@ == s0.subrange(handles.len() as int, s0.len() as int),
                forall|i: int| 0 <= i < handles.len() ==> #[trigger] handles@[i] == s0[i].shutdown,
            decreases self.forwards.len(),
        {
            let f = self.forwards.remove(0);
            proof {
                assert(f == s0[handles.len() as int]);
                assert(self.forwards@ =~= s0.subrange(handles.len() + 1, s0.len() as int));
            }
            handles.push(f.shutdown);
        }
        handles
    }
}

/// Taking a session out keeps the registry well formed.
proof fn lemma_remove_keeps_wf<H>(s: Seq<ActiveForward<H>>, i: int)
    requires
        registry_wf(s),
        0 <= i < s.len(),
    ensures
        registry_wf(s.remove(i)),
{
    let t = s.remove(i);
    assert forall|k: int| 0 <= k < t.len() implies #[trigger] t[k] == s[if k < i { k } else { k + 1 }] by {}
}

/// Mutual exclusion of local ports: in a well-formed registry, the state
/// that every operation keeps, at most one `Starting` or `Active` session
/// holds a given local port; and while one does, the port counts as held,
/// so every further start on it is refused with `PortInUse`.
pub proof fn lemma_port_mutual_exclusion<H>(s: Seq<ActiveForward<H>>, port: u16)
    requires
        registry_wf(s),
    ensures
        forall|i: int, j: int|
            0 <= i < s.len() && 0 <= j < s.len() && (#[trigger] s[i]).info.local_port == port && (#[trigger] s[j]).info.local_port == port
                && is_live(s[i].info.status) && is_live(s[j].info.status) ==> i == j,
        forall|i: int| 0 <= i < s.len() && (#[trigger] s[i]).info.local_port == port && is_live(s[i].info.status) ==> holds_port(s, port),
{
}

/// Stopping is idempotent in effect: once session `id` was taken out (the
/// registry became `s.remove(i)`), the id is unknown, so a second stop is
/// `NotFound`, and the registry stays well formed.
pub proof fn lemma_stop_twice<H>(s: Seq<ActiveForward<H>>, i: int, id: Seq<char>)
    requires
        registry_wf(s),
        0 <= i < s.len(),
        s[i].info.id@ == id,
    ensures
        !has_id(s.remove(i), id),
        registry_wf(s.remove(i)),
{
    lemma_remove_keeps_wf(s, i);
    let t = s.remove(i);
    assert forall|k: int| 0 <= k < t.len() implies (#[trigger] t[k]).info.id@ != id by {
        assert(t[k] == s[if k < i { k } else { k + 1 }]);
    }
}

} // verus!
