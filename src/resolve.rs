use vstd::prelude::*;
use crate::forward::{AvailablePort, ForwardError, clone_opt};
use vstd::string::StringExecFns;

verus! {

/// A port that a container of a pod declares.
#[derive(Clone, Debug)]
pub struct PortDecl {
    pub name: Option<String>,
    pub container_port: i32,
    pub protocol: Option<String>,
}

/// What resolution reads of a pod: its name, its status phase, and the
/// ports declared by its containers, container after container.
#[derive(Clone, Debug)]
pub struct PodSummary {
    pub name: Option<String>,
    pub phase: Option<String>,
    pub ports: Vec<PortDecl>,
}

/// The pod-side port of a service port: a number or the name of a
/// container port.
#[derive(Clone, Debug)]
pub enum TargetPort {
    Number(i32),
    Named(String),
}

/// A port of a service.
#[derive(Clone, Debug)]
pub struct ServicePortDecl {
    pub name: Option<String>,
    pub port: i32,
    pub target_port: Option<TargetPort>,
    pub protocol: Option<String>,
}

pub open spec fn running_phase() -> Seq<char> {
    seq!['R', 'u', 'n', 'n', 'i', 'n', 'g']
}

pub open spec fn default_protocol() -> Seq<char> {
    seq!['T', 'C', 'P']
}

/// A pod that a forward may go to: it has a name and runs.
pub open spec fn is_running(p: PodSummary) -> bool {
    &&& p.name is Some
    &&& p.phase is Some
    &&& p.phase->0@ == running_phase()
}

/// The first pod of the list that runs, in the list's own order.
pub open spec fn is_first_running(pods: Seq<PodSummary>, i: int) -> bool {
    &&& 0 <= i < pods.len()
    &&& is_running(pods[i])
    &&& forall|j: int| 0 <= j < i ==> !is_running(#[trigger] pods[j])
}

/// Picks the pod a service forward goes to among the pods that match the
/// service's selector: the first one that is running.
pub fn pick_running_pod(service_name: &String, selector: &String, pods: &Vec<PodSummary>) -> (r: Result<
    String,
    ForwardError,
>)
    ensures
        match r {
            Ok(name) => exists|i: int| is_first_running(pods@, i) && name == pods@[i].name->0,
            Err(e) => (forall|i: int| 0 <= i < pods.len() ==> !is_running(#[trigger] pods@[i]))
                && e == ForwardError::NoRunningPod(*service_name, *selector),
        },
{
    let running = "Running".to_owned();
    proof {
        reveal_strlit("Running");
        assert(running@ =~= running_phase());
    }
    let mut i: usize = 0;
    while i < pods.len()
        invariant
            i <= pods.len(),
            running@ == running_phase(),
            forall|j: int| 0 <= j < i ==> !is_running(#[trigger] pods@[j]),
        decreases pods.len() - i,
    {
        let p = &pods[i];
        match (&p.phase, &p.name) {
            (Some(phase), Some(name)) => {
                if *phase == running {
                    assert(is_first_running(pods@, i as int));
                    return Ok(name.clone());
                }
            },
            _ => {},
        }
        i = i + 1;
    }
    Err(ForwardError::NoRunningPod(service_name.clone(), selector.clone()))
}

/// One equality term of a label query: `key=value`.
pub open spec fn label_term(l: (String, String)) -> Seq<char> {
    l.0@ + seq!['='] + l.1@
}

/// The label-equality query for a selector: its terms joined by commas.
pub open spec fn selector_query(labels: Seq<(String, String)>) -> Seq<char>
    decreases labels.len(),
{
    if labels.len() == 0 {
        Seq::empty()
    } else if labels.len() == 1 {
        label_term(labels[0])
    } else {
        selector_query(labels.drop_last()) + seq![','] + label_term(labels.last())
    }
}

/// Builds the label query `k1=v1,k2=v2,...` that lists a service's pods.
pub fn label_selector(labels: &Vec<(String, String)>) -> (r: String)
    ensures
        r@ == selector_query(labels@),
{
    let mut out = String::new();
    let mut i: usize = 0;
    while i < labels.len()
        invariant
            i <= labels.len(),
            out@ == selector_query(labels@.subrange(0, i as int)),
        decreases labels.len() - i,
    {
        proof {
            reveal_strlit(",");
            reveal_strlit("=");
        }
        if i > 0 {
            out.append(",");
        }
        out.append(labels[i].0.as_str());
        out.append("=");
        out.append(labels[i].1.as_str());
        proof {
            let s = labels@.subrange(0, i + 1);
            assert(s.drop_last() =~= labels@.subrange(0, i as int));
            assert(s.last() == labels@[i as int]);
            if i == 0 {
                assert(out@ =~= label_term(labels@[0]));
            } else {
                assert(out@ =~= selector_query(s.drop_last()) + seq![','] + label_term(s.last()));
            }
        }
        i = i + 1;
    }
    proof {
        assert(labels@.subrange(0, labels.len() as int) =~= labels@);
    }
    out
}

/// The label query of a service's selector; a service without a selector,
/// or with an empty one, has no pods to forward to.
pub fn service_selector(service_name: &String, selector: &Option<Vec<(String, String)>>) -> (r: Result<
    String,
    ForwardError,
>)
    ensures
        match selector {
            Some(labels) if labels.len() > 0 => r is Ok && r->Ok_0@ == selector_query(labels@),
            _ => r == Err::<String, ForwardError>(ForwardError::NoSelector(*service_name)),
        },
{
    match selector {
        Some(labels) => {
            if labels.len() > 0 {
                Ok(label_selector(labels))
            } else {
                Err(ForwardError::NoSelector(service_name.clone()))
            }
        },
        None => Err(ForwardError::NoSelector(service_name.clone())),
    }
}

pub open spec fn has_name(d: PortDecl, n: Seq<char>) -> bool {
    d.name is Some && d.name->0@ == n
}

/// The number of the first declared port with the given name.
pub open spec fn named_port(decls: Seq<PortDecl>, n: Seq<char>) -> Option<i32>
    decreases decls.len(),
{
    if decls.len() == 0 {
        None
    } else if has_name(decls[0], n) {
        Some(decls[0].container_port)
    } else {
        named_port(decls.drop_first(), n)
    }
}

/// The pod-side port that a service port forwards to. A named target is
/// looked up among the ports that a backing pod declares; without a match,
/// or without a target, the service's own port number stands.
pub open spec fn target_port_of(sp: ServicePortDecl, decls: Seq<PortDecl>) -> u16 {
    match sp.target_port {
        Some(TargetPort::Number(p)) => p as u16,
        Some(TargetPort::Named(n)) => match named_port(decls, n@) {
            Some(p) => p as u16,
            None => sp.port as u16,
        },
        None => sp.port as u16,
    }
}

pub open spec fn protocol_of(o: Option<String>) -> Seq<char> {
    match o {
        Some(p) => p@,
        None => default_protocol(),
    }
}

/// Finds the number of the first declared port called `name`.
pub fn find_named_port(decls: &Vec<PortDecl>, name: &String) -> (r: Option<i32>)
    ensures
        r == named_port(decls@, name@),
{
    let mut i: usize = 0;
    assert(decls@.subrange(0, decls.len() as int) =~= decls@);
    while i < decls.len()
        invariant
            i <= decls.len(),
            named_port(decls@, name@) == named_port(decls@.subrange(i as int, decls.len() as int), name@),
        decreases decls.len() - i,
    {
        let ghost rest = decls@.subrange(i as int, decls.len() as int);
        assert(rest[0] == decls@[i as int]);
        assert(rest.drop_first() =~= decls@.subrange(i + 1, decls.len() as int));
        match &decls[i].name {
            Some(n) => {
                if *n == *name {
                    return Some(decls[i].container_port);
                }
            },
            None => {},
        }
        i = i + 1;
    }
    None
}

/// The pod-side port of one service port.
pub fn resolve_target_port(sp: &ServicePortDecl, decls: &Vec<PortDecl>) -> (r: u16)
    ensures
        r == target_port_of(*sp, decls@),
{
    match &sp.target_port {
        Some(TargetPort::Number(p)) => *p as u16,
        Some(TargetPort::Named(n)) => match find_named_port(decls, n) {
            Some(p) => p as u16,
            None => sp.port as u16,
        },
        None => sp.port as u16,
    }
}

/// The protocol of a port, TCP where none is declared.
pub fn protocol_or_default(o: &Option<String>) -> (r: String)
    ensures
        r@ == protocol_of(*o),
{
    match o {
        Some(p) => p.clone(),
        None => {
            let t = "TCP".to_owned();
            proof {
                reveal_strlit("TCP");
                assert(t@ =~= default_protocol());
            }
            t
        },
    }
}

/// The forwardable ports of a service, in the service's order: each the
/// pod-side target port, resolved against `decls`, the ports that one
/// backing pod declares (empty where no pod was found).
pub fn service_ports(sps: &Vec<ServicePortDecl>, decls: &Vec<PortDecl>) -> (r: Vec<AvailablePort>)
    ensures
        r.len() == sps.len(),
        forall|k: int|
            0 <= k < r.len() ==> {
                &&& (#[trigger] r@[k]).port == target_port_of(sps@[k], decls@)
                &&& r@[k].name == sps@[k].name
                &&& r@[k].protocol@ == protocol_of(sps@[k].protocol)
            },
{
    let mut out: Vec<AvailablePort> = Vec::new();
    let mut i: usize = 0;
    while i < sps.len()
        invariant
            i <= sps.len(),
            out.len() == i,
            forall|k: int|
                0 <= k < i ==> {
                    &&& (#[trigger] out@[k]).port == target_port_of(sps@[k], decls@)
                    &&& out@[k].name == sps@[k].name
                    &&& out@[k].protocol@ == protocol_of(sps@[k].protocol)
                },
        decreases sps.len() - i,
    {
        let sp = &sps[i];
        let port = resolve_target_port(sp, decls);
        let name = clone_opt(&sp.name);
        let protocol = protocol_or_default(&sp.protocol);
        out.push(AvailablePort { port, name, protocol });
        i = i + 1;
    }
    out
}

/// The entry of `decls[i]` in a port list.
pub open spec fn lists_decl(a: AvailablePort, d: PortDecl) -> bool {
    &&& a.port == d.container_port as u16
    &&& a.name == d.name
    &&& a.protocol@ == protocol_of(d.protocol)
}

/// No earlier declaration has the same port number.
pub open spec fn first_of_its_port(decls: Seq<PortDecl>, i: int) -> bool {
    forall|j: int| 0 <= j < i ==> (#[trigger] decls[j]).container_port as u16 != decls[i].container_port as u16
}

/// The ports of `r` rise strictly.
pub open spec fn strictly_sorted(r: Seq<AvailablePort>) -> bool {
    forall|a: int, b: int| 0 <= a < b < r.len() ==> (#[trigger] r[a]).port < (#[trigger] r[b]).port
}

/// `a` lists a declaration among the first `upto` that is the first of its
/// number.
pub open spec fn from_first_decl(a: AvailablePort, decls: Seq<PortDecl>, upto: int) -> bool {
    exists|i: int| 0 <= i < upto && first_of_its_port(decls, i) && #[trigger] lists_decl(a, decls[i])
}

pub open spec fn port_listed(r: Seq<AvailablePort>, port: u16) -> bool {
    exists|k: int| 0 <= k < r.len() && (#[trigger] r[k]).port == port
}

/// The port list of the first `upto` declarations, as `pod_ports` returns
/// it: sorted by number, with one entry per number, the first declaration
/// of that number.
pub open spec fn is_port_list_of(r: Seq<AvailablePort>, decls: Seq<PortDecl>, upto: int) -> bool {
    &&& strictly_sorted(r)
    &&& forall|k: int| 0 <= k < r.len() ==> from_first_decl(#[trigger] r[k], decls, upto)
    &&& forall|i: int| 0 <= i < upto ==> port_listed(r, (#[trigger] decls[i]).container_port as u16)
}

proof fn lemma_port_list_skip(out: Seq<AvailablePort>, decls: Seq<PortDecl>, i: int, pos: int)
    requires
        0 <= i < decls.len(),
        0 <= pos < out.len(),
        out[pos].port == decls[i].container_port as u16,
        is_port_list_of(out, decls, i),
    ensures
        is_port_list_of(out, decls, i + 1),
{
    assert forall|k: int| 0 <= k < out.len() implies from_first_decl(#[trigger] out[k], decls, i + 1) by {
        assert(from_first_decl(out[k], decls, i));
        let w = choose|w: int| 0 <= w < i && first_of_its_port(decls, w) && #[trigger] lists_decl(out[k], decls[w]);
        assert(lists_decl(out[k], decls[w]));
    }
    assert forall|j: int| 0 <= j < i + 1 implies port_listed(out, (#[trigger] decls[j]).container_port as u16) by {
        if j == i {
            assert(out[pos].port == decls[j].container_port as u16);
        }
    }
}

proof fn lemma_port_list_insert(out: Seq<AvailablePort>, decls: Seq<PortDecl>, i: int, pos: int, entry: AvailablePort)
    requires
        0 <= i < decls.len(),
        0 <= pos <= out.len(),
        forall|k: int| 0 <= k < pos ==> (#[trigger] out[k]).port < entry.port,
        pos < out.len() ==> out[pos].port > entry.port,
        lists_decl(entry, decls[i]),
        is_port_list_of(out, decls, i),
    ensures
        is_port_list_of(out.insert(pos, entry), decls, i + 1),
{
    assert forall|j: int| 0 <= j < i implies (#[trigger] decls[j]).container_port as u16 != decls[i].container_port as u16 by {
        assert(port_listed(out, decls[j].container_port as u16));
        let k = choose|k: int| 0 <= k < out.len() && (#[trigger] out[k]).port == decls[j].container_port as u16;
        if k > pos {
            assert(out[pos].port < out[k].port);
        }
    }
    assert(first_of_its_port(decls, i));
    let n = out.insert(pos, entry);
    assert forall|a: int, b: int| 0 <= a < b < n.len() implies (#[trigger] n[a]).port < (#[trigger] n[b]).port by {
        if b > pos {
            assert(n[b] == out[b - 1]);
            if b - 1 > pos {
                assert(out[pos].port < out[b - 1].port);
            }
        }
        if a > pos {
            assert(n[a] == out[a - 1]);
        }
    }
    assert forall|k: int| 0 <= k < n.len() implies from_first_decl(#[trigger] n[k], decls, i + 1) by {
        if k < pos {
            assert(from_first_decl(out[k], decls, i));
            let w = choose|w: int| 0 <= w < i && first_of_its_port(decls, w) && #[trigger] lists_decl(out[k], decls[w]);
            assert(lists_decl(n[k], decls[w]));
        } else if k == pos {
            assert(lists_decl(n[k], decls[i]));
        } else {
            assert(n[k] == out[k - 1]);
            assert(from_first_decl(out[k - 1], decls, i));
            let w = choose|w: int| 0 <= w < i && first_of_its_port(decls, w) && #[trigger] lists_decl(out[k - 1], decls[w]);
            assert(lists_decl(n[k], decls[w]));
        }
    }
    assert forall|j: int| 0 <= j < i + 1 implies port_listed(n, (#[trigger] decls[j]).container_port as u16) by {
        if j == i {
            assert(n[pos].port == decls[j].container_port as u16);
        } else {
            assert(port_listed(out, decls[j].container_port as u16));
            let k = choose|k: int| 0 <= k < out.len() && (#[trigger] out[k]).port == decls[j].container_port as u16;
            if k < pos {
                assert(n[k] == out[k]);
            } else {
                assert(n[k + 1] == out[k]);
            }
        }
    }
}

/// The forwardable ports of a pod: every port that its containers
/// declare, sorted by number; a number declared twice is listed once, as
/// its first declaration.
pub fn pod_ports(decls: &Vec<PortDecl>) -> (r: Vec<AvailablePort>)
    ensures
        is_port_list_of(r@, decls@, decls.len() as int),
{
    let mut out: Vec<AvailablePort> = Vec::new();
    let mut i: usize = 0;
    while i < decls.len()
        invariant
            i <= decls.len(),
            is_port_list_of(out@, decls@, i as int),
        decreases decls.len() - i,
    {
        let d = &decls[i];
        let p = d.container_port as u16;
        let mut pos: usize = 0;
        while pos < out.len() && out[pos].port < p
            invariant
                pos <= out.len(),
                forall|k: int| 0 <= k < pos ==> (#[trigger] out@[k]).port < p,
            decreases out.len() - pos,
        {
            pos = pos + 1;
        }
        if pos < out.len() && out[pos].port == p {
            proof {
                lemma_port_list_skip(out@, decls@, i as int, pos as int);
            }
        } else {
            let entry = AvailablePort { port: p, name: clone_opt(&d.name), protocol: protocol_or_default(&d.protocol) };
            proof {
                lemma_port_list_insert(out@, decls@, i as int, pos as int, entry);
            }
            out.insert(pos, entry);
        }
        i = i + 1;
    }
    out
}

/// Resolution picks the running pod: among pods that match a selector,
/// where exactly one runs (the others pending or otherwise not running),
/// that one is the pod chosen; where none runs, there is none to choose.
pub proof fn lemma_running_pod_chosen(pods: Seq<PodSummary>, a: int)
    requires
        0 <= a < pods.len(),
        is_running(pods[a]),
        forall|j: int| 0 <= j < pods.len() && j != a ==> !is_running(#[trigger] pods[j]),
    ensures
        is_first_running(pods, a),
        forall|i: int| is_first_running(pods, i) ==> i == a,
{
}

/// `named_port` finds the first declaration with the name.
proof fn lemma_named_port_first(decls: Seq<PortDecl>, n: Seq<char>, k: int)
    requires
        0 <= k <= decls.len(),
        forall|j: int| 0 <= j < k ==> !has_name(#[trigger] decls[j], n),
    ensures
        k < decls.len() && has_name(decls[k], n) ==> named_port(decls, n) == Some(decls[k].container_port),
        k == decls.len() ==> named_port(decls, n) is None,
    decreases k,
{
    if k > 0 {
        let rest = decls.drop_first();
        assert forall|j: int| 0 <= j < k - 1 implies !has_name(#[trigger] rest[j], n) by {
            assert(rest[j] == decls[j + 1]);
        }
        assert(!has_name(decls[0], n));
        lemma_named_port_first(rest, n, k - 1);
        if k < decls.len() {
            assert(rest[k - 1] == decls[k]);
        }
    }
}

/// Port names within one pod are unique, as the cluster keeps them.
pub open spec fn port_names_unique(decls: Seq<PortDecl>) -> bool {
    forall|i: int, j: int|
        0 <= i < decls.len() && 0 <= j < decls.len() && i != j && (#[trigger] decls[i]).name is Some && (#[trigger] decls[j]).name is Some
            ==> decls[i].name->0@ != decls[j].name->0@
}

/// Named port resolution: a service port whose target is the name `n`
/// goes to the number of the backing pod's container port called `n`.
pub proof fn lemma_named_target(sp: ServicePortDecl, decls: Seq<PortDecl>, n: String, k: int)
    requires
        sp.target_port == Some(TargetPort::Named(n)),
        port_names_unique(decls),
        0 <= k < decls.len(),
        has_name(decls[k], n@),
    ensures
        target_port_of(sp, decls) == decls[k].container_port as u16,
{
    assert forall|j: int| 0 <= j < k implies !has_name(#[trigger] decls[j], n@) by {
        if has_name(decls[j], n@) {
            assert(decls[j].name->0@ != decls[k].name->0@);
        }
    }
    lemma_named_port_first(decls, n@, k);
}

/// Without a container port of that name, a named target falls back to the
/// service's own port number.
pub proof fn lemma_named_target_fallback(sp: ServicePortDecl, decls: Seq<PortDecl>, n: String)
    requires
        sp.target_port == Some(TargetPort::Named(n)),
        forall|j: int| 0 <= j < decls.len() ==> !has_name(#[trigger] decls[j], n@),
    ensures
        target_port_of(sp, decls) == sp.port as u16,
{
    lemma_named_port_first(decls, n@, decls.len() as int);
}

} // verus!
