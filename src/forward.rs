use vstd::prelude::*;

verus! {

/// What a forward points at.
#[derive(Clone, Copy, Debug, PartialEq, Eq, Structural)]
pub enum ResourceType {
    Pod,
    Service,
}

/// Lifecycle of a forwarding session.
#[derive(Clone, Copy, Debug, PartialEq, Eq, Structural)]
pub enum PortForwardStatus {
    Starting,
    Active,
    Error,
    Stopped,
}

/// The transitions a session may make: `Starting -> Active -> {Stopped,
/// Error}`, or `Starting -> Error` when the listener cannot be bound.
pub open spec fn legal_transition(from: PortForwardStatus, to: PortForwardStatus) -> bool {
    match (from, to) {
        (PortForwardStatus::Starting, PortForwardStatus::Active) => true,
        (PortForwardStatus::Starting, PortForwardStatus::Error) => true,
        (PortForwardStatus::Active, PortForwardStatus::Stopped) => true,
        (PortForwardStatus::Active, PortForwardStatus::Error) => true,
        _ => false,
    }
}

/// A session that holds, or is about to hold, its local port.
pub open spec fn is_live(s: PortForwardStatus) -> bool {
    s is Starting || s is Active
}

/// A snapshot of one forwarding session.
#[derive(Clone, Debug)]
pub struct PortForwardInfo {
    pub id: String,
    pub context: String,
    pub namespace: String,
    pub resource_type: ResourceType,
    pub resource_name: String,
    /// The pod the tunnel goes to; the resource's own name for a pod.
    pub pod_name: String,
    pub local_port: u16,
    pub remote_port: u16,
    pub status: PortForwardStatus,
    pub active_connections: u64,
    pub total_connections: u64,
    pub bytes_sent: u64,
    pub bytes_received: u64,
}

/// A port that a pod or a service offers for forwarding.
#[derive(Clone, Debug)]
pub struct AvailablePort {
    pub port: u16,
    pub name: Option<String>,
    pub protocol: String,
}

/// Who holds a local port that a new forward asked for.
#[derive(Clone, Copy, Debug, PartialEq, Eq, Structural)]
pub enum PortHolder {
    /// A live session of this registry.
    ThisRegistry,
    /// Some other socket on the machine.
    OtherProcess,
}

/// Errors of the forwarding core.
#[derive(Clone, Debug)]
pub enum ForwardError {
    /// The local port is already in use.
    PortInUse(u16, PortHolder),
    /// The named service does not exist (its name, then the cause).
    ServiceNotFound(String, String),
    /// The named pod does not exist (its name, then the cause).
    PodNotFound(String, String),
    /// The service has no pod selector.
    NoSelector(String),
    /// No pod matching the service's selector is running (the service, then
    /// the selector).
    NoRunningPod(String, String),
    /// A query to the cluster failed.
    Cluster(String),
    /// The tunnel to the pod could not be opened.
    TunnelFailed(String),
    /// No session has this id.
    NotFound(String),
}

pub fn clone_opt(o: &Option<String>) -> (r: Option<String>)
    ensures
        r == *o,
{
    match o {
        Some(s) => Some(s.clone()),
        None => None,
    }
}

impl PortForwardInfo {
    /// A field-by-field copy.
    pub fn duplicate(&self) -> (r: PortForwardInfo)
        ensures
            r == *self,
    {
        PortForwardInfo {
            id: self.id.clone(),
            context: self.context.clone(),
            namespace: self.namespace.clone(),
            resource_type: self.resource_type,
            resource_name: self.resource_name.clone(),
            pod_name: self.pod_name.clone(),
            local_port: self.local_port,
            remote_port: self.remote_port,
            status: self.status,
            active_connections: self.active_connections,
            total_connections: self.total_connections,
            bytes_sent: self.bytes_sent,
            bytes_received: self.bytes_received,
        }
    }
}

} // verus!
