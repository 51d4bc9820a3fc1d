//! Plain summaries of cluster objects, as the management views list and
//! detail them. They carry data only.

use vstd::prelude::*;

verus! {

#[derive(Clone, Debug)]
pub struct KubeContext {
    pub name: String,
    pub cluster: String,
    pub user: String,
    pub namespace: Option<String>,
    pub is_current: bool,
}

#[derive(Clone, Debug)]
pub struct PodInfo {
    pub name: String,
    pub namespace: String,
    pub status: String,
    pub ready: String,
    pub restarts: i32,
    pub age: String,
    pub node: Option<String>,
    pub ip: Option<String>,
    pub containers: Vec<ContainerInfo>,
}

#[derive(Clone, Debug)]
pub struct ContainerInfo {
    pub name: String,
    pub image: String,
    pub ready: bool,
    pub restart_count: i32,
    pub state: String,
}

#[derive(Clone, Debug)]
pub struct DeploymentInfo {
    pub name: String,
    pub namespace: String,
    pub ready: String,
    pub up_to_date: i32,
    pub available: i32,
    pub age: String,
}

#[derive(Clone, Debug)]
pub struct DeploymentDetail {
    pub name: String,
    pub namespace: String,
    pub uid: String,
    pub creation_timestamp: String,
    pub labels: std::collections::BTreeMap<String, String>,
    pub annotations: std::collections::BTreeMap<String, String>,
    pub replicas: i32,
    pub ready_replicas: i32,
    pub updated_replicas: i32,
    pub available_replicas: i32,
    pub strategy: String,
    pub min_ready_seconds: i32,
    pub revision_history_limit: Option<i32>,
    pub selector: std::collections::BTreeMap<String, String>,
    pub conditions: Vec<DeploymentCondition>,
    pub container_images: Vec<String>,
}

#[derive(Clone, Debug)]
pub struct DeploymentCondition {
    pub condition_type: String,
    pub status: String,
    pub reason: Option<String>,
    pub message: Option<String>,
    pub last_update_time: Option<String>,
    pub last_transition_time: Option<String>,
}

#[derive(Clone, Debug)]
pub struct DeploymentEvent {
    pub event_type: String,
    pub reason: String,
    pub message: String,
    pub count: i32,
    pub first_timestamp: Option<String>,
    pub last_timestamp: Option<String>,
    pub source: String,
}

#[derive(Clone, Debug)]
pub struct StatefulSetInfo {
    pub name: String,
    pub namespace: String,
    pub ready: String,
    pub replicas: i32,
    pub age: String,
    pub service_name: Option<String>,
}

#[derive(Clone, Debug)]
pub struct StatefulSetDetail {
    pub name: String,
    pub namespace: String,
    pub uid: String,
    pub creation_timestamp: String,
    pub labels: std::collections::BTreeMap<String, String>,
    pub annotations: std::collections::BTreeMap<String, String>,
    pub replicas: i32,
    pub ready_replicas: i32,
    pub current_replicas: i32,
    pub updated_replicas: i32,
    pub service_name: String,
    pub pod_management_policy: String,
    pub update_strategy: String,
    pub revision_history_limit: Option<i32>,
    pub selector: std::collections::BTreeMap<String, String>,
    pub conditions: Vec<StatefulSetCondition>,
    pub container_images: Vec<String>,
}

#[derive(Clone, Debug)]
pub struct StatefulSetCondition {
    pub condition_type: String,
    pub status: String,
    pub reason: Option<String>,
    pub message: Option<String>,
    pub last_transition_time: Option<String>,
}

#[derive(Clone, Debug)]
pub struct StatefulSetEvent {
    pub event_type: String,
    pub reason: String,
    pub message: String,
    pub count: i32,
    pub first_timestamp: Option<String>,
    pub last_timestamp: Option<String>,
    pub source: String,
}

#[derive(Clone, Debug)]
pub struct DaemonSetInfo {
    pub name: String,
    pub namespace: String,
    pub desired: i32,
    pub current: i32,
    pub ready: i32,
    pub up_to_date: i32,
    pub available: i32,
    pub node_selector: Option<String>,
    pub age: String,
}

#[derive(Clone, Debug)]
pub struct ReplicaSetInfo {
    pub name: String,
    pub namespace: String,
    pub desired: i32,
    pub current: i32,
    pub ready: i32,
    pub age: String,
    pub owner: Option<String>,
}

#[derive(Clone, Debug)]
pub struct JobInfo {
    pub name: String,
    pub namespace: String,
    pub completions: String,
    pub duration: Option<String>,
    pub age: String,
    pub status: String,
}

#[derive(Clone, Debug)]
pub struct CronJobInfo {
    pub name: String,
    pub namespace: String,
    pub schedule: String,
    pub suspend: bool,
    pub active: i32,
    pub last_schedule: Option<String>,
    pub age: String,
}

#[derive(Clone, Debug)]
pub struct ServiceInfo {
    pub name: String,
    pub namespace: String,
    pub service_type: String,
    pub cluster_ip: Option<String>,
    pub external_ip: Option<String>,
    pub ports: Vec<String>,
    pub age: String,
}

#[derive(Clone, Debug)]
pub struct ServiceDetail {
    pub name: String,
    pub namespace: String,
    pub uid: String,
    pub creation_timestamp: String,
    pub labels: std::collections::BTreeMap<String, String>,
    pub annotations: std::collections::BTreeMap<String, String>,
    pub service_type: String,
    pub cluster_ip: Option<String>,
    pub cluster_ips: Vec<String>,
    pub external_ips: Vec<String>,
    pub ports: Vec<ServicePortDetail>,
    pub selector: std::collections::BTreeMap<String, String>,
    pub session_affinity: String,
    pub load_balancer_ip: Option<String>,
    pub load_balancer_ingress: Vec<String>,
    pub external_name: Option<String>,
    pub internal_traffic_policy: Option<String>,
    pub external_traffic_policy: Option<String>,
}

#[derive(Clone, Debug)]
pub struct ServicePortDetail {
    pub name: Option<String>,
    pub protocol: String,
    pub port: i32,
    pub target_port: String,
    pub node_port: Option<i32>,
}

#[derive(Clone, Debug)]
pub struct ServiceEndpoint {
    pub ip: String,
    pub port: i32,
    pub protocol: String,
    pub pod_name: Option<String>,
    pub node_name: Option<String>,
    pub ready: bool,
}

#[derive(Clone, Debug)]
pub struct ServiceEvent {
    pub event_type: String,
    pub reason: String,
    pub message: String,
    pub count: i32,
    pub first_timestamp: Option<String>,
    pub last_timestamp: Option<String>,
    pub source: String,
}

#[derive(Clone, Debug)]
pub struct IngressDetail {
    pub name: String,
    pub namespace: String,
    pub uid: String,
    pub creation_timestamp: String,
    pub labels: std::collections::BTreeMap<String, String>,
    pub annotations: std::collections::BTreeMap<String, String>,
    pub ingress_class: Option<String>,
    pub rules: Vec<IngressRuleDetail>,
    pub tls: Vec<IngressTlsDetail>,
    pub default_backend: Option<IngressBackendDetail>,
    pub load_balancer_addresses: Vec<String>,
}

#[derive(Clone, Debug)]
pub struct IngressRuleDetail {
    pub host: Option<String>,
    pub paths: Vec<IngressPathDetail>,
}

#[derive(Clone, Debug)]
pub struct IngressPathDetail {
    pub path: String,
    pub path_type: String,
    pub backend_service: Option<String>,
    pub backend_port: Option<String>,
}

#[derive(Clone, Debug)]
pub struct IngressTlsDetail {
    pub hosts: Vec<String>,
    pub secret_name: Option<String>,
}

#[derive(Clone, Debug)]
pub struct IngressBackendDetail {
    pub service_name: String,
    pub service_port: String,
}

#[derive(Clone, Debug)]
pub struct IngressEvent {
    pub event_type: String,
    pub reason: String,
    pub message: String,
    pub count: i32,
    pub first_timestamp: Option<String>,
    pub last_timestamp: Option<String>,
    pub source: String,
}

#[derive(Clone, Debug)]
pub struct IngressInfo {
    pub name: String,
    pub namespace: String,
    pub class: Option<String>,
    pub hosts: Vec<String>,
    pub address: Option<String>,
    pub ports: String,
    pub age: String,
}

#[derive(Clone, Debug)]
pub struct NetworkPolicyInfo {
    pub name: String,
    pub namespace: String,
    pub pod_selector: String,
    pub policy_types: Vec<String>,
    pub age: String,
}

#[derive(Clone, Debug)]
pub struct ConfigMapInfo {
    pub name: String,
    pub namespace: String,
    pub data_count: i32,
    pub age: String,
}

#[derive(Clone, Debug)]
pub struct SecretInfo {
    pub name: String,
    pub namespace: String,
    pub secret_type: String,
    pub data_count: i32,
    pub age: String,
}

#[derive(Clone, Debug)]
pub struct HPAInfo {
    pub name: String,
    pub namespace: String,
    pub reference: String,
    pub targets: String,
    pub min_pods: i32,
    pub max_pods: i32,
    pub replicas: i32,
    pub age: String,
}

#[derive(Clone, Debug)]
pub struct PersistentVolumeInfo {
    pub name: String,
    pub capacity: String,
    pub access_modes: Vec<String>,
    pub reclaim_policy: String,
    pub status: String,
    pub claim: Option<String>,
    pub storage_class: Option<String>,
    pub age: String,
}

#[derive(Clone, Debug)]
pub struct PersistentVolumeClaimInfo {
    pub name: String,
    pub namespace: String,
    pub status: String,
    pub volume: Option<String>,
    pub capacity: Option<String>,
    pub access_modes: Vec<String>,
    pub storage_class: Option<String>,
    pub age: String,
}

#[derive(Clone, Debug)]
pub struct NamespaceInfo {
    pub name: String,
    pub status: String,
    pub age: String,
}

#[derive(Clone, Debug)]
pub struct NodeInfo {
    pub name: String,
    pub status: String,
    pub roles: Vec<String>,
    pub age: String,
    pub version: String,
    pub internal_ip: Option<String>,
    pub os_image: String,
    pub kernel: String,
    pub container_runtime: String,
}

#[derive(Clone, Debug)]
pub struct ServiceAccountInfo {
    pub name: String,
    pub namespace: String,
    pub secrets: i32,
    pub age: String,
}

#[derive(Clone, Debug)]
pub struct ClusterMetrics {
    pub total_pods: i32,
    pub running_pods: i32,
    pub pending_pods: i32,
    pub failed_pods: i32,
    pub total_deployments: i32,
    pub total_services: i32,
    pub total_namespaces: i32,
}

#[derive(Clone, Debug)]
pub struct ResourceCount {
    pub ok: i32,
    pub fail: i32,
}

#[derive(Clone, Debug)]
pub struct PulseMetrics {
    pub context: String,
    pub cluster: String,
    pub user: String,
    pub k8s_version: String,
    pub pods: ResourceCount,
    pub deployments: ResourceCount,
    pub statefulsets: ResourceCount,
    pub daemonsets: ResourceCount,
    pub replicasets: ResourceCount,
    pub jobs: ResourceCount,
    pub cronjobs: i32,
    pub services: i32,
    pub configmaps: i32,
    pub secrets: i32,
    pub pvs: i32,
    pub pvcs: i32,
    pub hpas: i32,
    pub ingresses: i32,
    pub network_policies: i32,
    pub service_accounts: i32,
    pub namespaces: i32,
    pub nodes: i32,
    pub cpu_capacity: i64,
    pub cpu_allocatable: i64,
    pub memory_capacity: i64,
    pub memory_allocatable: i64,
}

#[derive(Clone, Debug)]
pub struct PodDetail {
    pub name: String,
    pub namespace: String,
    pub uid: String,
    pub creation_timestamp: String,
    pub labels: std::collections::BTreeMap<String, String>,
    pub annotations: std::collections::BTreeMap<String, String>,
    pub status: String,
    pub phase: String,
    pub pod_ip: Option<String>,
    pub node_name: Option<String>,
    pub service_account: Option<String>,
    pub conditions: Vec<PodCondition>,
    pub containers: Vec<ContainerDetail>,
    pub init_containers: Vec<ContainerDetail>,
    pub volumes: Vec<VolumeInfo>,
}

#[derive(Clone, Debug)]
pub struct PodCondition {
    pub type_: String,
    pub status: String,
    pub reason: Option<String>,
    pub message: Option<String>,
    pub last_transition_time: Option<String>,
}

#[derive(Clone, Debug)]
pub struct ContainerDetail {
    pub name: String,
    pub image: String,
    pub ready: bool,
    pub restart_count: i32,
    pub state: String,
    pub state_reason: Option<String>,
    pub started_at: Option<String>,
    pub ports: Vec<ContainerPort>,
    pub resources: ContainerResources,
    pub env_vars: Vec<EnvVarInfo>,
    pub volume_mounts: Vec<VolumeMountInfo>,
}

#[derive(Clone, Debug)]
pub struct ContainerPort {
    pub name: Option<String>,
    pub container_port: i32,
    pub protocol: String,
}

#[derive(Clone, Debug)]
pub struct ContainerResources {
    pub cpu_request: Option<String>,
    pub cpu_limit: Option<String>,
    pub memory_request: Option<String>,
    pub memory_limit: Option<String>,
}

#[derive(Clone, Debug)]
pub struct EnvVarInfo {
    pub name: String,
    pub value: Option<String>,
    pub source: String,
    pub source_name: Option<String>,
    pub source_key: Option<String>,
}

#[derive(Clone, Debug)]
pub struct VolumeMountInfo {
    pub name: String,
    pub mount_path: String,
    pub read_only: bool,
    pub sub_path: Option<String>,
}

#[derive(Clone, Debug)]
pub struct VolumeInfo {
    pub name: String,
    pub volume_type: String,
    pub source_name: Option<String>,
}

#[derive(Clone, Debug)]
pub struct PodEvent {
    pub type_: String,
    pub reason: String,
    pub message: String,
    pub count: i32,
    pub first_timestamp: Option<String>,
    pub last_timestamp: Option<String>,
    pub source: String,
}

#[derive(Clone, Debug)]
pub struct ConfigMapDetail {
    pub name: String,
    pub namespace: String,
    pub uid: String,
    pub creation_timestamp: String,
    pub labels: std::collections::BTreeMap<String, String>,
    pub annotations: std::collections::BTreeMap<String, String>,
    pub data: std::collections::BTreeMap<String, String>,
    pub binary_data_keys: Vec<String>,
}

#[derive(Clone, Debug)]
pub struct ConfigMapEvent {
    pub event_type: String,
    pub reason: String,
    pub message: String,
    pub count: i32,
    pub first_timestamp: Option<String>,
    pub last_timestamp: Option<String>,
    pub source: String,
}

#[derive(Clone, Debug)]
pub struct SecretDetail {
    pub name: String,
    pub namespace: String,
    pub uid: String,
    pub creation_timestamp: String,
    pub labels: std::collections::BTreeMap<String, String>,
    pub annotations: std::collections::BTreeMap<String, String>,
    pub secret_type: String,
    pub data_keys: Vec<String>,
    pub immutable: bool,
}

#[derive(Clone, Debug)]
pub struct SecretEvent {
    pub event_type: String,
    pub reason: String,
    pub message: String,
    pub count: i32,
    pub first_timestamp: Option<String>,
    pub last_timestamp: Option<String>,
    pub source: String,
}

#[derive(Clone, Debug)]
pub struct JobDetail {
    pub name: String,
    pub namespace: String,
    pub uid: String,
    pub creation_timestamp: String,
    pub labels: std::collections::BTreeMap<String, String>,
    pub annotations: std::collections::BTreeMap<String, String>,
    pub completions: Option<i32>,
    pub parallelism: Option<i32>,
    pub backoff_limit: Option<i32>,
    pub active_deadline_seconds: Option<i64>,
    pub ttl_seconds_after_finished: Option<i32>,
    pub completion_mode: String,
    pub suspend: bool,
    pub active: i32,
    pub succeeded: i32,
    pub failed: i32,
    pub start_time: Option<String>,
    pub completion_time: Option<String>,
    pub conditions: Vec<JobCondition>,
    pub selector: std::collections::BTreeMap<String, String>,
    pub container_images: Vec<String>,
}

#[derive(Clone, Debug)]
pub struct JobCondition {
    pub condition_type: String,
    pub status: String,
    pub reason: Option<String>,
    pub message: Option<String>,
    pub last_transition_time: Option<String>,
}

#[derive(Clone, Debug)]
pub struct JobEvent {
    pub event_type: String,
    pub reason: String,
    pub message: String,
    pub count: i32,
    pub first_timestamp: Option<String>,
    pub last_timestamp: Option<String>,
    pub source: String,
}

#[derive(Clone, Debug)]
pub struct CronJobDetail {
    pub name: String,
    pub namespace: String,
    pub uid: String,
    pub creation_timestamp: String,
    pub labels: std::collections::BTreeMap<String, String>,
    pub annotations: std::collections::BTreeMap<String, String>,
    pub schedule: String,
    pub timezone: Option<String>,
    pub suspend: bool,
    pub concurrency_policy: String,
    pub starting_deadline_seconds: Option<i64>,
    pub successful_jobs_history_limit: i32,
    pub failed_jobs_history_limit: i32,
    pub last_schedule_time: Option<String>,
    pub last_successful_time: Option<String>,
    pub active_jobs: Vec<String>,
    pub container_images: Vec<String>,
}

#[derive(Clone, Debug)]
pub struct CronJobEvent {
    pub event_type: String,
    pub reason: String,
    pub message: String,
    pub count: i32,
    pub first_timestamp: Option<String>,
    pub last_timestamp: Option<String>,
    pub source: String,
}

#[derive(Clone, Debug)]
pub struct DaemonSetDetail {
    pub name: String,
    pub namespace: String,
    pub uid: String,
    pub creation_timestamp: String,
    pub labels: std::collections::BTreeMap<String, String>,
    pub annotations: std::collections::BTreeMap<String, String>,
    pub desired_number_scheduled: i32,
    pub current_number_scheduled: i32,
    pub number_ready: i32,
    pub number_available: i32,
    pub number_misscheduled: i32,
    pub updated_number_scheduled: i32,
    pub update_strategy: String,
    pub min_ready_seconds: i32,
    pub selector: std::collections::BTreeMap<String, String>,
    pub conditions: Vec<DaemonSetCondition>,
    pub container_images: Vec<String>,
}

#[derive(Clone, Debug)]
pub struct DaemonSetCondition {
    pub condition_type: String,
    pub status: String,
    pub reason: Option<String>,
    pub message: Option<String>,
    pub last_transition_time: Option<String>,
}

#[derive(Clone, Debug)]
pub struct DaemonSetEvent {
    pub event_type: String,
    pub reason: String,
    pub message: String,
    pub count: i32,
    pub first_timestamp: Option<String>,
    pub last_timestamp: Option<String>,
    pub source: String,
}

#[derive(Clone, Debug)]
pub struct ReplicaSetDetail {
    pub name: String,
    pub namespace: String,
    pub uid: String,
    pub creation_timestamp: String,
    pub labels: std::collections::BTreeMap<String, String>,
    pub annotations: std::collections::BTreeMap<String, String>,
    pub replicas: i32,
    pub ready_replicas: i32,
    pub available_replicas: i32,
    pub fully_labeled_replicas: i32,
    pub owner_references: Vec<OwnerRef>,
    pub selector: std::collections::BTreeMap<String, String>,
    pub conditions: Vec<ReplicaSetCondition>,
    pub container_images: Vec<String>,
}

#[derive(Clone, Debug)]
pub struct OwnerRef {
    pub kind: String,
    pub name: String,
    pub uid: String,
}

#[derive(Clone, Debug)]
pub struct ReplicaSetCondition {
    pub condition_type: String,
    pub status: String,
    pub reason: Option<String>,
    pub message: Option<String>,
    pub last_transition_time: Option<String>,
}

#[derive(Clone, Debug)]
pub struct ReplicaSetEvent {
    pub event_type: String,
    pub reason: String,
    pub message: String,
    pub count: i32,
    pub first_timestamp: Option<String>,
    pub last_timestamp: Option<String>,
    pub source: String,
}

#[derive(Clone, Debug)]
pub struct NetworkPolicyDetail {
    pub name: String,
    pub namespace: String,
    pub uid: String,
    pub creation_timestamp: String,
    pub labels: std::collections::BTreeMap<String, String>,
    pub annotations: std::collections::BTreeMap<String, String>,
    pub pod_selector: std::collections::BTreeMap<String, String>,
    pub policy_types: Vec<String>,
    pub ingress_rules: Vec<NetworkPolicyIngressRule>,
    pub egress_rules: Vec<NetworkPolicyEgressRule>,
}

#[derive(Clone, Debug)]
pub struct NetworkPolicyIngressRule {
    pub from: Vec<NetworkPolicyPeer>,
    pub ports: Vec<NetworkPolicyPort>,
}

#[derive(Clone, Debug)]
pub struct NetworkPolicyEgressRule {
    pub to: Vec<NetworkPolicyPeer>,
    pub ports: Vec<NetworkPolicyPort>,
}

#[derive(Clone, Debug)]
pub struct NetworkPolicyPeer {
    pub peer_type: String,
    pub namespace_selector: std::collections::BTreeMap<String, String>,
    pub pod_selector: std::collections::BTreeMap<String, String>,
    pub ip_block: Option<String>,
}

#[derive(Clone, Debug)]
pub struct NetworkPolicyPort {
    pub protocol: String,
    pub port: String,
    pub end_port: Option<i32>,
}

#[derive(Clone, Debug)]
pub struct NetworkPolicyEvent {
    pub event_type: String,
    pub reason: String,
    pub message: String,
    pub count: i32,
    pub first_timestamp: Option<String>,
    pub last_timestamp: Option<String>,
    pub source: String,
}

#[derive(Clone, Debug)]
pub struct HPADetail {
    pub name: String,
    pub namespace: String,
    pub uid: String,
    pub creation_timestamp: String,
    pub labels: std::collections::BTreeMap<String, String>,
    pub annotations: std::collections::BTreeMap<String, String>,
    pub scale_target_ref: String,
    pub min_replicas: i32,
    pub max_replicas: i32,
    pub current_replicas: i32,
    pub desired_replicas: i32,
    pub metrics: Vec<HPAMetric>,
    pub conditions: Vec<HPACondition>,
    pub last_scale_time: Option<String>,
}

#[derive(Clone, Debug)]
pub struct HPAMetric {
    pub metric_type: String,
    pub name: String,
    pub current_value: String,
    pub target_value: String,
}

#[derive(Clone, Debug)]
pub struct HPACondition {
    pub condition_type: String,
    pub status: String,
    pub reason: Option<String>,
    pub message: Option<String>,
    pub last_transition_time: Option<String>,
}

#[derive(Clone, Debug)]
pub struct HPAEvent {
    pub event_type: String,
    pub reason: String,
    pub message: String,
    pub count: i32,
    pub first_timestamp: Option<String>,
    pub last_timestamp: Option<String>,
    pub source: String,
}

#[derive(Clone, Debug)]
pub struct PVDetail {
    pub name: String,
    pub uid: String,
    pub creation_timestamp: String,
    pub labels: std::collections::BTreeMap<String, String>,
    pub annotations: std::collections::BTreeMap<String, String>,
    pub capacity: String,
    pub access_modes: Vec<String>,
    pub reclaim_policy: String,
    pub status: String,
    pub claim: Option<String>,
    pub storage_class: String,
    pub volume_mode: String,
    pub mount_options: Vec<String>,
    pub source_type: String,
    pub source_details: std::collections::BTreeMap<String, String>,
    pub node_affinity: Option<String>,
}

#[derive(Clone, Debug)]
pub struct PVEvent {
    pub event_type: String,
    pub reason: String,
    pub message: String,
    pub count: i32,
    pub first_timestamp: Option<String>,
    pub last_timestamp: Option<String>,
    pub source: String,
}

#[derive(Clone, Debug)]
pub struct PVCDetail {
    pub name: String,
    pub namespace: String,
    pub uid: String,
    pub creation_timestamp: String,
    pub labels: std::collections::BTreeMap<String, String>,
    pub annotations: std::collections::BTreeMap<String, String>,
    pub status: String,
    pub volume_name: Option<String>,
    pub storage_class: Option<String>,
    pub access_modes: Vec<String>,
    pub volume_mode: String,
    pub requested_storage: String,
    pub capacity: String,
    pub conditions: Vec<PVCCondition>,
}

#[derive(Clone, Debug)]
pub struct PVCCondition {
    pub condition_type: String,
    pub status: String,
    pub reason: Option<String>,
    pub message: Option<String>,
    pub last_transition_time: Option<String>,
}

#[derive(Clone, Debug)]
pub struct PVCEvent {
    pub event_type: String,
    pub reason: String,
    pub message: String,
    pub count: i32,
    pub first_timestamp: Option<String>,
    pub last_timestamp: Option<String>,
    pub source: String,
}

#[derive(Clone, Debug)]
pub struct NamespaceDetail {
    pub name: String,
    pub uid: String,
    pub creation_timestamp: String,
    pub labels: std::collections::BTreeMap<String, String>,
    pub annotations: std::collections::BTreeMap<String, String>,
    pub status: String,
    pub conditions: Vec<NamespaceCondition>,
    pub finalizers: Vec<String>,
}

#[derive(Clone, Debug)]
pub struct NamespaceCondition {
    pub condition_type: String,
    pub status: String,
    pub reason: Option<String>,
    pub message: Option<String>,
    pub last_transition_time: Option<String>,
}

#[derive(Clone, Debug)]
pub struct NamespaceEvent {
    pub event_type: String,
    pub reason: String,
    pub message: String,
    pub count: i32,
    pub first_timestamp: Option<String>,
    pub last_timestamp: Option<String>,
    pub source: String,
}

#[derive(Clone, Debug)]
pub struct NodeDetail {
    pub name: String,
    pub uid: String,
    pub creation_timestamp: String,
    pub labels: std::collections::BTreeMap<String, String>,
    pub annotations: std::collections::BTreeMap<String, String>,
    pub taints: Vec<NodeTaint>,
    pub conditions: Vec<NodeCondition>,
    pub addresses: Vec<NodeAddress>,
    pub capacity: NodeResources,
    pub allocatable: NodeResources,
    pub node_info: NodeSystemInfo,
    pub pod_cidr: Option<String>,
    pub unschedulable: bool,
}

#[derive(Clone, Debug)]
pub struct NodeTaint {
    pub key: String,
    pub value: Option<String>,
    pub effect: String,
}

#[derive(Clone, Debug)]
pub struct NodeCondition {
    pub condition_type: String,
    pub status: String,
    pub reason: Option<String>,
    pub message: Option<String>,
    pub last_transition_time: Option<String>,
    pub last_heartbeat_time: Option<String>,
}

#[derive(Clone, Debug)]
pub struct NodeAddress {
    pub address_type: String,
    pub address: String,
}

#[derive(Clone, Debug)]
pub struct NodeResources {
    pub cpu: String,
    pub memory: String,
    pub pods: String,
    pub ephemeral_storage: String,
}

#[derive(Clone, Debug)]
pub struct NodeSystemInfo {
    pub machine_id: String,
    pub system_uuid: String,
    pub boot_id: String,
    pub kernel_version: String,
    pub os_image: String,
    pub container_runtime_version: String,
    pub kubelet_version: String,
    pub kube_proxy_version: String,
    pub operating_system: String,
    pub architecture: String,
}

#[derive(Clone, Debug)]
pub struct NodeEvent {
    pub event_type: String,
    pub reason: String,
    pub message: String,
    pub count: i32,
    pub first_timestamp: Option<String>,
    pub last_timestamp: Option<String>,
    pub source: String,
}

#[derive(Clone, Debug)]
pub struct ServiceAccountDetail {
    pub name: String,
    pub namespace: String,
    pub uid: String,
    pub creation_timestamp: String,
    pub labels: std::collections::BTreeMap<String, String>,
    pub annotations: std::collections::BTreeMap<String, String>,
    pub secrets: Vec<String>,
    pub image_pull_secrets: Vec<String>,
    pub automount_service_account_token: Option<bool>,
}

#[derive(Clone, Debug)]
pub struct ServiceAccountEvent {
    pub event_type: String,
    pub reason: String,
    pub message: String,
    pub count: i32,
    pub first_timestamp: Option<String>,
    pub last_timestamp: Option<String>,
    pub source: String,
}

#[derive(Clone, Debug)]
pub struct PodWatchEvent {
    pub event_type: String,
    pub pod: PodInfo,
    pub timestamp: String,
}

#[derive(Clone, Debug)]
pub struct DeploymentWatchEvent {
    pub event_type: String,
    pub deployment: DeploymentInfo,
    pub timestamp: String,
}

#[derive(Clone, Debug)]
pub struct JobWatchEvent {
    pub event_type: String,
    pub job: JobInfo,
    pub timestamp: String,
}

#[derive(Clone, Debug)]
pub struct NodeWatchEvent {
    pub event_type: String,
    pub node: NodeInfo,
    pub timestamp: String,
}

} // verus!
