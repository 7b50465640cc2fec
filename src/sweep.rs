//! The sweeper's decisions: which Pods have finished their work, which of
//! them are already being swept, and where their proxies are told to exit.

use vstd::prelude::*;
use crate::meta::{lookup, lookup_value, pairs_view};
use crate::patch::{sidecar_container_name, sidecar_name};
use crate::text::{decimal, push_decimal, text_eq};

verus! {

/// A workload identity: namespace, then name.
#[derive(Debug, PartialEq, Eq, Hash, Clone)]
pub struct PodID(pub String, pub String);

impl View for PodID {
    type V = (Seq<char>, Seq<char>);

    open spec fn view(&self) -> (Seq<char>, Seq<char>) {
        (self.0@, self.1@)
    }
}

impl PodID {
    /// `namespace/name`.
    pub fn to_string(&self) -> (r: String)
        ensures
            r@ == self.0@ + "/"@ + self.1@,
    {
        let mut s = self.0.clone();
        s.append("/");
        s.append(self.1.as_str());
        s
    }

    /// A copy of this identity.
    pub fn duplicate(&self) -> (r: PodID)
        ensures
            r@ == self@,
    {
        PodID(self.0.clone(), self.1.clone())
    }

    /// Whether two identities are the same.
    pub fn same(&self, other: &PodID) -> (r: bool)
        ensures
            r == (self@ == other@),
    {
        text_eq(self.0.as_str(), other.0.as_str()) && text_eq(self.1.as_str(), other.1.as_str())
    }
}

/// The state of a container, as its status reports it.
#[derive(Debug, Clone, Copy, PartialEq, Eq, Structural)]
pub enum ContainerState {
    Waiting,
    Running,
    /// The container exited with this code.
    Terminated(i32),
}

/// The status of one container of a Pod.
#[derive(Debug, Clone)]
pub struct ContainerStatus {
    pub name: String,
    pub state: ContainerState,
}

/// What the container statuses say of the application's work.
#[derive(Debug, Clone)]
pub enum Termination {
    /// The first application container to terminate exited with zero.
    Terminated,
    /// No application container has terminated yet.
    NotYetTerminated,
    /// The first application container to terminate failed: its name and
    /// exit code.
    Failed(String, i32),
}

pub enum TerminationView {
    Terminated,
    NotYetTerminated,
    Failed(Seq<char>, i32),
}

impl View for Termination {
    type V = TerminationView;

    open spec fn view(&self) -> TerminationView {
        match self {
            Termination::Terminated => TerminationView::Terminated,
            Termination::NotYetTerminated => TerminationView::NotYetTerminated,
            Termination::Failed(n, c) => TerminationView::Failed(n@, *c),
        }
    }
}

/// The first container, in declared order and skipping the sidecar, that has
/// terminated decides: exit code zero is `Terminated`, any other `Failed`.
pub open spec fn termination(cs: Seq<ContainerStatus>) -> TerminationView
    decreases cs.len(),
{
    if cs.len() == 0 {
        TerminationView::NotYetTerminated
    } else if cs[0].name@ != sidecar_name() && cs[0].state is Terminated {
        let code = cs[0].state->Terminated_0;
        if code == 0 {
            TerminationView::Terminated
        } else {
            TerminationView::Failed(cs[0].name@, code)
        }
    } else {
        termination(cs.drop_first())
    }
}

/// Decides whether a Pod's application has finished, from its container
/// statuses.
pub fn check_container_terminated(containers: &Vec<ContainerStatus>) -> (r: Termination)
    ensures
        r@ == termination(containers@),
{
    let sidecar = sidecar_container_name();
    let mut i: usize = 0;
    assert(containers@.skip(0) =~= containers@);
    while i < containers.len()
        invariant
            i <= containers@.len(),
            sidecar@ == sidecar_name(),
            termination(containers@) == termination(containers@.skip(i as int)),
        decreases containers@.len() - i,
    {
        let c = &containers[i];
        assert(containers@.skip(i as int)[0] == containers@[i as int]);
        if !text_eq(c.name.as_str(), sidecar) {
            match c.state {
                ContainerState::Terminated(code) => {
                    if code != 0 {
                        return Termination::Failed(c.name.clone(), code);
                    }
                    return Termination::Terminated;
                },
                _ => {},
            }
        }
        assert(containers@.skip(i as int).drop_first() =~= containers@.skip(i + 1));
        i = i + 1;
    }
    Termination::NotYetTerminated
}

/// What the sweeper reads of a Pod.
#[derive(Debug, Clone)]
pub struct PodSnapshot {
    pub namespace: String,
    pub name: String,
    pub annotations: Vec<(String, String)>,
    /// The container statuses, if the Pod reports them.
    pub container_statuses: Option<Vec<ContainerStatus>>,
    pub pod_ip: Option<String>,
}

/// A change to the watched Pods.
#[derive(Debug, Clone)]
pub enum PodEvent {
    Applied(PodSnapshot),
    Deleted(PodID),
    Restarted(Vec<PodSnapshot>),
}

/// A request to tell one Pod's proxy to exit.
#[derive(Debug, Clone)]
pub struct SweepJob {
    pub id: PodID,
    pub ip: String,
}

pub open spec fn job_view(j: Option<SweepJob>) -> Option<((Seq<char>, Seq<char>), Seq<char>)> {
    match j {
        Some(j) => Some((j.id@, j.ip@)),
        None => None,
    }
}

/// The annotation that marks a Pod as meshed.
pub open spec fn inject_key() -> Seq<char> {
    "linkerd.io/inject"@
}

fn inject_annotation() -> (r: &'static str)
    ensures
        r@ == inject_key(),
{
    "linkerd.io/inject"
}

pub open spec fn pod_id_of(p: PodSnapshot) -> (Seq<char>, Seq<char>) {
    (p.namespace@, p.name@)
}

/// Whether `p` is meshed: it carries the injection annotation.
pub open spec fn meshed(p: PodSnapshot) -> bool {
    lookup(pairs_view(p.annotations@), inject_key()) is Some
}

/// The address to sweep `p` at: a meshed Pod whose application has
/// terminated successfully, and which has an IP.
pub open spec fn sweep_target(p: PodSnapshot) -> Option<Seq<char>> {
    if !meshed(p) {
        None
    } else {
        match p.container_statuses {
            None => None,
            Some(cs) => if termination(cs@) is Terminated {
                match p.pod_ip {
                    Some(ip) => Some(ip@),
                    None => None,
                }
            } else {
                None
            },
        }
    }
}

/// The job that an `Applied` snapshot yields against the set of identities
/// being swept.
pub open spec fn applied_job(
    store: Set<(Seq<char>, Seq<char>)>,
    p: PodSnapshot,
) -> Option<((Seq<char>, Seq<char>), Seq<char>)> {
    if store.contains(pod_id_of(p)) {
        None
    } else {
        match sweep_target(p) {
            Some(ip) => Some((pod_id_of(p), ip)),
            None => None,
        }
    }
}

/// The identities whose sweep has been handed off and not yet concluded.
pub struct PodStore {
    ids: Vec<PodID>,
}

impl View for PodStore {
    type V = Set<(Seq<char>, Seq<char>)>;

    closed spec fn view(&self) -> Set<(Seq<char>, Seq<char>)> {
        Set::new(|v: (Seq<char>, Seq<char>)| exists|i: int| 0 <= i < self.ids@.len() && #[trigger] self.ids@[i]@ == v)
    }
}

impl PodStore {
    pub fn new() -> (r: PodStore)
        ensures
            r@ == Set::<(Seq<char>, Seq<char>)>::empty(),
    {
        let r = PodStore { ids: Vec::new() };
        assert(r@ =~= Set::<(Seq<char>, Seq<char>)>::empty());
        r
    }

    /// Whether a sweep of `id` is in flight.
    pub fn contains(&self, id: &PodID) -> (r: bool)
        ensures
            r == self@.contains(id@),
    {
        let mut i: usize = 0;
        while i < self.ids.len()
            invariant
                i <= self.ids@.len(),
                forall|j: int| 0 <= j < i ==> (#[trigger] self.ids@[j])@ != id@,
            decreases self.ids@.len() - i,
        {
            if self.ids[i].same(id) {
                assert(self@.contains(id@));
                return true;
            }
            i = i + 1;
        }
        false
    }

    /// Records that a sweep of `id` has been handed off.
    pub fn insert(&mut self, id: PodID)
        ensures
            final(self)@ == old(self)@.insert(id@),
    {
        if !self.contains(&id) {
            let ghost before = self.ids@;
            let ghost v = id@;
            self.ids.push(id);
            assert forall|x: (Seq<char>, Seq<char>)| #[trigger] self@.contains(x) == old(self)@.insert(v).contains(x) by {
                if old(self)@.contains(x) {
                    let i = choose|i: int| 0 <= i < before.len() && #[trigger] before[i]@ == x;
                    assert(self.ids@[i] == before[i]);
                }
                if self@.contains(x) {
                    let i = choose|i: int| 0 <= i < self.ids@.len() && #[trigger] self.ids@[i]@ == x;
                    if i < before.len() {
                        assert(self.ids@[i] == before[i]);
                    }
                }
                if x == v {
                    assert(self.ids@[before.len() as int]@ == v);
                }
            }
            assert(self@ =~= old(self)@.insert(v));
        } else {
            assert(old(self)@.insert(id@) =~= old(self)@);
        }
    }

    /// Records that the sweep of `id` has concluded, whatever its outcome.
    pub fn remove(&mut self, id: &PodID)
        ensures
            final(self)@ == old(self)@.remove(id@),
    {
        let ghost before = self.ids@;
        let mut kept: Vec<PodID> = Vec::new();
        let mut i: usize = 0;
        while i < self.ids.len()
            invariant
                i <= self.ids@.len(),
                self.ids@ == before,
                forall|j: int| 0 <= j < kept@.len() ==> (#[trigger] kept@[j])@ != id@,
                forall|j: int| 0 <= j < kept@.len() ==> exists|k: int| 0 <= k < i && #[trigger] before[k]@ == (#[trigger] kept@[j])@,
                forall|k: int| 0 <= k < i && (#[trigger] before[k])@ != id@ ==> exists|j: int| 0 <= j < kept@.len() && #[trigger] kept@[j]@ == before[k]@,
            decreases self.ids@.len() - i,
        {
            if !self.ids[i].same(id) {
                let ghost old_kept = kept@;
                kept.push(self.ids[i].duplicate());
                assert(kept@[old_kept.len() as int]@ == self.ids@[i as int]@);
                assert forall|j: int| 0 <= j < kept@.len() implies exists|k: int| 0 <= k < i + 1 && #[trigger] before[k]@ == (#[trigger] kept@[j])@ by {
                    if j < old_kept.len() {
                        assert(kept@[j] == old_kept[j]);
                    } else {
                        assert(before[i as int]@ == kept@[j]@);
                    }
                }
                assert forall|k: int| 0 <= k < i + 1 && (#[trigger] before[k])@ != id@ implies exists|j: int| 0 <= j < kept@.len() && #[trigger] kept@[j]@ == before[k]@ by {
                    if k < i {
                        let j = choose|j: int| 0 <= j < old_kept.len() && #[trigger] old_kept[j]@ == before[k]@;
                        assert(kept@[j] == old_kept[j]);
                    } else {
                        assert(kept@[old_kept.len() as int]@ == before[k]@);
                    }
                }
            }
            i = i + 1;
        }
        self.ids = kept;
        assert forall|x: (Seq<char>, Seq<char>)| #[trigger] self@.contains(x) == old(self)@.remove(id@).contains(x) by {
            if old(self)@.remove(id@).contains(x) {
                let k = choose|k: int| 0 <= k < before.len() && #[trigger] before[k]@ == x;
                let j = choose|j: int| 0 <= j < self.ids@.len() && #[trigger] self.ids@[j]@ == before[k]@;
            }
            if self@.contains(x) {
                let j = choose|j: int| 0 <= j < self.ids@.len() && #[trigger] self.ids@[j]@ == x;
                let k = choose|k: int| 0 <= k < before.len() && #[trigger] before[k]@ == self.ids@[j]@;
            }
        }
        assert(self@ =~= old(self)@.remove(id@));
    }
}

/// Decides what to do with one Pod event: an `Applied` snapshot of a meshed
/// Pod whose application has terminated successfully, which has an IP and is
/// not already being swept, yields a job; every other event yields none.
/// The caller records the identity in the store once the job is handed off.
pub fn handle_pod(store: &PodStore, ev: &PodEvent) -> (r: Option<SweepJob>)
    ensures
        match ev {
            PodEvent::Applied(p) => job_view(r) == applied_job(store@, *p),
            _ => r is None,
        },
{
    let pod = match ev {
        PodEvent::Applied(pod) => pod,
        _ => return None,
    };
    let id = PodID(pod.namespace.clone(), pod.name.clone());
    let is_meshed = lookup_value(&pod.annotations, inject_annotation()).is_some();
    if store.contains(&id) || !is_meshed {
        return None;
    }
    let statuses = match &pod.container_statuses {
        Some(statuses) => statuses,
        None => return None,
    };
    match check_container_terminated(statuses) {
        Termination::Terminated => {},
        _ => return None,
    }
    match &pod.pod_ip {
        Some(ip) => Some(SweepJob { id, ip: ip.clone() }),
        None => None,
    }
}

/// The URL of a proxy's shutdown endpoint.
pub open spec fn shutdown_url(ip: Seq<char>, port: u16) -> Seq<char> {
    "http://"@ + ip + ":"@ + decimal(port as nat) + "/shutdown"@
}

/// Where the proxy of the Pod at `ip` is told to exit.
pub fn shutdown_endpoint(ip: &str, port: u16) -> (r: String)
    ensures
        r@ == shutdown_url(ip@, port),
{
    let mut s = String::from_str("http://");
    s.append(ip);
    s.append(":");
    push_decimal(&mut s, port as u64);
    s.append("/shutdown");
    s
}

/// The number of jobs for `id` in `jobs`.
pub open spec fn jobs_for(jobs: Seq<((Seq<char>, Seq<char>), Seq<char>)>, id: (Seq<char>, Seq<char>)) -> nat
    decreases jobs.len(),
{
    if jobs.len() == 0 {
        0
    } else {
        jobs_for(jobs.drop_last(), id) + if jobs.last().0 == id { 1nat } else { 0nat }
    }
}

/// The store and the jobs after consuming `Applied` snapshots in order, each
/// job handed off successfully and its identity recorded.
pub open spec fn consume(
    store: Set<(Seq<char>, Seq<char>)>,
    pods: Seq<PodSnapshot>,
) -> (Set<(Seq<char>, Seq<char>)>, Seq<((Seq<char>, Seq<char>), Seq<char>)>)
    decreases pods.len(),
{
    if pods.len() == 0 {
        (store, Seq::empty())
    } else {
        let (s, jobs) = consume(store, pods.drop_last());
        match applied_job(s, pods.last()) {
            Some(j) => (s.insert(j.0), jobs.push(j)),
            None => (s, jobs),
        }
    }
}

/// However often snapshots of one Pod are delivered, at most one job is
/// produced for it while its identity stays in the store; none if it is there
/// at the start, and exactly one if it is not and some snapshot of it is
/// ready to sweep.
pub proof fn lemma_at_most_one_dispatch(
    store: Set<(Seq<char>, Seq<char>)>,
    pods: Seq<PodSnapshot>,
    id: (Seq<char>, Seq<char>),
)
    ensures
        consume(store, pods).0.contains(id) <==> (store.contains(id) || jobs_for(consume(store, pods).1, id) > 0),
        jobs_for(consume(store, pods).1, id) <= 1,
        store.contains(id) ==> jobs_for(consume(store, pods).1, id) == 0,
        !store.contains(id) && (exists|i: int| 0 <= i < pods.len() && pod_id_of(pods[i]) == id
            && (#[trigger] sweep_target(pods[i])) is Some) ==> jobs_for(consume(store, pods).1, id) == 1,
    decreases pods.len(),
{
    if pods.len() > 0 {
        let init = pods.drop_last();
        lemma_at_most_one_dispatch(store, init, id);
        let (s, jobs) = consume(store, init);
        match applied_job(s, pods.last()) {
            Some(j) => {
                assert(consume(store, pods).1 == jobs.push(j));
                assert(jobs.push(j).drop_last() =~= jobs);
                assert(consume(store, pods).0 == s.insert(j.0));
            },
            None => {
                assert(consume(store, pods) == (s, jobs));
            },
        }
        if !store.contains(id) && (exists|i: int| 0 <= i < pods.len() && pod_id_of(pods[i]) == id
            && (#[trigger] sweep_target(pods[i])) is Some) {
            let i = choose|i: int| 0 <= i < pods.len() && pod_id_of(pods[i]) == id
                && (#[trigger] sweep_target(pods[i])) is Some;
            if i < init.len() {
                assert(init[i] == pods[i]);
            }
        }
    }
}

} // verus!
