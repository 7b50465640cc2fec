//! Recognition of the proxy and application processes among the running ones.

use vstd::prelude::*;
use crate::text::text_eq;

verus! {

/// A process: its id and its command name.
#[derive(Debug, Clone)]
pub struct ProcInfo(pub i32, pub String);

impl ProcInfo {
    pub fn new(pid: i32, comm: String) -> (r: ProcInfo)
        ensures
            r.0 == pid,
            r.1@ == comm@,
    {
        ProcInfo(pid, comm)
    }
}

/// A process that the watcher looks for.
#[derive(Debug, Clone)]
pub enum Proc {
    Proxy(ProcInfo),
    App(ProcInfo),
}

/// A found process: whether it is the proxy, its id, its command name.
pub open spec fn proc_view(p: Proc) -> (bool, i32, Seq<char>) {
    match p {
        Proc::Proxy(i) => (true, i.0, i.1@),
        Proc::App(i) => (false, i.0, i.1@),
    }
}

/// What one process is: the proxy when its command name is the proxy's,
/// else the application when it is the application's, else neither.
pub open spec fn classify(pid: i32, comm: Seq<char>, proxy: Seq<char>, app: Seq<char>) -> Option<(bool, i32, Seq<char>)> {
    if comm == proxy {
        Some((true, pid, comm))
    } else if comm == app {
        Some((false, pid, comm))
    } else {
        None
    }
}

/// The proxy and application processes among `stats`, in their order.
pub open spec fn scan(stats: Seq<(i32, String)>, proxy: Seq<char>, app: Seq<char>) -> Seq<(bool, i32, Seq<char>)>
    decreases stats.len(),
{
    if stats.len() == 0 {
        Seq::empty()
    } else {
        let rest = scan(stats.drop_last(), proxy, app);
        match classify(stats.last().0, stats.last().1@, proxy, app) {
            Some(p) => rest.push(p),
            None => rest,
        }
    }
}

/// Classifies one process by its command name.
pub fn classify_process(pid: i32, comm: &String, proxy_comm: &str, app_comm: &str) -> (r: Option<Proc>)
    ensures
        match r {
            Some(p) => classify(pid, comm@, proxy_comm@, app_comm@) == Some(proc_view(p)),
            None => classify(pid, comm@, proxy_comm@, app_comm@) is None,
        },
{
    if text_eq(comm.as_str(), proxy_comm) {
        Some(Proc::Proxy(ProcInfo::new(pid, comm.clone())))
    } else if text_eq(comm.as_str(), app_comm) {
        Some(Proc::App(ProcInfo::new(pid, comm.clone())))
    } else {
        None
    }
}

/// Picks the proxy and application processes out of `(pid, command name)`
/// pairs, keeping their order.
pub fn scan_processes(stats: &Vec<(i32, String)>, proxy_comm: &str, app_comm: &str) -> (r: Vec<Proc>)
    ensures
        r@.map_values(|p: Proc| proc_view(p)) == scan(stats@, proxy_comm@, app_comm@),
{
    let mut found: Vec<Proc> = Vec::new();
    let mut i: usize = 0;
    while i < stats.len()
        invariant
            i <= stats@.len(),
            found@.map_values(|p: Proc| proc_view(p)) == scan(stats@.take(i as int), proxy_comm@, app_comm@),
        decreases stats@.len() - i,
    {
        let ghost before = found@;
        assert(stats@.take(i + 1).drop_last() =~= stats@.take(i as int));
        assert(stats@.take(i + 1).last() == stats@[i as int]);
        match classify_process(stats[i].0, &stats[i].1, proxy_comm, app_comm) {
            Some(p) => {
                found.push(p);
                assert(found@.map_values(|p: Proc| proc_view(p)) =~= before.map_values(|p: Proc| proc_view(p)).push(proc_view(found@.last())));
            },
            None => {},
        }
        i = i + 1;
    }
    assert(stats@.take(i as int) =~= stats@);
    found
}

} // verus!
