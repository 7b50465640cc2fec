use linkerd_sweep::sweep::{
    check_container_terminated, handle_pod, shutdown_endpoint, ContainerState, ContainerStatus,
    PodEvent, PodID, PodSnapshot, PodStore, Termination,
};

fn status(name: &str, state: ContainerState) -> ContainerStatus {
    ContainerStatus { name: name.to_string(), state }
}

fn pod(name: &str, statuses: Option<Vec<ContainerStatus>>, ip: Option<&str>, meshed: bool) -> PodSnapshot {
    let annotations = if meshed {
        vec![("linkerd.io/inject".to_string(), "enabled".to_string())]
    } else {
        vec![]
    };
    PodSnapshot {
        namespace: "default".to_string(),
        name: name.to_string(),
        annotations,
        container_statuses: statuses,
        pod_ip: ip.map(|s| s.to_string()),
    }
}

fn finished() -> Option<Vec<ContainerStatus>> {
    Some(vec![
        status("linkerd-proxy", ContainerState::Running),
        status("app", ContainerState::Terminated(0)),
    ])
}

#[test]
fn first_terminated_container_decides() {
    let cs = vec![
        status("linkerd-proxy", ContainerState::Running),
        status("app1", ContainerState::Terminated(0)),
        status("app2", ContainerState::Running),
    ];
    assert!(matches!(check_container_terminated(&cs), Termination::Terminated));
    let cs = vec![
        status("linkerd-proxy", ContainerState::Running),
        status("app1", ContainerState::Terminated(1)),
    ];
    match check_container_terminated(&cs) {
        Termination::Failed(name, code) => {
            assert_eq!(name, "app1");
            assert_eq!(code, 1);
        }
        other => panic!("unexpected {:?}", other),
    }
}

#[test]
fn sidecar_and_running_containers_do_not_decide() {
    let cs = vec![
        status("linkerd-proxy", ContainerState::Terminated(0)),
        status("app", ContainerState::Waiting),
    ];
    assert!(matches!(check_container_terminated(&cs), Termination::NotYetTerminated));
    assert!(matches!(check_container_terminated(&vec![]), Termination::NotYetTerminated));
    let cs = vec![
        status("app1", ContainerState::Terminated(137)),
        status("app2", ContainerState::Terminated(0)),
    ];
    assert!(matches!(check_container_terminated(&cs), Termination::Failed(_, 137)));
}

#[test]
fn finished_pod_yields_one_job() {
    let mut store = PodStore::new();
    let ev = PodEvent::Applied(pod("job-1", finished(), Some("10.0.0.7"), true));
    let job = handle_pod(&store, &ev).expect("a job");
    assert_eq!(job.id, PodID("default".to_string(), "job-1".to_string()));
    assert_eq!(job.ip, "10.0.0.7");
    store.insert(job.id.duplicate());
    assert!(store.contains(&job.id));
    // Redelivery while the sweep is in flight yields nothing.
    assert!(handle_pod(&store, &ev).is_none());
    assert!(handle_pod(&store, &ev).is_none());
    store.remove(&job.id);
    assert!(!store.contains(&job.id));
    assert!(handle_pod(&store, &ev).is_some());
}

#[test]
fn pods_not_ready_yield_nothing() {
    let store = PodStore::new();
    let cases = vec![
        pod("a", finished(), Some("10.0.0.1"), false),
        pod("b", None, Some("10.0.0.1"), true),
        pod("c", finished(), None, true),
        pod("d", Some(vec![status("app", ContainerState::Running)]), Some("10.0.0.1"), true),
        pod("e", Some(vec![status("app", ContainerState::Terminated(2))]), Some("10.0.0.1"), true),
    ];
    for p in cases {
        assert!(handle_pod(&store, &PodEvent::Applied(p)).is_none());
    }
    let id = PodID("default".to_string(), "a".to_string());
    assert!(handle_pod(&store, &PodEvent::Deleted(id)).is_none());
    assert!(handle_pod(&store, &PodEvent::Restarted(vec![pod("f", finished(), Some("10.0.0.1"), true)])).is_none());
}

#[test]
fn store_tracks_identities() {
    let mut store = PodStore::new();
    let a = PodID("ns".to_string(), "a".to_string());
    let b = PodID("ns".to_string(), "b".to_string());
    let a_other_ns = PodID("other".to_string(), "a".to_string());
    store.insert(a.duplicate());
    store.insert(a.duplicate());
    store.insert(b.duplicate());
    assert!(store.contains(&a));
    assert!(store.contains(&b));
    assert!(!store.contains(&a_other_ns));
    store.remove(&a);
    assert!(!store.contains(&a));
    assert!(store.contains(&b));
}

#[test]
fn shutdown_url_and_identity_text() {
    assert_eq!(shutdown_endpoint("10.1.2.3", 4191), "http://10.1.2.3:4191/shutdown");
    assert_eq!(shutdown_endpoint("::1", 0), "http://::1:0/shutdown");
    assert_eq!(PodID("ns".to_string(), "web".to_string()).to_string(), "ns/web");
    let a = PodID("ns".to_string(), "web".to_string());
    assert!(a.same(&a.duplicate()));
    assert!(!a.same(&PodID("ns".to_string(), "api".to_string())));
}
