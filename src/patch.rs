//! JSON Patch synthesis: the operations that wrap a Pod's application
//! containers with the lifecycle shim.
//!
//! Paths are kept structured (`PatchPath`) relative to the Pod spec; they are
//! rendered as JSON pointers under a `SpecRoot` only when the patch is sent.

use vstd::prelude::*;
use crate::text::{decimal, push_decimal, strings_view, extend_strings, text_eq};

verus! {

/// The name of the proxy sidecar container, which is never rewritten.
pub open spec fn sidecar_name() -> Seq<char> {
    "linkerd-proxy"@
}

/// The name of the proxy sidecar container.
pub fn sidecar_container_name() -> (r: &'static str)
    ensures
        r@ == sidecar_name(),
{
    "linkerd-proxy"
}

/// A container of a Pod spec, as far as patching reads it.
#[derive(Debug, Clone)]
pub struct Container {
    pub name: String,
    pub command: Option<Vec<String>>,
    pub args: Option<Vec<String>>,
    /// Whether the container declares a `volumeMounts` list.
    pub has_volume_mounts: bool,
}

pub struct ContainerView {
    pub name: Seq<char>,
    pub command: Option<Seq<Seq<char>>>,
    pub args: Option<Seq<Seq<char>>>,
    pub has_volume_mounts: bool,
}

pub open spec fn opt_strings_view(v: Option<Vec<String>>) -> Option<Seq<Seq<char>>> {
    match v {
        Some(v) => Some(strings_view(v@)),
        None => None,
    }
}

impl View for Container {
    type V = ContainerView;

    open spec fn view(&self) -> ContainerView {
        ContainerView {
            name: self.name@,
            command: opt_strings_view(self.command),
            args: opt_strings_view(self.args),
            has_volume_mounts: self.has_volume_mounts,
        }
    }
}

/// A Pod spec, as far as patching reads it.
#[derive(Debug, Clone)]
pub struct PodSpec {
    pub containers: Vec<Container>,
    /// Whether the spec declares an `initContainers` list.
    pub has_init_containers: bool,
    /// Whether the spec declares a `volumes` list.
    pub has_volumes: bool,
}

pub struct PodSpecView {
    pub containers: Seq<ContainerView>,
    pub has_init_containers: bool,
    pub has_volumes: bool,
}

impl View for PodSpec {
    type V = PodSpecView;

    open spec fn view(&self) -> PodSpecView {
        PodSpecView {
            containers: self.containers@.map_values(|c: Container| c@),
            has_init_containers: self.has_init_containers,
            has_volumes: self.has_volumes,
        }
    }
}

/// The two kinds of operation that patches use; nothing is ever removed.
#[derive(Debug, Clone, Copy, PartialEq, Eq, Structural)]
pub enum OpKind {
    Add,
    Replace,
}

/// A location in a Pod spec that a patch writes to.
#[derive(Debug, Clone, Copy, PartialEq, Eq, Structural)]
pub enum PatchPath {
    InitContainers,
    InitContainersAppend,
    Volumes,
    VolumesAppend,
    ContainerCommand(usize),
    ContainerArgs(usize),
    ContainerVolumeMounts(usize),
    ContainerVolumeMountsAppend(usize),
}

/// Where the Pod spec sits in the admitted object.
#[derive(Debug, Clone, Copy, PartialEq, Eq, Structural)]
pub enum SpecRoot {
    /// A Pod: its spec is at `/spec`.
    Pod,
    /// A Job: the Pod spec is its template's, at `/spec/template/spec`.
    JobTemplate,
}

/// A volume mount of the shim's shared volume.
#[derive(Debug, Clone)]
pub struct VolumeMountSpec {
    pub name: String,
    pub mount_path: String,
    pub read_only: bool,
}

pub struct VolumeMountView {
    pub name: Seq<char>,
    pub mount_path: Seq<char>,
    pub read_only: bool,
}

impl View for VolumeMountSpec {
    type V = VolumeMountView;

    open spec fn view(&self) -> VolumeMountView {
        VolumeMountView { name: self.name@, mount_path: self.mount_path@, read_only: self.read_only }
    }
}

/// The init container that stages the shim binary into the shared volume.
#[derive(Debug, Clone)]
pub struct InitContainerSpec {
    pub name: String,
    pub image: String,
    pub image_pull_policy: String,
    pub command: Vec<String>,
    pub args: Vec<String>,
    pub volume_mount: VolumeMountSpec,
}

pub struct InitContainerView {
    pub name: Seq<char>,
    pub image: Seq<char>,
    pub image_pull_policy: Seq<char>,
    pub command: Seq<Seq<char>>,
    pub args: Seq<Seq<char>>,
    pub volume_mount: VolumeMountView,
}

impl View for InitContainerSpec {
    type V = InitContainerView;

    open spec fn view(&self) -> InitContainerView {
        InitContainerView {
            name: self.name@,
            image: self.image@,
            image_pull_policy: self.image_pull_policy@,
            command: strings_view(self.command@),
            args: strings_view(self.args@),
            volume_mount: self.volume_mount@,
        }
    }
}

/// The value that an operation writes.
#[derive(Debug, Clone)]
pub enum PatchValue {
    /// An empty list, which materializes an absent list field.
    EmptyList,
    InitContainer(InitContainerSpec),
    /// An `emptyDir` volume with the given name.
    EmptyDirVolume(String),
    VolumeMount(VolumeMountSpec),
    Strings(Vec<String>),
}

pub enum PatchValueView {
    EmptyList,
    InitContainer(InitContainerView),
    EmptyDirVolume(Seq<char>),
    VolumeMount(VolumeMountView),
    Strings(Seq<Seq<char>>),
}

impl View for PatchValue {
    type V = PatchValueView;

    open spec fn view(&self) -> PatchValueView {
        match self {
            PatchValue::EmptyList => PatchValueView::EmptyList,
            PatchValue::InitContainer(c) => PatchValueView::InitContainer(c@),
            PatchValue::EmptyDirVolume(n) => PatchValueView::EmptyDirVolume(n@),
            PatchValue::VolumeMount(m) => PatchValueView::VolumeMount(m@),
            PatchValue::Strings(v) => PatchValueView::Strings(strings_view(v@)),
        }
    }
}

/// One operation of a JSON Patch.
#[derive(Debug, Clone)]
pub struct PatchOperation {
    pub op: OpKind,
    pub path: PatchPath,
    pub value: PatchValue,
}

pub struct PatchOpView {
    pub op: OpKind,
    pub path: PatchPath,
    pub value: PatchValueView,
}

impl View for PatchOperation {
    type V = PatchOpView;

    open spec fn view(&self) -> PatchOpView {
        PatchOpView { op: self.op, path: self.path, value: self.value@ }
    }
}

pub open spec fn ops_view(ops: Seq<PatchOperation>) -> Seq<PatchOpView> {
    ops.map_values(|o: PatchOperation| o@)
}

pub open spec fn add_op(path: PatchPath, value: PatchValueView) -> PatchOpView {
    PatchOpView { op: OpKind::Add, path, value }
}

pub open spec fn replace_op(path: PatchPath, value: PatchValueView) -> PatchOpView {
    PatchOpView { op: OpKind::Replace, path, value }
}

/// The name of the shared volume that carries the shim.
pub open spec fn shim_volume_name() -> Seq<char> {
    "linkerd-await"@
}

/// Where the shim binary is found inside the containers.
pub open spec fn shim_binary_path() -> Seq<char> {
    "/linkerd/linkerd-await"@
}

pub open spec fn shim_mount_view(read_only: bool) -> VolumeMountView {
    VolumeMountView { name: shim_volume_name(), mount_path: "/linkerd"@, read_only }
}

pub open spec fn shim_init_container_view() -> InitContainerView {
    InitContainerView {
        name: "await-init"@,
        image: "ghcr.io/mateiidavid/await-util:test"@,
        image_pull_policy: "IfNotPresent"@,
        command: seq!["/bin/sh"@],
        args: seq!["-c"@, "cp /tmp/linkerd-await /linkerd/linkerd-await"@],
        volume_mount: shim_mount_view(false),
    }
}

/// The arguments of a wrapped container: the shim's flags, then the
/// container's own command and arguments.
pub open spec fn wrapped_args(command: Seq<Seq<char>>, args: Option<Seq<Seq<char>>>) -> Seq<Seq<char>> {
    seq!["--shutdown"@, "--"@] + command + match args {
        Some(a) => a,
        None => Seq::empty(),
    }
}

/// The operations that wrap the container at index `i`, whose command is known.
pub open spec fn wrap_ops(c: ContainerView, i: usize) -> Seq<PatchOpView> {
    seq![
        replace_op(PatchPath::ContainerCommand(i), PatchValueView::Strings(seq![shim_binary_path()])),
        replace_op(PatchPath::ContainerArgs(i), PatchValueView::Strings(wrapped_args(c.command.unwrap(), c.args))),
    ] + (if c.has_volume_mounts {
        Seq::empty()
    } else {
        seq![add_op(PatchPath::ContainerVolumeMounts(i), PatchValueView::EmptyList)]
    }) + seq![add_op(PatchPath::ContainerVolumeMountsAppend(i), PatchValueView::VolumeMount(shim_mount_view(true)))]
}

/// The operations for the container at index `i`: none for the sidecar or
/// for a container without a command.
pub open spec fn container_ops(c: ContainerView, i: usize) -> Seq<PatchOpView> {
    if c.name == sidecar_name() || c.command is None {
        Seq::empty()
    } else {
        wrap_ops(c, i)
    }
}

/// The operations for each container, in declared order.
pub open spec fn containers_ops(cs: Seq<ContainerView>) -> Seq<PatchOpView>
    decreases cs.len(),
{
    if cs.len() == 0 {
        Seq::empty()
    } else {
        containers_ops(cs.drop_last()) + container_ops(cs.last(), (cs.len() - 1) as usize)
    }
}

/// The operations that add the shim's init container and shared volume,
/// each list materialized first where the spec lacks it.
pub open spec fn shim_ops(spec: PodSpecView) -> Seq<PatchOpView> {
    (if spec.has_init_containers {
        Seq::empty()
    } else {
        seq![add_op(PatchPath::InitContainers, PatchValueView::EmptyList)]
    }) + seq![add_op(PatchPath::InitContainersAppend, PatchValueView::InitContainer(shim_init_container_view()))]
    + (if spec.has_volumes {
        Seq::empty()
    } else {
        seq![add_op(PatchPath::Volumes, PatchValueView::EmptyList)]
    }) + seq![add_op(PatchPath::VolumesAppend, PatchValueView::EmptyDirVolume(shim_volume_name()))]
}

/// The whole patch for a Pod spec.
pub open spec fn pod_patch(spec: PodSpecView) -> Seq<PatchOpView> {
    shim_ops(spec) + containers_ops(spec.containers)
}

/// Why a single container cannot be wrapped.
#[derive(Debug, Clone, Copy, PartialEq, Eq, Structural)]
pub enum PatchError {
    /// The container declares no command, so there is no entrypoint to wrap.
    MissingCommand,
}

fn owned(s: &str) -> (r: String)
    ensures
        r@ == s@,
{
    String::from_str(s)
}

fn shim_mount(read_only: bool) -> (r: VolumeMountSpec)
    ensures
        r@ == shim_mount_view(read_only),
{
    VolumeMountSpec { name: owned("linkerd-await"), mount_path: owned("/linkerd"), read_only }
}

fn shim_init_container() -> (r: InitContainerSpec)
    ensures
        r@ == shim_init_container_view(),
{
    let mut command: Vec<String> = Vec::new();
    command.push(owned("/bin/sh"));
    let mut args: Vec<String> = Vec::new();
    args.push(owned("-c"));
    args.push(owned("cp /tmp/linkerd-await /linkerd/linkerd-await"));
    let r = InitContainerSpec {
        name: owned("await-init"),
        image: owned("ghcr.io/mateiidavid/await-util:test"),
        image_pull_policy: owned("IfNotPresent"),
        command,
        args,
        volume_mount: shim_mount(false),
    };
    assert(r@.command =~= shim_init_container_view().command);
    assert(r@.args =~= shim_init_container_view().args);
    r
}

/// Builds the operations that wrap the container at index `index`: its
/// command becomes the shim, its arguments the shim's flags followed by the
/// container's own command and arguments, and it mounts the shared volume.
pub fn create_container_patches(index: usize, c: &Container) -> (r: Result<Vec<PatchOperation>, PatchError>)
    ensures
        match r {
            Ok(ops) => c.command.is_some() && ops_view(ops@) == wrap_ops(c@, index),
            Err(e) => c.command.is_none() && e == PatchError::MissingCommand,
        },
{
    let command = match &c.command {
        Some(command) => command,
        None => return Err(PatchError::MissingCommand),
    };
    let mut new_args: Vec<String> = Vec::new();
    new_args.push(owned("--shutdown"));
    new_args.push(owned("--"));
    assert(strings_view(new_args@) =~= seq!["--shutdown"@, "--"@]);
    extend_strings(&mut new_args, command);
    match &c.args {
        Some(args) => extend_strings(&mut new_args, args),
        None => {},
    }
    assert(strings_view(new_args@) =~= wrapped_args(c@.command.unwrap(), c@.args));

    let mut shim_command: Vec<String> = Vec::new();
    shim_command.push(owned("/linkerd/linkerd-await"));
    assert(strings_view(shim_command@) =~= seq![shim_binary_path()]);

    let mut ops: Vec<PatchOperation> = Vec::new();
    ops.push(PatchOperation {
        op: OpKind::Replace,
        path: PatchPath::ContainerCommand(index),
        value: PatchValue::Strings(shim_command),
    });
    ops.push(PatchOperation {
        op: OpKind::Replace,
        path: PatchPath::ContainerArgs(index),
        value: PatchValue::Strings(new_args),
    });
    if !c.has_volume_mounts {
        ops.push(PatchOperation {
            op: OpKind::Add,
            path: PatchPath::ContainerVolumeMounts(index),
            value: PatchValue::EmptyList,
        });
    }
    ops.push(PatchOperation {
        op: OpKind::Add,
        path: PatchPath::ContainerVolumeMountsAppend(index),
        value: PatchValue::VolumeMount(shim_mount(true)),
    });
    assert(ops_view(ops@) =~= wrap_ops(c@, index));
    Ok(ops)
}

/// Something that can describe its own mutation as a JSON Patch.
pub trait JsonPatch {
    spec fn patch_spec(&self) -> Seq<PatchOpView>;

    fn generate_patch(&self) -> (r: Vec<PatchOperation>)
        ensures
            ops_view(r@) == self.patch_spec(),
    ;
}

impl JsonPatch for PodSpec {
    open spec fn patch_spec(&self) -> Seq<PatchOpView> {
        pod_patch(self@)
    }

    /// Adds the shim's init container and volume, then wraps every container
    /// but the sidecar; a container without a command is left as it is.
    fn generate_patch(&self) -> (r: Vec<PatchOperation>) {
        let mut ops: Vec<PatchOperation> = Vec::new();
        if !self.has_init_containers {
            ops.push(PatchOperation { op: OpKind::Add, path: PatchPath::InitContainers, value: PatchValue::EmptyList });
        }
        ops.push(PatchOperation {
            op: OpKind::Add,
            path: PatchPath::InitContainersAppend,
            value: PatchValue::InitContainer(shim_init_container()),
        });
        if !self.has_volumes {
            ops.push(PatchOperation { op: OpKind::Add, path: PatchPath::Volumes, value: PatchValue::EmptyList });
        }
        ops.push(PatchOperation {
            op: OpKind::Add,
            path: PatchPath::VolumesAppend,
            value: PatchValue::EmptyDirVolume(owned("linkerd-await")),
        });
        assert(ops_view(ops@) =~= shim_ops(self@));
        let ghost cs = self@.containers;
        let sidecar = sidecar_container_name();
        let mut i: usize = 0;
        while i < self.containers.len()
            invariant
                i <= self.containers@.len(),
                cs == self@.containers,
                sidecar@ == sidecar_name(),
                ops_view(ops@) == shim_ops(self@) + containers_ops(cs.take(i as int)),
            decreases self.containers@.len() - i,
        {
            let c = &self.containers[i];
            let ghost before = ops@;
            assert(cs.take(i + 1).drop_last() =~= cs.take(i as int));
            assert(cs.take(i + 1).last() == c@);
            if !text_eq(c.name.as_str(), sidecar) {
                match create_container_patches(i, c) {
                    Ok(mut more) => {
                        let ghost added = more@;
                        ops.append(&mut more);
                        assert(ops_view(ops@) =~= ops_view(before) + ops_view(added));
                    },
                    Err(_) => {},
                }
            }
            assert(ops_view(ops@) =~= shim_ops(self@) + containers_ops(cs.take(i + 1)));
            i = i + 1;
        }
        assert(cs.take(i as int) =~= cs);
        ops
    }
}

/// The index of the container that a path points into, if it points into one.
pub open spec fn path_container(p: PatchPath) -> Option<int> {
    match p {
        PatchPath::ContainerCommand(i) => Some(i as int),
        PatchPath::ContainerArgs(i) => Some(i as int),
        PatchPath::ContainerVolumeMounts(i) => Some(i as int),
        PatchPath::ContainerVolumeMountsAppend(i) => Some(i as int),
        _ => None,
    }
}

/// The list path that an append path (`.../-`) appends into.
pub open spec fn append_target(p: PatchPath) -> Option<PatchPath> {
    match p {
        PatchPath::InitContainersAppend => Some(PatchPath::InitContainers),
        PatchPath::VolumesAppend => Some(PatchPath::Volumes),
        PatchPath::ContainerVolumeMountsAppend(i) => Some(PatchPath::ContainerVolumeMounts(i)),
        _ => None,
    }
}

/// Whether `spec` lacks the list field at `p`.
pub open spec fn list_absent(spec: PodSpecView, p: PatchPath) -> bool {
    match p {
        PatchPath::InitContainers => !spec.has_init_containers,
        PatchPath::Volumes => !spec.has_volumes,
        PatchPath::ContainerVolumeMounts(i) => i < spec.containers.len()
            && !spec.containers[i as int].has_volume_mounts,
        _ => false,
    }
}

proof fn lemma_containers_ops_targets(cs: Seq<ContainerView>)
    requires
        cs.len() <= usize::MAX,
    ensures
        forall|k: int| 0 <= k < containers_ops(cs).len() ==>
            (match path_container(#[trigger] containers_ops(cs)[k].path) {
                Some(j) => 0 <= j < cs.len() && cs[j].name != sidecar_name() && cs[j].command is Some,
                None => false,
            }),
    decreases cs.len(),
{
    if cs.len() > 0 {
        let init = cs.drop_last();
        lemma_containers_ops_targets(init);
        let a = containers_ops(init);
        let b = container_ops(cs.last(), (cs.len() - 1) as usize);
        assert forall|k: int| 0 <= k < containers_ops(cs).len() implies
            (match path_container(#[trigger] containers_ops(cs)[k].path) {
                Some(j) => 0 <= j < cs.len() && cs[j].name != sidecar_name() && cs[j].command is Some,
                None => false,
            }) by {
            if k < a.len() {
                assert(containers_ops(cs)[k] == a[k]);
                match path_container(a[k].path) {
                    Some(j) => assert(init[j] == cs[j]),
                    None => {},
                }
            } else {
                assert(containers_ops(cs)[k] == b[k - a.len()]);
            }
        }
    }
}

/// No operation of a Pod spec's patch points into a container that is named
/// like the sidecar: the sidecar is never rewritten.
pub proof fn lemma_sidecar_untouched(spec: PodSpecView, i: int)
    requires
        spec.containers.len() <= usize::MAX,
        0 <= i < spec.containers.len(),
        spec.containers[i].name == sidecar_name(),
    ensures
        forall|k: int| 0 <= k < pod_patch(spec).len() ==>
            path_container(#[trigger] pod_patch(spec)[k].path) != Some(i),
{
    let a = shim_ops(spec);
    let b = containers_ops(spec.containers);
    lemma_containers_ops_targets(spec.containers);
    assert forall|k: int| 0 <= k < pod_patch(spec).len() implies
        path_container(#[trigger] pod_patch(spec)[k].path) != Some(i) by {
        if k < a.len() {
            assert(pod_patch(spec)[k] == a[k]);
        } else {
            assert(pod_patch(spec)[k] == b[k - a.len()]);
        }
    }
}

proof fn lemma_containers_materialize(cs: Seq<ContainerView>, k: int)
    requires
        cs.len() <= usize::MAX,
        0 <= k < containers_ops(cs).len(),
        containers_ops(cs)[k].path is ContainerVolumeMountsAppend,
        !cs[path_container(containers_ops(cs)[k].path).unwrap()].has_volume_mounts,
    ensures
        exists|j: int| 0 <= j < k && containers_ops(cs)[j] == add_op(
            PatchPath::ContainerVolumeMounts(containers_ops(cs)[k].path->ContainerVolumeMountsAppend_0),
            PatchValueView::EmptyList,
        ),
    decreases cs.len(),
{
    lemma_containers_ops_targets(cs);
    let init = cs.drop_last();
    let a = containers_ops(init);
    let b = container_ops(cs.last(), (cs.len() - 1) as usize);
    let i = containers_ops(cs)[k].path->ContainerVolumeMountsAppend_0;
    if k < a.len() {
        assert(containers_ops(cs)[k] == a[k]);
        lemma_containers_ops_targets(init);
        assert(init[i as int] == cs[i as int]);
        lemma_containers_materialize(init, k);
        let j = choose|j: int| 0 <= j < k && a[j] == add_op(
            PatchPath::ContainerVolumeMounts(i),
            PatchValueView::EmptyList,
        );
        assert(containers_ops(cs)[j] == a[j]);
    } else {
        assert(containers_ops(cs)[k] == b[k - a.len()]);
        assert(b.len() == 4);
        assert(containers_ops(cs)[a.len() + 2int] == b[2]);
    }
}

/// Wherever a Pod spec's patch appends into a list that the spec lacks, an
/// earlier operation of the same patch adds that list, empty.
pub proof fn lemma_materialize_before_append(spec: PodSpecView, k: int)
    requires
        spec.containers.len() <= usize::MAX,
        0 <= k < pod_patch(spec).len(),
        append_target(pod_patch(spec)[k].path) is Some,
        list_absent(spec, append_target(pod_patch(spec)[k].path).unwrap()),
    ensures
        exists|j: int| 0 <= j < k && pod_patch(spec)[j] == add_op(
            append_target(pod_patch(spec)[k].path).unwrap(),
            PatchValueView::EmptyList,
        ),
{
    let a = shim_ops(spec);
    let b = containers_ops(spec.containers);
    let ops = pod_patch(spec);
    if k < a.len() {
        assert(ops[k] == a[k]);
        assert(ops[0] == a[0]);
        if ops[k].path is VolumesAppend {
            let j: int = if spec.has_init_containers { 1 } else { 2 };
            assert(ops[j] == a[j]);
        }
    } else {
        lemma_containers_ops_targets(spec.containers);
        assert(ops[k] == b[k - a.len()]);
        lemma_containers_materialize(spec.containers, k - a.len());
        let i = ops[k].path->ContainerVolumeMountsAppend_0;
        let j = choose|j: int| 0 <= j < k - a.len() && b[j] == add_op(
            PatchPath::ContainerVolumeMounts(i),
            PatchValueView::EmptyList,
        );
        assert(ops[a.len() + j] == b[j]);
    }
}

impl SpecRoot {
    /// The JSON pointer of the Pod spec in the admitted object.
    pub open spec fn prefix(self) -> Seq<char> {
        match self {
            SpecRoot::Pod => "/spec"@,
            SpecRoot::JobTemplate => "/spec/template/spec"@,
        }
    }
}

/// The JSON pointer that `path` denotes under `root`.
pub open spec fn path_text(root: SpecRoot, path: PatchPath) -> Seq<char> {
    root.prefix() + match path {
        PatchPath::InitContainers => "/initContainers"@,
        PatchPath::InitContainersAppend => "/initContainers/-"@,
        PatchPath::Volumes => "/volumes"@,
        PatchPath::VolumesAppend => "/volumes/-"@,
        PatchPath::ContainerCommand(i) => "/containers/"@ + decimal(i as nat) + "/command"@,
        PatchPath::ContainerArgs(i) => "/containers/"@ + decimal(i as nat) + "/args"@,
        PatchPath::ContainerVolumeMounts(i) => "/containers/"@ + decimal(i as nat) + "/volumeMounts"@,
        PatchPath::ContainerVolumeMountsAppend(i) => "/containers/"@ + decimal(i as nat) + "/volumeMounts/-"@,
    }
}

impl PatchPath {
    /// Renders the path as a JSON pointer under `root`.
    pub fn pointer(&self, root: SpecRoot) -> (r: String)
        ensures
            r@ == path_text(root, *self),
    {
        let mut s = match root {
            SpecRoot::Pod => owned("/spec"),
            SpecRoot::JobTemplate => owned("/spec/template/spec"),
        };
        let ghost p = s@;
        match *self {
            PatchPath::InitContainers => s.append("/initContainers"),
            PatchPath::InitContainersAppend => s.append("/initContainers/-"),
            PatchPath::Volumes => s.append("/volumes"),
            PatchPath::VolumesAppend => s.append("/volumes/-"),
            PatchPath::ContainerCommand(i) => {
                s.append("/containers/");
                push_decimal(&mut s, i as u64);
                s.append("/command");
            },
            PatchPath::ContainerArgs(i) => {
                s.append("/containers/");
                push_decimal(&mut s, i as u64);
                s.append("/args");
            },
            PatchPath::ContainerVolumeMounts(i) => {
                s.append("/containers/");
                push_decimal(&mut s, i as u64);
                s.append("/volumeMounts");
            },
            PatchPath::ContainerVolumeMountsAppend(i) => {
                s.append("/containers/");
                push_decimal(&mut s, i as u64);
                s.append("/volumeMounts/-");
            },
        }
        assert(s@ =~= path_text(root, *self));
        s
    }
}

} // verus!
