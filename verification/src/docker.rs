//! Jobs in containers: which image and command a job gets, how the container is
//! confined, and how the agent sees a container through.

use vstd::prelude::*;
use vstd::string::*;
use vstd::utf8::*;

use crate::text;

verus! {

// ---------------------------------------------------------------------------
// The runtime

/// The container runtimes that the agent knows.
#[derive(Debug, Clone, Copy, PartialEq, Eq, Structural)]
pub enum RuntimeKind {
    Docker,
    Kata,
}

/// The runtime for a setting in lower case.
pub open spec fn runtime_for(setting: Seq<char>) -> RuntimeKind {
    if setting == "kata"@ {
        RuntimeKind::Kata
    } else {
        RuntimeKind::Docker
    }
}

/// The runtime for a setting in lower case.
pub fn runtime_named(setting: &str) -> (r: RuntimeKind)
    ensures
        r == runtime_for(setting@),
{
    if text::same_text(setting, "kata") {
        RuntimeKind::Kata
    } else {
        RuntimeKind::Docker
    }
}

/// The runtime that a setting asks for, in whatever case it is written. Without
/// a setting it is Docker.
pub fn get_container_runtime(setting: &Option<String>) -> (r: RuntimeKind)
    ensures
        setting is None ==> r == RuntimeKind::Docker,
        setting is Some ==> r == runtime_for(text::lowercased(setting->0@)),
        setting is Some && is_ascii_chars(setting->0@) ==> r == runtime_for(
            setting->0@.map_values(|c: char| text::ascii_lower(c)),
        ),
{
    match setting {
        Some(s) => runtime_named(text::lower_case(s.as_str()).as_str()),
        None => RuntimeKind::Docker,
    }
}

// ---------------------------------------------------------------------------
// Image and command

/// What a job asks of its container.
#[derive(Debug)]
pub struct JobConfig {
    pub script: Option<String>,
    pub image: Option<String>,
    pub blend_file: Option<String>,
    pub source: Option<String>,
    pub output: Option<String>,
    pub command: Option<String>,
}

/// The contents of a `JobConfig`.
pub struct JobConfigModel {
    pub script: Option<Seq<char>>,
    pub image: Option<Seq<char>>,
    pub blend_file: Option<Seq<char>>,
    pub source: Option<Seq<char>>,
    pub output: Option<Seq<char>>,
    pub command: Option<Seq<char>>,
}

impl View for JobConfig {
    type V = JobConfigModel;

    open spec fn view(&self) -> JobConfigModel {
        JobConfigModel {
            script: text::opt_text(self.script),
            image: text::opt_text(self.image),
            blend_file: text::opt_text(self.blend_file),
            source: text::opt_text(self.source),
            output: text::opt_text(self.output),
            command: text::opt_text(self.command),
        }
    }
}

/// The image of a job.
pub open spec fn image_of(job_type: Seq<char>, config: JobConfigModel) -> Seq<char> {
    if job_type == "python"@ {
        text::or_default(config.image, "pytorch/pytorch:2.1.0-cuda12.1-cudnn8-runtime"@)
    } else if job_type == "blender"@ {
        "nvidia/cuda:12.2.0-runtime-ubuntu22.04"@
    } else if job_type == "cuda"@ {
        "nvidia/cuda:12.2.0-devel-ubuntu22.04"@
    } else {
        text::or_default(config.image, "ubuntu:22.04"@)
    }
}

/// The shell command of a job.
pub open spec fn command_of(job_type: Seq<char>, config: JobConfigModel) -> Seq<char> {
    if job_type == "python"@ {
        "ls -la /workspace && if [ -f requirements.txt ]; then pip install -r requirements.txt -q; fi; python "@
            + text::or_default(config.script, "main.py"@)
    } else if job_type == "blender"@ {
        "bash -c 'apt-get update -qq && apt-get install -y -qq blender && blender -b "@ + text::or_default(
            config.blend_file,
            "scene.blend"@,
        ) + " -o /output/frame_#### -s 1 -e 1 -a'"@
    } else if job_type == "cuda"@ {
        "bash -c 'cd /workspace && nvcc -o "@ + text::or_default(config.output, "program"@) + " "@ + text::or_default(
            config.source,
            "main.cu"@,
        ) + " && ./"@ + text::or_default(config.output, "program"@) + "'"@
    } else {
        text::or_default(config.command, "bash"@)
    }
}

/// The image of a job, and the command that its container runs.
pub fn build_docker_config(job_type: &str, config: &JobConfig) -> (r: (String, Vec<String>))
    ensures
        r.0@ == image_of(job_type@, config@),
        text::texts(r.1@) == seq!["bash"@, "-c"@, command_of(job_type@, config@)],
{
    let image: String;
    let command: String;
    if text::same_text(job_type, "python") {
        image = text::text_or(&config.image, "pytorch/pytorch:2.1.0-cuda12.1-cudnn8-runtime");
        command = text::cat2(
            "ls -la /workspace && if [ -f requirements.txt ]; then pip install -r requirements.txt -q; fi; python ",
            text::text_or(&config.script, "main.py").as_str(),
        );
    } else if text::same_text(job_type, "blender") {
        image = "nvidia/cuda:12.2.0-runtime-ubuntu22.04".to_owned();
        command = text::cat3(
            "bash -c 'apt-get update -qq && apt-get install -y -qq blender && blender -b ",
            text::text_or(&config.blend_file, "scene.blend").as_str(),
            " -o /output/frame_#### -s 1 -e 1 -a'",
        );
    } else if text::same_text(job_type, "cuda") {
        let out: String = text::text_or(&config.output, "program");
        let src: String = text::text_or(&config.source, "main.cu");
        image = "nvidia/cuda:12.2.0-devel-ubuntu22.04".to_owned();
        let build: String = text::cat5(
            "bash -c 'cd /workspace && nvcc -o ",
            out.as_str(),
            " ",
            src.as_str(),
            " && ./",
        );
        command = text::cat3(build.as_str(), out.as_str(), "'");
    } else {
        image = text::text_or(&config.image, "ubuntu:22.04");
        command = text::text_or(&config.command, "bash");
    }
    let mut cmd: Vec<String> = Vec::new();
    cmd.push("bash".to_owned());
    cmd.push("-c".to_owned());
    cmd.push(command);
    assert(text::texts(cmd@) =~= seq!["bash"@, "-c"@, command_of(job_type@, config@)]);
    (image, cmd)
}

// ---------------------------------------------------------------------------
// Arguments

/// Everything that the arguments of `docker run` depend on.
#[derive(Debug)]
pub struct ContainerSpec {
    pub work_dir: String,
    pub job_id: String,
    pub memory_limit: String,
    pub cpu_limit: String,
    pub image: String,
    pub cmd: Vec<String>,
}

/// How the machine's GPUs are handed to a container.
#[derive(Debug)]
pub enum GpuAccess {
    /// Kata: each device by its PCI address.
    Kata { pci_devices: Vec<String> },
    /// Docker: all GPUs, where it can pass them on.
    Docker { supported: bool },
}

/// The arguments that pass PCI devices on.
pub open spec fn device_args(pci_devices: Seq<Seq<char>>) -> Seq<Seq<char>>
    decreases pci_devices.len(),
{
    if pci_devices.len() == 0 {
        seq![]
    } else {
        device_args(pci_devices.drop_last()) + seq![
            "--device"@,
            "/dev/bus/pci/"@ + pci_devices.last() + ":/dev/bus/pci/"@ + pci_devices.last(),
        ]
    }
}

/// The arguments that choose the runtime and hand the GPUs over.
pub open spec fn gpu_args(gpu: GpuAccess) -> Seq<Seq<char>> {
    match gpu {
        GpuAccess::Kata { pci_devices } => seq!["--runtime=io.containerd.kata.v2"@] + device_args(
            text::texts(pci_devices@),
        ),
        GpuAccess::Docker { supported } => if supported {
            seq!["--gpus"@, "all"@]
        } else {
            seq![]
        },
    }
}

/// The arguments that confine every job: its container is removed when it ends,
/// has no network, gains no privileges and has no capabilities.
pub open spec fn sandbox_args() -> Seq<Seq<char>> {
    seq![
        "--rm"@,
        "--network"@,
        "none"@,
        "--security-opt"@,
        "no-new-privileges:true"@,
        "--cap-drop"@,
        "ALL"@,
    ]
}

/// The arguments for the job's directories, environment and limits.
pub open spec fn job_args(job: ContainerSpec) -> Seq<Seq<char>> {
    seq![
        "-v"@,
        job.work_dir@ + ":/workspace"@,
        "-v"@,
        job.work_dir@ + "/output:/output"@,
        "-w"@,
        "/workspace"@,
        "-e"@,
        "JOB_ID="@ + job.job_id@,
        "-e"@,
        "PYTHONUNBUFFERED=1"@,
        "--memory"@,
        job.memory_limit@,
        "--cpus"@,
        job.cpu_limit@,
    ]
}

/// The arguments of `docker` for a job.
pub open spec fn docker_args_of(job: ContainerSpec, gpu: GpuAccess) -> Seq<Seq<char>> {
    seq!["run"@] + gpu_args(gpu) + sandbox_args() + job_args(job) + seq![job.image@] + text::texts(
        job.cmd@,
    )
}

fn push_text(list: &mut Vec<String>, s: &str)
    ensures
        text::texts(final(list)@) == text::texts(old(list)@).push(s@),
{
    list.push(s.to_owned());
    assert(text::texts(list@) =~= text::texts(old(list)@).push(s@));
}

fn push_pair(list: &mut Vec<String>, flag: &str, value: &str)
    ensures
        text::texts(final(list)@) == text::texts(old(list)@) + seq![flag@, value@],
{
    push_text(list, flag);
    push_text(list, value);
    assert(text::texts(list@) =~= text::texts(old(list)@) + seq![flag@, value@]);
}

fn push_gpu_args(args: &mut Vec<String>, gpu: &GpuAccess)
    ensures
        text::texts(final(args)@) == text::texts(old(args)@) + gpu_args(*gpu),
{
    let ghost start = text::texts(args@);
    match gpu {
        GpuAccess::Kata { pci_devices } => {
            push_text(args, "--runtime=io.containerd.kata.v2");
            let ghost all = text::texts(pci_devices@);
            let mut i: usize = 0;
            assert(start.push("--runtime=io.containerd.kata.v2"@) =~= start + (seq![
                "--runtime=io.containerd.kata.v2"@,
            ] + device_args(all.take(0))));
            while i < pci_devices.len()
                invariant
                    i <= pci_devices@.len(),
                    all == text::texts(pci_devices@),
                    text::texts(args@) == start + (seq!["--runtime=io.containerd.kata.v2"@]
                        + device_args(all.take(i as int))),
                decreases pci_devices@.len() - i,
            {
                let pci_id: &str = pci_devices[i].as_str();
                let ghost before = text::texts(args@);
                let pair: String = text::cat4("/dev/bus/pci/", pci_id, ":/dev/bus/pci/", pci_id);
                push_pair(args, "--device", pair.as_str());
                proof {
                    assert(all.take(i + 1).drop_last() =~= all.take(i as int));
                    assert(all.take(i + 1).last() == pci_id@);
                    assert(text::texts(args@) =~= start + (seq!["--runtime=io.containerd.kata.v2"@]
                        + device_args(all.take(i + 1))));
                }
                i = i + 1;
            }
            assert(all.take(i as int) =~= all);
        },
        GpuAccess::Docker { supported } => {
            if *supported {
                push_pair(args, "--gpus", "all");
            } else {
                assert(start + seq![] =~= start);
            }
        },
    }
}

/// The arguments of `docker` for a job.
pub fn docker_args(job: &ContainerSpec, gpu: &GpuAccess) -> (r: Vec<String>)
    ensures
        text::texts(r@) == docker_args_of(*job, *gpu),
{
    let mut args: Vec<String> = Vec::new();
    push_text(&mut args, "run");
    assert(text::texts(args@) =~= seq!["run"@]);
    push_gpu_args(&mut args, gpu);
    let ghost head = text::texts(args@);
    push_text(&mut args, "--rm");
    push_pair(&mut args, "--network", "none");
    push_pair(&mut args, "--security-opt", "no-new-privileges:true");
    push_pair(&mut args, "--cap-drop", "ALL");
    assert(text::texts(args@) =~= head + sandbox_args());
    push_pair(&mut args, "-v", text::cat2(job.work_dir.as_str(), ":/workspace").as_str());
    push_pair(&mut args, "-v", text::cat2(job.work_dir.as_str(), "/output:/output").as_str());
    push_pair(&mut args, "-w", "/workspace");
    push_pair(&mut args, "-e", text::cat2("JOB_ID=", job.job_id.as_str()).as_str());
    push_pair(&mut args, "-e", "PYTHONUNBUFFERED=1");
    push_pair(&mut args, "--memory", job.memory_limit.as_str());
    push_pair(&mut args, "--cpus", job.cpu_limit.as_str());
    assert(text::texts(args@) =~= head + sandbox_args() + job_args(*job));
    push_text(&mut args, job.image.as_str());
    let ghost front = head + sandbox_args() + job_args(*job) + seq![job.image@];
    assert(text::texts(args@) =~= front);
    let ghost cmd = text::texts(job.cmd@);
    let mut i: usize = 0;
    assert(front + cmd.take(0) =~= front);
    while i < job.cmd.len()
        invariant
            i <= job.cmd@.len(),
            cmd == text::texts(job.cmd@),
            text::texts(args@) == front + cmd.take(i as int),
        decreases job.cmd@.len() - i,
    {
        push_text(&mut args, job.cmd[i].as_str());
        assert(front + cmd.take(i + 1) =~= (front + cmd.take(i as int)).push(cmd[i as int]));
        i = i + 1;
    }
    assert(cmd.take(i as int) =~= cmd);
    args
}

/// Every job is confined: whatever the job, the runtime and the GPUs, the
/// confining arguments stand together among the options, before the image.
pub proof fn law_every_job_is_sandboxed(job: ContainerSpec, gpu: GpuAccess)
    ensures
        ({
            let args = docker_args_of(job, gpu);
            let at = 1 + gpu_args(gpu).len() as int;
            &&& args.subrange(at, at + sandbox_args().len()) == sandbox_args()
            &&& at + sandbox_args().len() < args.len() - 1 - job.cmd@.len()
            &&& args[args.len() - 1 - job.cmd@.len()] == job.image@
        }),
{
    let args = docker_args_of(job, gpu);
    let at = 1 + gpu_args(gpu).len() as int;
    assert(args.subrange(at, at + sandbox_args().len()) =~= sandbox_args());
}

// ---------------------------------------------------------------------------
// Errors

/// Why a container did not do its job.
#[derive(Debug)]
pub enum DockerError {
    /// `docker pull` could not be run.
    PullNotRun,
    /// `docker pull` failed.
    PullFailed { image: String, stderr: String },
    /// The output directory could not be made.
    NoOutputDirectory,
    /// `docker run` could not be started.
    NotSpawned,
    /// The container ran for too long.
    TimedOut,
    /// The container could not be watched.
    ProcessError { reason: String },
    /// The container ended with a failure.
    ExitFailure { code: Option<i32>, stdout: String, stderr: String },
}

/// The text for a pull that failed.
pub open spec fn pull_failed_text(image: Seq<char>, stderr: Seq<char>) -> Seq<char> {
    "docker pull failed for "@ + image + ": "@ + stderr
}

/// An exit code as it is shown: a number, or none where a signal ended the run.
pub open spec fn code_text(code: Option<i32>) -> Seq<char> {
    match code {
        Some(n) => "Some("@ + text::signed_decimal(n as int) + ")"@,
        None => "None"@,
    }
}

/// The text for a container that ended with a failure.
pub open spec fn exit_failure_text(
    code: Option<i32>,
    stdout: Seq<char>,
    stderr: Seq<char>,
) -> Seq<char> {
    "docker exited with code "@ + code_text(code) + "\nstdout:\n"@ + stdout + "\nstderr:\n"@ + stderr
}

impl DockerError {
    /// The text of the error.
    pub open spec fn text(self) -> Seq<char> {
        match self {
            DockerError::PullNotRun => "failed to execute docker pull"@,
            DockerError::PullFailed { image, stderr } => pull_failed_text(image@, stderr@),
            DockerError::NoOutputDirectory => "failed to create output directory"@,
            DockerError::NotSpawned => "failed to spawn docker"@,
            DockerError::TimedOut => "docker execution timed out after 600s"@,
            DockerError::ProcessError { reason } => "docker process error: "@ + reason@,
            DockerError::ExitFailure { code, stdout, stderr } => exit_failure_text(
                code,
                stdout@,
                stderr@,
            ),
        }
    }

    /// The text of the error.
    pub fn message(&self) -> (r: String)
        ensures
            r@ == self.text(),
    {
        match self {
            DockerError::PullNotRun => "failed to execute docker pull".to_owned(),
            DockerError::PullFailed { image, stderr } => text::cat4(
                "docker pull failed for ",
                image.as_str(),
                ": ",
                stderr.as_str(),
            ),
            DockerError::NoOutputDirectory => "failed to create output directory".to_owned(),
            DockerError::NotSpawned => "failed to spawn docker".to_owned(),
            DockerError::TimedOut => "docker execution timed out after 600s".to_owned(),
            DockerError::ProcessError { reason } => text::cat2(
                "docker process error: ",
                reason.as_str(),
            ),
            DockerError::ExitFailure { code, stdout, stderr } => {
                let shown: String = match code {
                    Some(n) => text::cat3("Some(", text::signed_decimal_text(*n).as_str(), ")"),
                    None => "None".to_owned(),
                };
                let head: String = text::cat5(
                    "docker exited with code ",
                    shown.as_str(),
                    "\nstdout:\n",
                    stdout.as_str(),
                    "\nstderr:\n",
                );
                text::cat2(head.as_str(), stderr.as_str())
            },
        }
    }
}

// ---------------------------------------------------------------------------
// Seeing a container through

/// How long the pull of the image and the run of the container may take together,
/// in nanoseconds.
pub const MAX_WAIT_NANOS: u128 = 600_000_000_000;

/// How long the agent sleeps between two looks at `docker`, in milliseconds.
pub const POLL_MILLIS: u64 = 500;

/// What the agent waits for.
#[derive(Debug, Clone, Copy, PartialEq, Eq, Structural)]
pub enum RunStage {
    /// The pull to be started.
    PullStart,
    /// The pull to end.
    Pull,
    /// What the pull left.
    PullOutput,
    /// The output directory to be made.
    OutputDirectory,
    /// Word of the GPUs.
    Gpus,
    /// The container to be started.
    Spawn,
    /// The container to end.
    Wait,
    /// What the container left.
    Output,
    /// Nothing: it is over.
    Finished,
}

/// What the agent sees when it looks at `docker`. `now_nanos` is read from a clock
/// that never goes back.
#[derive(Debug)]
pub enum Poll {
    Exited,
    Running { now_nanos: u128 },
    Failed { reason: String },
}

/// What happened.
#[derive(Debug)]
pub enum DockerEvent {
    /// The pull could not be run.
    NoPull,
    /// The pull was started; the clock showed this.
    PullStarted { now_nanos: u128 },
    /// The output directory was made, or not.
    OutputDirectory { made: bool },
    /// What is known of the GPUs.
    Gpus { gpu: GpuAccess },
    /// The container was started, or not.
    Spawned { started: bool },
    /// A look at `docker` while it runs.
    Polled { poll: Poll },
    /// The pull, or the container, ended.
    Ended { success: bool, code: Option<i32>, stdout: Vec<u8>, stderr: Vec<u8> },
}

/// What the agent does next.
#[derive(Debug)]
pub enum DockerAction {
    /// Make the output directory.
    MakeDirectory { path: String },
    /// List the PCI addresses of the GPUs.
    ListPciDevices,
    /// Ask whether Docker can pass GPUs on.
    ProbeGpuSupport,
    /// Start `docker` with these arguments.
    Spawn { args: Vec<String> },
    /// Look at `docker`, which runs.
    Poll,
    /// Sleep, then look at `docker`.
    Sleep { millis: u64 },
    /// Collect what `docker` left.
    Collect,
    /// Kill `docker` and wait for its end; the job failed.
    Kill { error: DockerError },
    /// The container did its job.
    Done,
}

/// The contents of a `DockerAction`; of an error, its text.
pub enum DockerMove {
    MakeDirectory { path: Seq<char> },
    ListPciDevices,
    ProbeGpuSupport,
    Spawn { args: Seq<Seq<char>> },
    Poll,
    Sleep { millis: u64 },
    Collect,
    Kill { error: Seq<char> },
    Done,
}

impl View for DockerAction {
    type V = DockerMove;

    open spec fn view(&self) -> DockerMove {
        match self {
            DockerAction::MakeDirectory { path } => DockerMove::MakeDirectory { path: path@ },
            DockerAction::ListPciDevices => DockerMove::ListPciDevices,
            DockerAction::ProbeGpuSupport => DockerMove::ProbeGpuSupport,
            DockerAction::Spawn { args } => DockerMove::Spawn { args: text::texts(args@) },
            DockerAction::Poll => DockerMove::Poll,
            DockerAction::Sleep { millis } => DockerMove::Sleep { millis: *millis },
            DockerAction::Collect => DockerMove::Collect,
            DockerAction::Kill { error } => DockerMove::Kill { error: error.text() },
            DockerAction::Done => DockerMove::Done,
        }
    }
}

/// A container that the agent sees through.
#[derive(Debug)]
pub struct DockerRun {
    stage: RunStage,
    runtime: RuntimeKind,
    job: ContainerSpec,
    began_nanos: u128,
}

/// The result holds the action that `wanted` describes, or an error with its
/// text.
pub open spec fn carries_out(
    r: Result<DockerAction, DockerError>,
    wanted: Result<DockerMove, Seq<char>>,
) -> bool {
    match r {
        Ok(action) => wanted == Ok::<DockerMove, Seq<char>>(action@),
        Err(e) => wanted == Err::<DockerMove, Seq<char>>(e.text()),
    }
}

impl DockerRun {
    /// What the agent waits for.
    pub closed spec fn stage(self) -> RunStage {
        self.stage
    }

    /// The runtime of the container.
    pub closed spec fn runtime(self) -> RuntimeKind {
        self.runtime
    }

    /// What the arguments of `docker` depend on.
    pub closed spec fn job(self) -> ContainerSpec {
        self.job
    }

    /// What the clock showed when the pull was started.
    pub closed spec fn began_nanos(self) -> u128 {
        self.began_nanos
    }

    /// The event is one that the agent waits for.
    pub open spec fn awaits(self, event: DockerEvent) -> bool {
        match self.stage() {
            RunStage::PullStart => event is NoPull || event is PullStarted,
            RunStage::Pull => event is Polled,
            RunStage::PullOutput => event is NoPull || event is Ended,
            RunStage::OutputDirectory => event is OutputDirectory,
            RunStage::Gpus => event matches DockerEvent::Gpus { gpu } && gpu is Kata == (
            self.runtime() == RuntimeKind::Kata),
            RunStage::Spawn => event is Spawned,
            RunStage::Wait => event is Polled,
            RunStage::Output => event is Ended,
            RunStage::Finished => false,
        }
    }

    /// What the agent does when the event happens.
    pub open spec fn move_on(self, event: DockerEvent) -> Result<DockerMove, Seq<char>> {
        match event {
            DockerEvent::NoPull => Err("failed to execute docker pull"@),
            DockerEvent::PullStarted { .. } => Ok(DockerMove::Poll),
            DockerEvent::OutputDirectory { made } => if !made {
                Err("failed to create output directory"@)
            } else if self.runtime() == RuntimeKind::Kata {
                Ok(DockerMove::ListPciDevices)
            } else {
                Ok(DockerMove::ProbeGpuSupport)
            },
            DockerEvent::Gpus { gpu } => Ok(
                DockerMove::Spawn { args: docker_args_of(self.job(), gpu) },
            ),
            DockerEvent::Spawned { started } => if started {
                Ok(DockerMove::Poll)
            } else {
                Err("failed to spawn docker"@)
            },
            DockerEvent::Polled { poll } => match poll {
                Poll::Exited => Ok(DockerMove::Collect),
                Poll::Running { now_nanos } => if now_nanos - self.began_nanos() > MAX_WAIT_NANOS {
                    Ok(DockerMove::Kill { error: "docker execution timed out after 600s"@ })
                } else {
                    Ok(DockerMove::Sleep { millis: POLL_MILLIS })
                },
                Poll::Failed { reason } => Ok(
                    DockerMove::Kill {
                        error: if self.stage() == RunStage::Pull {
                            "failed to execute docker pull"@
                        } else {
                            "docker process error: "@ + reason@
                        },
                    },
                ),
            },
            DockerEvent::Ended { success, code, stdout, stderr } => if self.stage()
                == RunStage::PullOutput {
                if success {
                    Ok(DockerMove::MakeDirectory { path: self.job().work_dir@ + "/output"@ })
                } else {
                    Err(
                        pull_failed_text(
                            self.job().image@,
                            text::trimmed(text::utf8_lossy(stderr@)),
                        ),
                    )
                }
            } else if success {
                Ok(DockerMove::Done)
            } else {
                Err(
                    exit_failure_text(
                        code,
                        text::utf8_lossy(stdout@),
                        text::utf8_lossy(stderr@),
                    ),
                )
            },
        }
    }

    /// The stage after a move.
    pub open spec fn stage_after(self, done: Result<DockerMove, Seq<char>>) -> RunStage {
        match done {
            Ok(DockerMove::MakeDirectory { .. }) => RunStage::OutputDirectory,
            Ok(DockerMove::ListPciDevices) => RunStage::Gpus,
            Ok(DockerMove::ProbeGpuSupport) => RunStage::Gpus,
            Ok(DockerMove::Spawn { .. }) => RunStage::Spawn,
            Ok(DockerMove::Poll) => if self.stage() == RunStage::PullStart {
                RunStage::Pull
            } else {
                RunStage::Wait
            },
            Ok(DockerMove::Sleep { .. }) => self.stage(),
            Ok(DockerMove::Collect) => if self.stage() == RunStage::Pull {
                RunStage::PullOutput
            } else {
                RunStage::Output
            },
            Ok(DockerMove::Kill { .. }) => RunStage::Finished,
            Ok(DockerMove::Done) => RunStage::Finished,
            Err(_) => RunStage::Finished,
        }
    }

    /// A container for a job, whose image is to be pulled first. The limits are
    /// the settings, or 32 gigabytes and 8 processors.
    pub fn new(
        work_dir: &str,
        job_type: &str,
        config: &JobConfig,
        job_id: &str,
        runtime: RuntimeKind,
        memory_limit: &Option<String>,
        cpu_limit: &Option<String>,
    ) -> (r: Self)
        ensures
            r.stage() == RunStage::PullStart,
            r.runtime() == runtime,
            r.job().work_dir@ == work_dir@,
            r.job().job_id@ == job_id@,
            r.job().memory_limit@ == text::or_text(*memory_limit, "32g"@),
            r.job().cpu_limit@ == text::or_text(*cpu_limit, "8"@),
            r.job().image@ == image_of(job_type@, config@),
            text::texts(r.job().cmd@) == seq!["bash"@, "-c"@, command_of(job_type@, config@)],
    {
        let (image, cmd) = build_docker_config(job_type, config);
        DockerRun {
            stage: RunStage::PullStart,
            runtime,
            job: ContainerSpec {
                work_dir: work_dir.to_owned(),
                job_id: job_id.to_owned(),
                memory_limit: text::text_or(memory_limit, "32g"),
                cpu_limit: text::text_or(cpu_limit, "8"),
                image,
                cmd,
            },
            began_nanos: 0,
        }
    }

    /// The arguments of `docker` that pull the image.
    pub fn pull_args(&self) -> (r: Vec<String>)
        ensures
            text::texts(r@) == seq!["pull"@, self.job().image@],
    {
        let mut args: Vec<String> = Vec::new();
        push_pair(&mut args, "pull", self.job.image.as_str());
        assert(text::texts(args@) =~= seq!["pull"@, self.job.image@]);
        args
    }

    /// Whether the event is one that the agent waits for.
    pub fn expects(&self, event: &DockerEvent) -> (r: bool)
        ensures
            r == self.awaits(*event),
    {
        match (self.stage, event) {
            (RunStage::PullStart, DockerEvent::NoPull) => true,
            (RunStage::PullStart, DockerEvent::PullStarted { .. }) => true,
            (RunStage::Pull, DockerEvent::Polled { .. }) => true,
            (RunStage::PullOutput, DockerEvent::NoPull) => true,
            (RunStage::PullOutput, DockerEvent::Ended { .. }) => true,
            (RunStage::OutputDirectory, DockerEvent::OutputDirectory { .. }) => true,
            (RunStage::Gpus, DockerEvent::Gpus { gpu }) => match (gpu, self.runtime) {
                (GpuAccess::Kata { .. }, RuntimeKind::Kata) => true,
                (GpuAccess::Docker { .. }, RuntimeKind::Docker) => true,
                _ => false,
            },
            (RunStage::Spawn, DockerEvent::Spawned { .. }) => true,
            (RunStage::Wait, DockerEvent::Polled { .. }) => true,
            (RunStage::Output, DockerEvent::Ended { .. }) => true,
            _ => false,
        }
    }

    /// Takes an event, and says what to do next.
    pub fn step(&mut self, event: DockerEvent) -> (r: Result<DockerAction, DockerError>)
        requires
            old(self).awaits(event),
        ensures
            carries_out(r, old(self).move_on(event)),
            r matches Ok(DockerAction::Done) ==> event is Ended && event->success,
            final(self).stage() == old(self).stage_after(old(self).move_on(event)),
            final(self).began_nanos() == (match event {
                DockerEvent::PullStarted { now_nanos } => now_nanos,
                _ => old(self).began_nanos(),
            }),
            final(self).runtime() == old(self).runtime(),
            final(self).job() == old(self).job(),
    {
        let r: Result<DockerAction, DockerError> = match event {
            DockerEvent::NoPull => Err(DockerError::PullNotRun),
            DockerEvent::PullStarted { now_nanos } => {
                self.began_nanos = now_nanos;
                self.stage = RunStage::Pull;
                Ok(DockerAction::Poll)
            },
            DockerEvent::OutputDirectory { made } => {
                if made {
                    self.stage = RunStage::Gpus;
                    match self.runtime {
                        RuntimeKind::Kata => Ok(DockerAction::ListPciDevices),
                        RuntimeKind::Docker => Ok(DockerAction::ProbeGpuSupport),
                    }
                } else {
                    Err(DockerError::NoOutputDirectory)
                }
            },
            DockerEvent::Gpus { gpu } => {
                self.stage = RunStage::Spawn;
                Ok(DockerAction::Spawn { args: docker_args(&self.job, &gpu) })
            },
            DockerEvent::Spawned { started } => {
                if started {
                    self.stage = RunStage::Wait;
                    Ok(DockerAction::Poll)
                } else {
                    Err(DockerError::NotSpawned)
                }
            },
            DockerEvent::Polled { poll } => match poll {
                Poll::Exited => {
                    self.stage = match self.stage {
                        RunStage::Pull => RunStage::PullOutput,
                        _ => RunStage::Output,
                    };
                    Ok(DockerAction::Collect)
                },
                Poll::Running { now_nanos } => {
                    if now_nanos > self.began_nanos && now_nanos - self.began_nanos
                        > MAX_WAIT_NANOS {
                        self.stage = RunStage::Finished;
                        Ok(DockerAction::Kill { error: DockerError::TimedOut })
                    } else {
                        Ok(DockerAction::Sleep { millis: POLL_MILLIS })
                    }
                },
                Poll::Failed { reason } => {
                    let error: DockerError = match self.stage {
                        RunStage::Pull => DockerError::PullNotRun,
                        _ => DockerError::ProcessError { reason },
                    };
                    self.stage = RunStage::Finished;
                    Ok(DockerAction::Kill { error })
                },
            },
            DockerEvent::Ended { success, code, stdout, stderr } => match self.stage {
                RunStage::PullOutput => {
                    if success {
                        self.stage = RunStage::OutputDirectory;
                        Ok(
                            DockerAction::MakeDirectory {
                                path: text::cat2(self.job.work_dir.as_str(), "/output"),
                            },
                        )
                    } else {
                        let shown: String = text::lossy_text(stderr.as_slice());
                        Err(
                            DockerError::PullFailed {
                                image: self.job.image.clone(),
                                stderr: text::trim(shown.as_str()).to_owned(),
                            },
                        )
                    }
                },
                _ => {
                    if success {
                        self.stage = RunStage::Finished;
                        Ok(DockerAction::Done)
                    } else {
                        Err(
                            DockerError::ExitFailure {
                                code,
                                stdout: text::lossy_text(stdout.as_slice()),
                                stderr: text::lossy_text(stderr.as_slice()),
                            },
                        )
                    }
                },
            },
        };
        if r.is_err() {
            self.stage = RunStage::Finished;
        }
        r
    }
}

/// The pull and the container together have ten minutes, from the start of the
/// pull. Whichever of the two still runs when they are over is killed and the job
/// fails; while they are not, neither is killed as long as it can be watched.
pub proof fn law_ten_minutes_for_pull_and_run(run: DockerRun, now_nanos: u128)
    ensures
        ({
            let seen = DockerEvent::Polled { poll: Poll::Running { now_nanos } };
            &&& run.stage() == RunStage::Pull || run.stage() == RunStage::Wait ==> run.awaits(seen)
            &&& now_nanos - run.began_nanos() > 600 * 1_000_000_000 ==> run.move_on(seen) == Ok::<
                DockerMove,
                Seq<char>,
            >(DockerMove::Kill { error: "docker execution timed out after 600s"@ })
                && run.stage_after(run.move_on(seen)) == RunStage::Finished
            &&& now_nanos - run.began_nanos() <= 600 * 1_000_000_000 ==> run.move_on(seen) == Ok::<
                DockerMove,
                Seq<char>,
            >(DockerMove::Sleep { millis: POLL_MILLIS })
        }),
{
}

} // verus!
