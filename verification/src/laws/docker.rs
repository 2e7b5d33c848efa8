//! What a container is given, and what its end means.

use vstd::prelude::*;

use crate::docker;
use crate::docker::ContainerSpec;
use crate::docker::DockerAction;
use crate::docker::DockerError;
use crate::docker::DockerEvent;
use crate::docker::DockerMove;
use crate::docker::DockerRun;
use crate::docker::GpuAccess;
use crate::docker::JobConfig;
use crate::docker::JobConfigModel;
use crate::docker::Poll;
use crate::docker::RunStage;
use crate::docker::RuntimeKind;
use crate::text;

verus! {

/// Kata is asked for by its name alone.
pub proof fn law_kata_is_named(setting: Seq<char>)
    ensures
        docker::runtime_for(setting) == RuntimeKind::Kata <==> setting == "kata"@,
        docker::runtime_for(setting) == RuntimeKind::Docker <==> setting != "kata"@,
{
}

proof fn lemma_types_differ()
    ensures
        "python"@ != "blender"@,
        "python"@ != "cuda"@,
        "blender"@ != "cuda"@,
{
    reveal_strlit("python");
    reveal_strlit("blender");
    reveal_strlit("cuda");
    assert("python"@.len() != "blender"@.len());
    assert("python"@.len() != "cuda"@.len());
    assert("blender"@.len() != "cuda"@.len());
}

/// A Python job runs its script in its image: those that it names, or the usual ones.
pub proof fn law_python_jobs_run_their_script(script: Seq<char>, image: Seq<char>, c: JobConfigModel)
    ensures
        docker::image_of("python"@, JobConfigModel { image: Some(image), ..c }) == image,
        docker::image_of("python"@, JobConfigModel { image: None, ..c })
            == "pytorch/pytorch:2.1.0-cuda12.1-cudnn8-runtime"@,
        docker::command_of("python"@, JobConfigModel { script: Some(script), ..c })
            == "ls -la /workspace && if [ -f requirements.txt ]; then pip install -r requirements.txt -q; fi; python "@
            + script,
        docker::command_of("python"@, JobConfigModel { script: None, ..c })
            == "ls -la /workspace && if [ -f requirements.txt ]; then pip install -r requirements.txt -q; fi; python "@
            + "main.py"@,
{
    lemma_types_differ();
}

/// A Blender job renders its scene in the CUDA runtime image, whatever image it names.
pub proof fn law_blender_jobs_render_their_scene(scene: Seq<char>, c: JobConfigModel)
    ensures
        docker::image_of("blender"@, c) == "nvidia/cuda:12.2.0-runtime-ubuntu22.04"@,
        docker::command_of("blender"@, JobConfigModel { blend_file: Some(scene), ..c })
            == "bash -c 'apt-get update -qq && apt-get install -y -qq blender && blender -b "@
            + scene + " -o /output/frame_#### -s 1 -e 1 -a'"@,
        docker::command_of("blender"@, JobConfigModel { blend_file: None, ..c })
            == "bash -c 'apt-get update -qq && apt-get install -y -qq blender && blender -b "@
            + "scene.blend"@ + " -o /output/frame_#### -s 1 -e 1 -a'"@,
{
    lemma_types_differ();
}

/// A CUDA job compiles its source to its program and runs that program, in the CUDA
/// development image, whatever image it names.
pub proof fn law_cuda_jobs_compile_and_run(
    source: Seq<char>,
    program: Seq<char>,
    c: JobConfigModel,
)
    ensures
        docker::image_of("cuda"@, c) == "nvidia/cuda:12.2.0-devel-ubuntu22.04"@,
        docker::command_of(
            "cuda"@,
            JobConfigModel { source: Some(source), output: Some(program), ..c },
        ) == "bash -c 'cd /workspace && nvcc -o "@ + program + " "@ + source + " && ./"@ + program
            + "'"@,
        docker::command_of("cuda"@, JobConfigModel { source: None, output: Some(program), ..c })
            == "bash -c 'cd /workspace && nvcc -o "@ + program + " "@ + "main.cu"@ + " && ./"@
            + program + "'"@,
        docker::command_of("cuda"@, JobConfigModel { source: Some(source), output: None, ..c })
            == "bash -c 'cd /workspace && nvcc -o "@ + "program"@ + " "@ + source + " && ./"@
            + "program"@ + "'"@,
        docker::command_of("cuda"@, JobConfigModel { source: None, output: None, ..c })
            == "bash -c 'cd /workspace && nvcc -o "@ + "program"@ + " "@ + "main.cu"@ + " && ./"@
            + "program"@ + "'"@,
{
    lemma_types_differ();
}

/// A job of any other type runs its command in its image, or a shell in a plain one.
pub proof fn law_other_jobs_run_their_command(
    job_type: Seq<char>,
    command: Seq<char>,
    image: Seq<char>,
    c: JobConfigModel,
)
    requires
        job_type != "python"@,
        job_type != "blender"@,
        job_type != "cuda"@,
    ensures
        docker::image_of(job_type, JobConfigModel { image: Some(image), ..c }) == image,
        docker::image_of(job_type, JobConfigModel { image: None, ..c }) == "ubuntu:22.04"@,
        docker::command_of(job_type, JobConfigModel { command: Some(command), ..c }) == command,
        docker::command_of(job_type, JobConfigModel { command: None, ..c }) == "bash"@,
{
}

/// A configuration shows what it holds.
pub proof fn law_configurations_show_what_they_hold(config: JobConfig)
    ensures
        config@.script == text::opt_text(config.script),
        config@.image == text::opt_text(config.image),
        config@.blend_file == text::opt_text(config.blend_file),
        config@.source == text::opt_text(config.source),
        config@.output == text::opt_text(config.output),
        config@.command == text::opt_text(config.command),
{
}

/// Every device is passed on, in the order in which they are listed, each under its
/// own address.
pub proof fn law_each_device_is_passed_on(devices: Seq<Seq<char>>)
    ensures
        docker::device_args(devices).len() == 2 * devices.len(),
        forall|i: int|
            0 <= i < devices.len() ==> #[trigger] docker::device_args(devices)[2 * i]
                == "--device"@,
        forall|i: int|
            0 <= i < devices.len() ==> #[trigger] docker::device_args(devices)[2 * i + 1]
                == "/dev/bus/pci/"@ + devices[i] + ":/dev/bus/pci/"@ + devices[i],
    decreases devices.len(),
{
    if devices.len() > 0 {
        let front = devices.drop_last();
        law_each_device_is_passed_on(front);
        let all = docker::device_args(devices);
        let some = docker::device_args(front);
        assert forall|i: int| 0 <= i < devices.len() implies #[trigger] all[2 * i]
            == "--device"@ by {
            if i < front.len() {
                assert(all[2 * i] == some[2 * i]);
            }
        }
        assert forall|i: int| 0 <= i < devices.len() implies #[trigger] all[2 * i + 1]
            == "/dev/bus/pci/"@ + devices[i] + ":/dev/bus/pci/"@ + devices[i] by {
            if i < front.len() {
                assert(all[2 * i + 1] == some[2 * i + 1]);
                assert(front[i] == devices[i]);
            }
        }
    }
}

/// Docker gets all GPUs where it can pass them on, and none otherwise; Kata gets its
/// runtime and each device.
pub proof fn law_gpus_are_handed_over(pci_devices: Vec<String>)
    ensures
        docker::gpu_args(GpuAccess::Docker { supported: true }) == seq!["--gpus"@, "all"@],
        docker::gpu_args(GpuAccess::Docker { supported: false }) == Seq::<Seq<char>>::empty(),
        docker::gpu_args(GpuAccess::Kata { pci_devices }) == seq![
            "--runtime=io.containerd.kata.v2"@,
        ] + docker::device_args(text::texts(pci_devices@)),
{
}

/// A container is run with its GPUs, removed when it ends, cut off from the network,
/// without new privileges and without capabilities, with the job's directory as its
/// workspace and that directory's output as its output, told the job's name, held to
/// the limits, and given the job's image and command.
pub proof fn law_containers_are_given_what_they_need(job: ContainerSpec, gpu: GpuAccess)
    ensures
        docker::docker_args_of(job, gpu) == seq!["run"@] + docker::gpu_args(gpu) + seq![
            "--rm"@,
            "--network"@,
            "none"@,
            "--security-opt"@,
            "no-new-privileges:true"@,
            "--cap-drop"@,
            "ALL"@,
            "-v"@,
            job.work_dir@ + ":/workspace"@,
            "-v"@,
            job.work_dir@ + "/output:/output"@,
            "-w"@,
            "/workspace"@,
            "-e"@,
            "JOB_ID="@ + job.job_id@,
            "-e"@,
            "PYTHONUNBUFFERED=1"@,
            "--memory"@,
            job.memory_limit@,
            "--cpus"@,
            job.cpu_limit@,
            job.image@,
        ] + text::texts(job.cmd@),
{
}

/// A container that has ended did its job just where it ended with success. With any
/// other end the job failed, whatever the code, and the error names the code and all
/// that the container printed.
pub proof fn law_a_job_is_done_only_by_success(
    run: DockerRun,
    success: bool,
    code: Option<i32>,
    stdout: Vec<u8>,
    stderr: Vec<u8>,
)
    requires
        run.stage() == RunStage::Output,
    ensures
        ({
            let done = run.move_on(DockerEvent::Ended { success, code, stdout, stderr });
            &&& success ==> done == Ok::<DockerMove, Seq<char>>(DockerMove::Done)
            &&& !success ==> done == Err::<DockerMove, Seq<char>>(
                "docker exited with code "@ + docker::code_text(code) + "\nstdout:\n"@
                    + text::utf8_lossy(stdout@) + "\nstderr:\n"@ + text::utf8_lossy(stderr@),
            )
            &&& (done == Ok::<DockerMove, Seq<char>>(DockerMove::Done)) == success
        }),
{
}

/// Nothing but a container's end with success makes a job done.
pub proof fn law_nothing_else_makes_a_job_done(run: DockerRun, event: DockerEvent)
    requires
        run.awaits(event),
        run.move_on(event) == Ok::<DockerMove, Seq<char>>(DockerMove::Done),
    ensures
        run.stage() == RunStage::Output,
        event is Ended,
        event->success,
{
}

/// A code is shown as its number, and as none where a signal ended the container.
pub proof fn law_codes_are_shown(n: i32)
    ensures
        docker::code_text(Some(n)) == "Some("@ + text::signed_decimal(n as int) + ")"@,
        docker::code_text(None) == "None"@,
{
}

/// A pull that ended with success is followed by the output directory, which lies in
/// the job's; any other end of it fails the job with what the pull said.
pub proof fn law_a_failed_pull_fails_the_job(
    run: DockerRun,
    success: bool,
    code: Option<i32>,
    stdout: Vec<u8>,
    stderr: Vec<u8>,
)
    requires
        run.stage() == RunStage::PullOutput,
    ensures
        run.move_on(DockerEvent::Ended { success, code, stdout, stderr }) == (if success {
            Ok::<DockerMove, Seq<char>>(
                DockerMove::MakeDirectory { path: run.job().work_dir@ + "/output"@ },
            )
        } else {
            Err(
                "docker pull failed for "@ + run.job().image@ + ": "@ + text::trimmed(
                    text::utf8_lossy(stderr@),
                ),
            )
        }),
        run.move_on(DockerEvent::NoPull) == Err::<DockerMove, Seq<char>>(
            "failed to execute docker pull"@,
        ),
{
}

/// Before a container is started its output directory is made and its GPUs are looked
/// for, as its runtime needs them; then it is started with the arguments for its job
/// and those GPUs. What cannot be done fails the job.
pub proof fn law_containers_are_started_step_by_step(
    run: DockerRun,
    gpu: GpuAccess,
    now_nanos: u128,
)
    ensures
        run.move_on(DockerEvent::PullStarted { now_nanos }) == Ok::<DockerMove, Seq<char>>(
            DockerMove::Poll,
        ),
        run.move_on(DockerEvent::OutputDirectory { made: false }) == Err::<DockerMove, Seq<char>>(
            "failed to create output directory"@,
        ),
        run.runtime() == RuntimeKind::Kata ==> run.move_on(
            DockerEvent::OutputDirectory { made: true },
        ) == Ok::<DockerMove, Seq<char>>(DockerMove::ListPciDevices),
        run.runtime() == RuntimeKind::Docker ==> run.move_on(
            DockerEvent::OutputDirectory { made: true },
        ) == Ok::<DockerMove, Seq<char>>(DockerMove::ProbeGpuSupport),
        run.move_on(DockerEvent::Gpus { gpu }) == Ok::<DockerMove, Seq<char>>(
            DockerMove::Spawn { args: docker::docker_args_of(run.job(), gpu) },
        ),
        run.move_on(DockerEvent::Spawned { started: true }) == Ok::<DockerMove, Seq<char>>(
            DockerMove::Poll,
        ),
        run.move_on(DockerEvent::Spawned { started: false }) == Err::<DockerMove, Seq<char>>(
            "failed to spawn docker"@,
        ),
{
}

/// What has ended is collected; what still runs is looked at again after half a second
/// while its ten minutes last, and killed when they are over; and what cannot be
/// watched is killed at once, with the reason.
pub proof fn law_docker_is_watched(run: DockerRun, now_nanos: u128, reason: String)
    ensures
        run.move_on(DockerEvent::Polled { poll: Poll::Exited }) == Ok::<DockerMove, Seq<char>>(
            DockerMove::Collect,
        ),
        run.move_on(DockerEvent::Polled { poll: Poll::Running { now_nanos } }) == (if now_nanos
            - run.began_nanos() > 600_000_000_000 {
            Ok::<DockerMove, Seq<char>>(
                DockerMove::Kill { error: "docker execution timed out after 600s"@ },
            )
        } else {
            Ok(DockerMove::Sleep { millis: 500 })
        }),
        run.stage() == RunStage::Wait ==> run.move_on(
            DockerEvent::Polled { poll: Poll::Failed { reason } },
        ) == Ok::<DockerMove, Seq<char>>(
            DockerMove::Kill { error: "docker process error: "@ + reason@ },
        ),
        run.stage() == RunStage::Pull ==> run.move_on(
            DockerEvent::Polled { poll: Poll::Failed { reason } },
        ) == Ok::<DockerMove, Seq<char>>(
            DockerMove::Kill { error: "failed to execute docker pull"@ },
        ),
{
}

/// A run goes from the pull to the container in one order, and is over after a kill,
/// an error or its end.
pub proof fn law_runs_go_in_order(run: DockerRun, event: DockerEvent)
    requires
        run.awaits(event),
    ensures
        ({
            let after = run.stage_after(run.move_on(event));
            &&& run.stage() == RunStage::PullStart ==> after == (if event is PullStarted {
                RunStage::Pull
            } else {
                RunStage::Finished
            })
            &&& run.stage() == RunStage::Pull ==> after == (match event->poll {
                Poll::Exited => RunStage::PullOutput,
                Poll::Running { now_nanos } => if now_nanos - run.began_nanos() > 600_000_000_000 {
                    RunStage::Finished
                } else {
                    RunStage::Pull
                },
                Poll::Failed { .. } => RunStage::Finished,
            })
            &&& run.stage() == RunStage::PullOutput ==> after == (if event is Ended
                && event->success {
                RunStage::OutputDirectory
            } else {
                RunStage::Finished
            })
            &&& run.stage() == RunStage::OutputDirectory ==> after == (if event->made {
                RunStage::Gpus
            } else {
                RunStage::Finished
            })
            &&& run.stage() == RunStage::Gpus ==> after == RunStage::Spawn
            &&& run.stage() == RunStage::Spawn ==> after == (if event->started {
                RunStage::Wait
            } else {
                RunStage::Finished
            })
            &&& run.stage() == RunStage::Wait ==> after == (match event->poll {
                Poll::Exited => RunStage::Output,
                Poll::Running { now_nanos } => if now_nanos - run.began_nanos() > 600_000_000_000 {
                    RunStage::Finished
                } else {
                    RunStage::Wait
                },
                Poll::Failed { .. } => RunStage::Finished,
            })
            &&& run.stage() == RunStage::Output ==> after == RunStage::Finished
            &&& run.stage() != RunStage::Finished
        }),
{
}

/// Each stage waits for its own events, the GPUs in the way of the runtime.
pub proof fn law_stages_wait_for_their_events(run: DockerRun, event: DockerEvent)
    ensures
        event is NoPull ==> run.awaits(event) == (run.stage() == RunStage::PullStart || run.stage()
            == RunStage::PullOutput),
        event is PullStarted ==> run.awaits(event) == (run.stage() == RunStage::PullStart),
        event is Polled ==> run.awaits(event) == (run.stage() == RunStage::Pull || run.stage()
            == RunStage::Wait),
        event is Ended ==> run.awaits(event) == (run.stage() == RunStage::PullOutput || run.stage()
            == RunStage::Output),
        event is OutputDirectory ==> run.awaits(event) == (run.stage()
            == RunStage::OutputDirectory),
        event is Spawned ==> run.awaits(event) == (run.stage() == RunStage::Spawn),
        event matches DockerEvent::Gpus { gpu: GpuAccess::Kata { .. } } ==> run.awaits(event) == (
        run.stage() == RunStage::Gpus && run.runtime() == RuntimeKind::Kata),
        event matches DockerEvent::Gpus { gpu: GpuAccess::Docker { .. } } ==> run.awaits(event)
            == (run.stage() == RunStage::Gpus && run.runtime() == RuntimeKind::Docker),
{
}

/// An action shows what it holds, and is what was wanted only where it holds that.
pub proof fn law_docker_actions_show_what_they_hold(
    action: DockerAction,
    error: DockerError,
    wanted: Result<DockerMove, Seq<char>>,
)
    ensures
        action@ == (match action {
            DockerAction::MakeDirectory { path } => DockerMove::MakeDirectory { path: path@ },
            DockerAction::ListPciDevices => DockerMove::ListPciDevices,
            DockerAction::ProbeGpuSupport => DockerMove::ProbeGpuSupport,
            DockerAction::Spawn { args } => DockerMove::Spawn { args: text::texts(args@) },
            DockerAction::Poll => DockerMove::Poll,
            DockerAction::Sleep { millis } => DockerMove::Sleep { millis },
            DockerAction::Collect => DockerMove::Collect,
            DockerAction::Kill { error } => DockerMove::Kill { error: error.text() },
            DockerAction::Done => DockerMove::Done,
        }),
        docker::carries_out(Ok(action), wanted) ==> wanted == Ok::<DockerMove, Seq<char>>(action@),
        docker::carries_out(Err(error), wanted) ==> wanted == Err::<DockerMove, Seq<char>>(
            error.text(),
        ),
{
}

/// Each error says what could not be done, with all that is known of it.
pub proof fn law_docker_errors_tell_what_is_known(
    image: String,
    stderr: String,
    stdout: String,
    reason: String,
    code: Option<i32>,
)
    ensures
        DockerError::PullNotRun.text() == "failed to execute docker pull"@,
        (DockerError::PullFailed { image, stderr }).text() == "docker pull failed for "@ + image@
            + ": "@ + stderr@,
        DockerError::NoOutputDirectory.text() == "failed to create output directory"@,
        DockerError::NotSpawned.text() == "failed to spawn docker"@,
        DockerError::TimedOut.text() == "docker execution timed out after 600s"@,
        (DockerError::ProcessError { reason }).text() == "docker process error: "@ + reason@,
        (DockerError::ExitFailure { code, stdout, stderr }).text() == "docker exited with code "@
            + docker::code_text(code) + "\nstdout:\n"@ + stdout@ + "\nstderr:\n"@ + stderr@,
{
}

} // verus!
