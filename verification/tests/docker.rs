use edge_agent::docker::{
    build_docker_config, docker_args, get_container_runtime, ContainerSpec, DockerAction,
    DockerError, DockerEvent, DockerRun, GpuAccess, JobConfig, Poll, RuntimeKind,
};
use edge_agent::gpu::{
    detect_nvidia_pci_devices, docker_has_gpu_support, gpu_from_listing, query_gpu_info,
    GpuSupport,
};

fn config() -> JobConfig {
    JobConfig {
        script: None,
        image: None,
        blend_file: None,
        source: None,
        output: None,
        command: None,
    }
}

fn some(s: &str) -> Option<String> {
    Some(s.to_string())
}

fn new_run(runtime: RuntimeKind) -> DockerRun {
    DockerRun::new("/tmp/w", "python", &config(), "job-1", runtime, &None, &some("2"))
}

const SECOND: u128 = 1_000_000_000;

fn ended(success: bool, stderr: &[u8]) -> DockerEvent {
    DockerEvent::Ended { success, code: Some(0), stdout: vec![], stderr: stderr.to_vec() }
}

fn running(now_nanos: u128) -> DockerEvent {
    DockerEvent::Polled { poll: Poll::Running { now_nanos } }
}

fn exited() -> DockerEvent {
    DockerEvent::Polled { poll: Poll::Exited }
}

/// A run whose pull began at five seconds.
fn pulling(runtime: RuntimeKind) -> DockerRun {
    let mut run = new_run(runtime);
    let begun = DockerEvent::PullStarted { now_nanos: 5 * SECOND };
    assert!(run.expects(&begun));
    assert!(matches!(run.step(begun), Ok(DockerAction::Poll)));
    run
}

fn pulled(runtime: RuntimeKind) -> DockerRun {
    let mut run = pulling(runtime);
    run.step(exited()).unwrap();
    run.step(ended(true, b"")).unwrap();
    run
}

#[test]
fn the_runtime_is_read_in_any_case() {
    assert_eq!(get_container_runtime(&None), RuntimeKind::Docker);
    assert_eq!(get_container_runtime(&some("")), RuntimeKind::Docker);
    assert_eq!(get_container_runtime(&some("docker")), RuntimeKind::Docker);
    assert_eq!(get_container_runtime(&some("kata")), RuntimeKind::Kata);
    assert_eq!(get_container_runtime(&some("KaTa")), RuntimeKind::Kata);
    assert_eq!(get_container_runtime(&some("kat")), RuntimeKind::Docker);
    assert_eq!(get_container_runtime(&some("\u{212a}ATA")), RuntimeKind::Kata);
    assert_eq!(get_container_runtime(&some(" kata")), RuntimeKind::Docker);
}

#[test]
fn each_job_type_has_its_image_and_command() {
    let (image, cmd) = build_docker_config("python", &config());
    assert_eq!(image, "pytorch/pytorch:2.1.0-cuda12.1-cudnn8-runtime");
    assert_eq!(
        cmd,
        vec![
            "bash",
            "-c",
            "ls -la /workspace && if [ -f requirements.txt ]; then pip install -r requirements.txt -q; fi; python main.py"
        ]
    );
    let (image, cmd) = build_docker_config("blender", &config());
    assert_eq!(image, "nvidia/cuda:12.2.0-runtime-ubuntu22.04");
    assert_eq!(
        cmd[2],
        "bash -c 'apt-get update -qq && apt-get install -y -qq blender && blender -b scene.blend -o /output/frame_#### -s 1 -e 1 -a'"
    );
    let (image, cmd) = build_docker_config("cuda", &config());
    assert_eq!(image, "nvidia/cuda:12.2.0-devel-ubuntu22.04");
    assert_eq!(cmd[2], "bash -c 'cd /workspace && nvcc -o program main.cu && ./program'");
    let (image, cmd) = build_docker_config("other", &config());
    assert_eq!(image, "ubuntu:22.04");
    assert_eq!(cmd, vec!["bash", "-c", "bash"]);
}

#[test]
fn a_job_can_name_its_own_files() {
    let asked = JobConfig {
        script: some("run.py"),
        image: some("img"),
        blend_file: some("a.blend"),
        source: some("k.cu"),
        output: some("k"),
        command: some("make"),
    };
    let (image, cmd) = build_docker_config("python", &asked);
    assert_eq!(image, "img");
    assert!(cmd[2].ends_with("; python run.py"));
    let (image, cmd) = build_docker_config("blender", &asked);
    assert_eq!(image, "nvidia/cuda:12.2.0-runtime-ubuntu22.04");
    assert!(cmd[2].contains("blender -b a.blend -o"));
    let (_, cmd) = build_docker_config("cuda", &asked);
    assert_eq!(cmd[2], "bash -c 'cd /workspace && nvcc -o k k.cu && ./k'");
    let (image, cmd) = build_docker_config("", &asked);
    assert_eq!(image, "img");
    assert_eq!(cmd, vec!["bash", "-c", "make"]);
}

fn job() -> ContainerSpec {
    ContainerSpec {
        work_dir: "/tmp/w".to_string(),
        job_id: "job-1".to_string(),
        memory_limit: "32g".to_string(),
        cpu_limit: "8".to_string(),
        image: "img".to_string(),
        cmd: vec!["bash".to_string(), "-c".to_string(), "true".to_string()],
    }
}

const CONFINED: [&str; 25] = [
    "--rm",
    "--network",
    "none",
    "--security-opt",
    "no-new-privileges:true",
    "--cap-drop",
    "ALL",
    "-v",
    "/tmp/w:/workspace",
    "-v",
    "/tmp/w/output:/output",
    "-w",
    "/workspace",
    "-e",
    "JOB_ID=job-1",
    "-e",
    "PYTHONUNBUFFERED=1",
    "--memory",
    "32g",
    "--cpus",
    "8",
    "img",
    "bash",
    "-c",
    "true",
];

#[test]
fn containers_are_confined() {
    let mut expected = vec!["run"];
    expected.extend_from_slice(&CONFINED);
    assert_eq!(docker_args(&job(), &GpuAccess::Docker { supported: false }), expected);
    let mut expected = vec!["run", "--gpus", "all"];
    expected.extend_from_slice(&CONFINED);
    assert_eq!(docker_args(&job(), &GpuAccess::Docker { supported: true }), expected);
}

#[test]
fn kata_gets_each_device() {
    let gpu = GpuAccess::Kata { pci_devices: vec!["0000:01:00.0".to_string(), "b".to_string()] };
    let mut expected = vec![
        "run",
        "--runtime=io.containerd.kata.v2",
        "--device",
        "/dev/bus/pci/0000:01:00.0:/dev/bus/pci/0000:01:00.0",
        "--device",
        "/dev/bus/pci/b:/dev/bus/pci/b",
    ];
    expected.extend_from_slice(&CONFINED);
    assert_eq!(docker_args(&job(), &gpu), expected);
    let none = GpuAccess::Kata { pci_devices: vec![] };
    assert_eq!(docker_args(&job(), &none)[1], "--runtime=io.containerd.kata.v2");
    assert_eq!(docker_args(&job(), &none)[2], "--rm");
}

#[test]
fn a_container_is_seen_through() {
    let mut run = new_run(RuntimeKind::Docker);
    assert_eq!(
        run.pull_args(),
        vec!["pull", "pytorch/pytorch:2.1.0-cuda12.1-cudnn8-runtime"]
    );
    let begun = DockerEvent::PullStarted { now_nanos: 5 * SECOND };
    assert!(run.expects(&begun));
    assert!(matches!(run.step(begun), Ok(DockerAction::Poll)));
    assert!(matches!(run.step(running(6 * SECOND)), Ok(DockerAction::Sleep { millis: 500 })));
    assert!(matches!(run.step(exited()), Ok(DockerAction::Collect)));
    assert!(!run.expects(&exited()));
    match run.step(ended(true, b"")).unwrap() {
        DockerAction::MakeDirectory { path } => assert_eq!(path, "/tmp/w/output"),
        other => panic!("{:?}", other),
    }
    let made = DockerEvent::OutputDirectory { made: true };
    assert!(matches!(run.step(made), Ok(DockerAction::ProbeGpuSupport)));
    let kata = DockerEvent::Gpus { gpu: GpuAccess::Kata { pci_devices: vec![] } };
    assert!(!run.expects(&kata));
    let gpus = DockerEvent::Gpus { gpu: GpuAccess::Docker { supported: true } };
    let (image, cmd) = build_docker_config("python", &config());
    let wanted = ContainerSpec {
        work_dir: "/tmp/w".to_string(),
        job_id: "job-1".to_string(),
        memory_limit: "32g".to_string(),
        cpu_limit: "2".to_string(),
        image,
        cmd,
    };
    match run.step(gpus).unwrap() {
        DockerAction::Spawn { args } => {
            assert_eq!(args, docker_args(&wanted, &GpuAccess::Docker { supported: true }))
        }
        other => panic!("{:?}", other),
    }
    assert!(matches!(run.step(DockerEvent::Spawned { started: true }), Ok(DockerAction::Poll)));
    assert!(matches!(run.step(running(605 * SECOND)), Ok(DockerAction::Sleep { millis: 500 })));
    assert!(matches!(run.step(exited()), Ok(DockerAction::Collect)));
    assert!(matches!(run.step(ended(true, b"")), Ok(DockerAction::Done)));
    assert!(!run.expects(&exited()));
}

#[test]
fn kata_is_asked_for_devices() {
    let mut run = pulled(RuntimeKind::Kata);
    let made = DockerEvent::OutputDirectory { made: true };
    assert!(matches!(run.step(made), Ok(DockerAction::ListPciDevices)));
}

fn started() -> DockerRun {
    let mut run = pulled(RuntimeKind::Docker);
    run.step(DockerEvent::OutputDirectory { made: true }).unwrap();
    run.step(DockerEvent::Gpus { gpu: GpuAccess::Docker { supported: false } }).unwrap();
    run.step(DockerEvent::Spawned { started: true }).unwrap();
    run
}

#[test]
fn a_container_that_runs_too_long_is_killed() {
    let mut run = started();
    match run.step(running(605 * SECOND + 1)).unwrap() {
        DockerAction::Kill { error } => {
            assert_eq!(error.message(), "docker execution timed out after 600s")
        }
        other => panic!("{:?}", other),
    }
    assert!(!run.expects(&exited()));
    let mut run = started();
    let lost = DockerEvent::Polled { poll: Poll::Failed { reason: "gone".to_string() } };
    match run.step(lost).unwrap() {
        DockerAction::Kill { error } => assert_eq!(error.message(), "docker process error: gone"),
        other => panic!("{:?}", other),
    }
}

#[test]
fn the_time_limit_holds_for_the_pull_too() {
    let mut run = pulling(RuntimeKind::Docker);
    assert!(matches!(run.step(running(605 * SECOND)), Ok(DockerAction::Sleep { .. })));
    match run.step(running(605 * SECOND + 1)).unwrap() {
        DockerAction::Kill { error } => {
            assert_eq!(error.message(), "docker execution timed out after 600s")
        }
        other => panic!("{:?}", other),
    }
    assert!(!run.expects(&exited()));
    let mut run = pulling(RuntimeKind::Docker);
    let lost = DockerEvent::Polled { poll: Poll::Failed { reason: "gone".to_string() } };
    match run.step(lost).unwrap() {
        DockerAction::Kill { error } => {
            assert_eq!(error.message(), "failed to execute docker pull")
        }
        other => panic!("{:?}", other),
    }
}

#[test]
fn docker_failures_have_their_texts() {
    let err = new_run(RuntimeKind::Docker).step(DockerEvent::NoPull).unwrap_err();
    assert_eq!(err.message(), "failed to execute docker pull");
    let mut run = pulling(RuntimeKind::Docker);
    run.step(exited()).unwrap();
    let err = run.step(ended(false, b" no such image\n")).unwrap_err();
    assert_eq!(
        err.message(),
        "docker pull failed for pytorch/pytorch:2.1.0-cuda12.1-cudnn8-runtime: no such image"
    );
    let mut run = pulled(RuntimeKind::Docker);
    let err = run.step(DockerEvent::OutputDirectory { made: false }).unwrap_err();
    assert_eq!(err.message(), "failed to create output directory");
    let mut run = pulled(RuntimeKind::Docker);
    run.step(DockerEvent::OutputDirectory { made: true }).unwrap();
    run.step(DockerEvent::Gpus { gpu: GpuAccess::Docker { supported: false } }).unwrap();
    let err = run.step(DockerEvent::Spawned { started: false }).unwrap_err();
    assert_eq!(err.message(), "failed to spawn docker");
    let mut run = started();
    run.step(exited()).unwrap();
    let failed = DockerEvent::Ended {
        success: false,
        code: Some(137),
        stdout: b"out".to_vec(),
        stderr: b"err\xff".to_vec(),
    };
    let err = run.step(failed).unwrap_err();
    assert_eq!(
        err.message(),
        "docker exited with code Some(137)\nstdout:\nout\nstderr:\nerr\u{fffd}"
    );
    let signalled =
        DockerError::ExitFailure { code: None, stdout: String::new(), stderr: String::new() };
    assert_eq!(signalled.message(), "docker exited with code None\nstdout:\n\nstderr:\n");
}

#[test]
fn the_gpu_is_read_from_the_first_line() {
    assert_eq!(
        gpu_from_listing("NVIDIA RTX 4090, 24564\nNVIDIA T4, 15360\n"),
        ("NVIDIA RTX 4090".to_string(), 24564)
    );
    assert_eq!(gpu_from_listing(" A100 , [N/A]"), ("A100".to_string(), 0));
    assert_eq!(gpu_from_listing("A100"), ("A100".to_string(), 0));
    assert_eq!(gpu_from_listing(""), (String::new(), 0));
    assert_eq!(gpu_from_listing("A, 1, 2"), ("A".to_string(), 0));
}

#[test]
fn an_unknown_gpu_is_called_so() {
    assert_eq!(query_gpu_info(None), ("unknown".to_string(), 0));
    assert_eq!(query_gpu_info(Some(b"X\xff, 7\r\n")), ("X\u{fffd}".to_string(), 7));
}

#[test]
fn devices_are_listed_one_to_a_line() {
    let listing: &[u8] = b"00000000:01:00.0\n\n 00000000:02:00.0\r\n";
    assert_eq!(
        detect_nvidia_pci_devices(Some(listing)),
        vec!["00000000:01:00.0", "00000000:02:00.0"]
    );
    assert_eq!(detect_nvidia_pci_devices(None), Vec::<String>::new());
}

#[test]
fn gpu_support_needs_both_tools() {
    assert!(docker_has_gpu_support(true, Some(b"map[nvidia:{} runc:{}]")));
    assert!(!docker_has_gpu_support(false, Some(b"map[nvidia:{} runc:{}]")));
    assert!(!docker_has_gpu_support(true, Some(b"map[runc:{}]")));
    assert!(!docker_has_gpu_support(true, None));
}

#[test]
fn gpu_support_is_settled_once() {
    let mut support = GpuSupport::new();
    assert_eq!(support.known(), None);
    assert!(support.settle(true, Some(b"map[nvidia:{}]")));
    assert_eq!(support.known(), Some(true));
    assert!(support.settle(false, None));
    let mut support = GpuSupport::new();
    assert!(!support.settle(false, None));
    assert!(!support.settle(true, Some(b"map[nvidia:{}]")));
    assert_eq!(support.known(), Some(false));
}
