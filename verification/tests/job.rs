use edge_agent::config::{
    config_dir, config_path, fresh_node_id, heartbeat_url, is_named, matchmaker_url,
    node_id_from, owner,
    resolve_node_id, AgentConfig, NodeId,
};
use edge_agent::job::{
    download_bytes, open_job, seal_result, DownloadOutcome, HttpReply, JobAction, JobError, JobEvent, JobRun, PlaceholderOutcome,
    UnpackOutcome,
};
use edge_agent::luks::{
    command_verdict, create_luks_passphrase, luks_preflight, mapper_name, passphrase_from,
    setup_luks_container, HostStep, LuksContainer, LuksSetup, SetupAction, SetupEvent, StepOutcome,
};
use edge_agent::messages::{done_reply, error_reply, integrity_receipt, invalid_job_reply};
use edge_agent::payload::{decrypt_payload, encrypt_payload, hash_sha256};
use edge_agent::session::{
    after_session, AfterSession, JobMsg, Session, SessionAction, SessionEvent, FIRST_BACKOFF,
    HEARTBEAT_INTERVAL_SECS,
};

fn some(s: &str) -> Option<String> {
    Some(s.to_string())
}

fn message() -> JobMsg {
    JobMsg {
        job_id: some("job/../1"),
        encrypted_job_link: "https://in".to_string(),
        result_upload_url: "https://out".to_string(),
        enc_key_b64: some("CQkJCQkJCQkJCQkJCQkJCQkJCQkJCQkJCQkJCQkJCQk="),
        salt_b64: None,
        script: None,
        image: None,
        job_type: None,
    }
}

const KEY: [u8; 32] = [9u8; 32];

fn answered(success: bool, status: &str, body: Option<Vec<u8>>) -> DownloadOutcome {
    DownloadOutcome::Answered { reply: HttpReply { success, status: status.to_string() }, body }
}

fn fetched(encrypted: Vec<u8>) -> JobEvent {
    JobEvent::Downloaded { outcome: answered(true, "200 OK", Some(encrypted)) }
}

#[test]
fn a_download_gives_the_body_of_a_success() {
    assert_eq!(download_bytes(answered(true, "200 OK", Some(vec![7]))).unwrap(), vec![7]);
    let text = |outcome| download_bytes(outcome).unwrap_err().message();
    assert_eq!(text(DownloadOutcome::NotSent), "HTTP GET failed");
    assert_eq!(
        text(answered(false, "404 Not Found", None)),
        "download failed with status 404 Not Found"
    );
    assert_eq!(text(answered(true, "200 OK", None)), "failed to read response body");
}

fn padded(payload: &[u8]) -> Vec<u8> {
    let mut out = payload.to_vec();
    out.resize(64, 42);
    out.extend_from_slice(&(payload.len() as u64).to_be_bytes());
    out
}

fn show(step: &HostStep) -> String {
    match step {
        HostStep::Run { program, args } => format!("{} {}", program, args.join(" ")),
        HostStep::Unlock { program, args, context } => {
            format!("{} {} [{}]", program, args.join(" "), context)
        }
        HostStep::MakeDirectory { path } => format!("+{}", path),
        HostStep::RemoveDirectory { path } => format!("-{}", path),
    }
}

#[test]
fn a_job_runs_to_its_end() {
    let mut run = JobRun::new(message(), KEY);
    let encrypted = encrypt_payload(&padded(b"zip"), &KEY).unwrap();
    let downloaded = fetched(encrypted);
    assert!(run.expects(&downloaded));
    assert!(matches!(run.step(downloaded), Ok(JobAction::MakeWorkspace)));
    match run.step(JobEvent::WorkspaceMade { made: true }).unwrap() {
        JobAction::SetUpLuks { container, mount_point, job_id, passphrase } => {
            assert_eq!(container, "workspace.luks");
            assert_eq!(mount_point, "mnt");
            assert_eq!(job_id, "job/../1");
            assert_eq!(passphrase.len(), 64);
        }
        other => panic!("{:?}", other),
    }
    match run.step(JobEvent::LuksSetUp { done: true }).unwrap() {
        JobAction::Unpack { workspace, archive, payload } => {
            assert_eq!(workspace, "mnt/job");
            assert_eq!(archive, "mnt/payload.zip");
            assert_eq!(payload, b"zip");
        }
        other => panic!("{:?}", other),
    }
    match run.step(JobEvent::Unpacked { outcome: UnpackOutcome::Done }).unwrap() {
        JobAction::CheckScript { workspace, script } => {
            assert_eq!(workspace, "mnt/job");
            assert_eq!(script, "main.py");
        }
        other => panic!("{:?}", other),
    }
    let checked = JobEvent::ScriptChecked { found: true, path: String::new() };
    match run.step(checked).unwrap() {
        JobAction::RunContainer { workspace, job_type, config, job_id } => {
            assert_eq!(workspace, "mnt/job");
            assert_eq!(job_type, "python");
            assert!(config.script.is_none() && config.image.is_none());
            assert_eq!(job_id, "job/../1");
        }
        other => panic!("{:?}", other),
    }
    match run.step(JobEvent::ContainerEnded { success: true }).unwrap() {
        JobAction::ZipOutput { output_dir, archive } => {
            assert_eq!(output_dir, "mnt/job/output");
            assert_eq!(archive, "mnt/result.zip");
        }
        other => panic!("{:?}", other),
    }
    match run.step(JobEvent::Zipped { success: Some(true) }).unwrap() {
        JobAction::ReadResult { archive } => assert_eq!(archive, "mnt/result.zip"),
        other => panic!("{:?}", other),
    }
    let read = JobEvent::ResultRead { blob: Some(b"result".to_vec()) };
    assert!(run.must_tear_down());
    match run.step(read).unwrap() {
        JobAction::TearDown { container, mount_point, job_id } => {
            assert_eq!(container, "workspace.luks");
            assert_eq!(mount_point, "mnt");
            assert_eq!(job_id, "job/../1");
        }
        other => panic!("{:?}", other),
    }
    assert!(run.must_tear_down());
    match run.step(JobEvent::TornDown).unwrap() {
        JobAction::UploadResult { url, body } => {
            assert_eq!(url, "https://out");
            assert_eq!(decrypt_payload(&body, &KEY).unwrap(), b"result");
        }
        other => panic!("{:?}", other),
    }
    let reply = Some(HttpReply { success: true, status: "200 OK".to_string() });
    match run.step(JobEvent::ResultUploaded { reply }).unwrap() {
        JobAction::UploadReceipt { url, body } => {
            assert_eq!(url, "https://out.receipt");
            assert_eq!(
                decrypt_payload(&body, &KEY).unwrap(),
                integrity_receipt("job/../1", &hash_sha256(b"zip"), &hash_sha256(b"result"))
            );
        }
        other => panic!("{:?}", other),
    }
    let reply = Some(HttpReply { success: false, status: "500".to_string() });
    let stored = JobEvent::ReceiptUploaded { reply };
    assert!(matches!(run.step(stored), Ok(JobAction::RemoveWorkspace)));
    match run.step(JobEvent::WorkspaceRemoved).unwrap() {
        JobAction::Finish { url, receipt_stored } => {
            assert_eq!(url, "https://out");
            assert!(!receipt_stored);
        }
        other => panic!("{:?}", other),
    }
    assert!(!run.expects(&JobEvent::TornDown));
}

/// The ways that a job comes to wait for something.
#[derive(Clone, Copy, PartialEq)]
enum Until {
    Download,
    Workspace,
    Luks,
    Unpack,
    Script,
    Container,
    Zip,
    Read,
    TearDown,
    Upload,
    Receipt,
}

fn at(job: JobMsg, until: Until) -> JobRun {
    let mut run = JobRun::new(job, KEY);
    let encrypted = encrypt_payload(&padded(b"zip"), &KEY).unwrap();
    let reply = Some(HttpReply { success: true, status: "200 OK".to_string() });
    let events = vec![
        (Until::Download, fetched(encrypted)),
        (Until::Workspace, JobEvent::WorkspaceMade { made: true }),
        (Until::Luks, JobEvent::LuksSetUp { done: true }),
        (Until::Unpack, JobEvent::Unpacked { outcome: UnpackOutcome::Done }),
        (Until::Script, JobEvent::ScriptChecked { found: true, path: String::new() }),
        (Until::Container, JobEvent::ContainerEnded { success: true }),
        (Until::Zip, JobEvent::Zipped { success: Some(true) }),
        (Until::Read, JobEvent::ResultRead { blob: Some(b"result".to_vec()) }),
        (Until::TearDown, JobEvent::TornDown),
        (Until::Upload, JobEvent::ResultUploaded { reply }),
    ];
    for (waits_for, event) in events {
        if waits_for == until {
            break;
        }
        assert!(run.expects(&event));
        run.step(event).unwrap();
    }
    run
}

/// The text of the error that an event ends a job with, after all that was set up
/// is cleaned up.
fn error_of(mut run: JobRun, event: JobEvent, has_workspace: bool) -> String {
    assert!(run.expects(&event));
    let mounted = run.must_tear_down();
    let mut result = run.step(event);
    if mounted {
        assert!(matches!(result, Ok(JobAction::TearDown { .. })));
        assert!(run.must_tear_down());
        assert!(run.expects(&JobEvent::TornDown));
        result = run.step(JobEvent::TornDown);
    }
    assert!(!run.must_tear_down());
    if has_workspace {
        assert!(matches!(result, Ok(JobAction::RemoveWorkspace)));
        assert!(run.expects(&JobEvent::WorkspaceRemoved));
        result = run.step(JobEvent::WorkspaceRemoved);
    }
    assert!(!run.expects(&JobEvent::TornDown));
    assert!(!run.expects(&JobEvent::WorkspaceRemoved));
    result.unwrap_err().message()
}

fn fails(until: Until, event: JobEvent, text: &str) {
    let has_workspace = until != Until::Download && until != Until::Workspace;
    assert_eq!(error_of(at(message(), until), event, has_workspace), text);
}

#[test]
fn each_failure_has_its_text() {
    for outcome in [
        DownloadOutcome::NotSent,
        answered(false, "404 Not Found", Some(vec![0u8; 99])),
        answered(true, "200 OK", None),
    ] {
        let gone = JobEvent::Downloaded { outcome };
        fails(Until::Download, gone, "failed to download encrypted job payload");
    }
    let short = fetched(vec![0u8; 3]);
    fails(Until::Download, short, "AES-256-GCM decryption failed");
    let unpadded = fetched(encrypt_payload(b"x", &KEY).unwrap());
    fails(Until::Download, unpadded, "failed to remove padding");
    let none = JobEvent::WorkspaceMade { made: false };
    fails(Until::Workspace, none, "failed to create temp workspace");
    fails(Until::Luks, JobEvent::LuksSetUp { done: false }, "LUKS container setup failed");
    let io = UnpackOutcome::IoFailed { reason: "disk".to_string() };
    fails(Until::Unpack, JobEvent::Unpacked { outcome: io }, "disk");
    let unwritten = JobEvent::Unpacked { outcome: UnpackOutcome::NotWritten };
    fails(Until::Unpack, unwritten, "failed to write decrypted zip to LUKS");
    let unopened = JobEvent::Unpacked { outcome: UnpackOutcome::NotOpened };
    fails(Until::Unpack, unopened, "failed to open ZIP archive");
    let unextracted = JobEvent::Unpacked { outcome: UnpackOutcome::NotExtracted };
    fails(Until::Unpack, unextracted, "failed to extract ZIP archive");
    let missing = JobEvent::ScriptChecked { found: false, path: "/m/main.py".to_string() };
    fails(Until::Script, missing, "script file not found after extraction: /m/main.py");
    let ended = JobEvent::ContainerEnded { success: false };
    fails(Until::Container, ended, "Docker execution failed");
    let unzipped = JobEvent::Zipped { success: None };
    fails(Until::Zip, unzipped, "failed to create result zip");
    fails(Until::Read, JobEvent::ResultRead { blob: None }, "failed to read result zip");
    let unsent = JobEvent::ResultUploaded { reply: None };
    fails(Until::Upload, unsent, "failed to upload encrypted result");
    let refused = HttpReply { success: false, status: "403 Forbidden".to_string() };
    fails(
        Until::Upload,
        JobEvent::ResultUploaded { reply: Some(refused) },
        "result upload failed: 403 Forbidden",
    );
    let unsent = JobEvent::ReceiptUploaded { reply: None };
    fails(Until::Receipt, unsent, "failed to upload integrity receipt");
    assert_eq!(JobError::ResultNotEncrypted.message(), "failed to encrypt result");
    assert_eq!(JobError::ReceiptNotEncrypted.message(), "failed to encrypt receipt");
}

#[test]
fn a_failed_placeholder_has_its_text() {
    let waiting = || {
        let mut run = at(message(), Until::Zip);
        run.step(JobEvent::Zipped { success: Some(false) }).unwrap();
        run
    };
    let io = PlaceholderOutcome::IoFailed { reason: "full".to_string() };
    assert_eq!(error_of(waiting(), JobEvent::PlaceholderZipped { outcome: io }, true), "full");
    let not_run = JobEvent::PlaceholderZipped { outcome: PlaceholderOutcome::NotRun };
    assert_eq!(error_of(waiting(), not_run, true), "failed to create fallback result zip");
}

#[test]
fn a_job_takes_at_most_thirteen_steps() {
    let mut run = at(message(), Until::Zip);
    run.step(JobEvent::Zipped { success: Some(false) }).unwrap();
    let reply = || Some(HttpReply { success: true, status: "200 OK".to_string() });
    let rest = [
        JobEvent::PlaceholderZipped { outcome: PlaceholderOutcome::Done },
        JobEvent::ResultRead { blob: Some(b"result".to_vec()) },
        JobEvent::TornDown,
        JobEvent::ResultUploaded { reply: reply() },
        JobEvent::ReceiptUploaded { reply: reply() },
    ];
    for event in rest {
        assert!(run.expects(&event));
        run.step(event).unwrap();
    }
    assert!(matches!(
        run.step(JobEvent::WorkspaceRemoved),
        Ok(JobAction::Finish { receipt_stored: true, .. })
    ));
    assert!(!run.expects(&JobEvent::WorkspaceRemoved));
}

#[test]
fn a_container_is_mounted_from_setup_to_teardown() {
    for until in [Until::Download, Until::Workspace, Until::Luks, Until::Upload, Until::Receipt] {
        assert!(!at(message(), until).must_tear_down());
    }
    for until in [
        Until::Unpack,
        Until::Script,
        Until::Container,
        Until::Zip,
        Until::Read,
        Until::TearDown,
    ] {
        assert!(at(message(), until).must_tear_down());
    }
}

#[test]
fn an_empty_output_gets_a_placeholder() {
    let mut run = at(message(), Until::Zip);
    match run.step(JobEvent::Zipped { success: Some(false) }).unwrap() {
        JobAction::WritePlaceholder { output_dir, file, content, archive } => {
            assert_eq!(output_dir, "mnt/job/output");
            assert_eq!(file, "result.txt");
            assert_eq!(content, "Tenxo job completed successfully");
            assert_eq!(archive, "mnt/result.zip");
        }
        other => panic!("{:?}", other),
    }
    let done = JobEvent::PlaceholderZipped { outcome: PlaceholderOutcome::Done };
    assert!(matches!(run.step(done), Ok(JobAction::ReadResult { .. })));
}

#[test]
fn a_job_keeps_what_its_message_asks() {
    let mut asked = message();
    asked.job_id = None;
    asked.script = some("train.py");
    asked.image = some("img");
    asked.job_type = some("cuda");
    let mut run = at(asked, Until::Unpack);
    match run.step(JobEvent::Unpacked { outcome: UnpackOutcome::Done }).unwrap() {
        JobAction::CheckScript { script, .. } => assert_eq!(script, "train.py"),
        other => panic!("{:?}", other),
    }
    let checked = JobEvent::ScriptChecked { found: true, path: String::new() };
    match run.step(checked).unwrap() {
        JobAction::RunContainer { job_type, config, job_id, .. } => {
            assert_eq!(job_type, "cuda");
            assert_eq!(config.script.as_deref(), Some("train.py"));
            assert_eq!(config.image.as_deref(), Some("img"));
            assert!(config.source.is_none() && config.output.is_none());
            assert_eq!(job_id, "unknown");
        }
        other => panic!("{:?}", other),
    }
}

#[test]
fn payloads_open_and_results_are_sealed() {
    let encrypted = encrypt_payload(&padded(b"data"), &KEY).unwrap();
    assert_eq!(open_job(&encrypted, &KEY).unwrap(), b"data");
    let sealed = seal_result("j", "in", b"blob", &KEY).unwrap();
    assert_eq!(sealed.output_hash, hash_sha256(b"blob"));
    assert_eq!(decrypt_payload(&sealed.result, &KEY).unwrap(), b"blob");
    assert_eq!(
        decrypt_payload(&sealed.receipt, &KEY).unwrap(),
        integrity_receipt("j", "in", &hash_sha256(b"blob"))
    );
}

#[test]
fn a_container_is_set_up_step_by_step() {
    let steps = setup_luks_container("/t/workspace.luks", "/t/mnt", "job/../1");
    let shown: Vec<String> = steps.iter().map(show).collect();
    assert_eq!(
        shown,
        vec![
            "truncate -s 256M /t/workspace.luks",
            "cryptsetup luksFormat --batch-mode --type luks2 --pbkdf argon2i --iter-time 500 --key-size 256 --key-file - /t/workspace.luks [luksFormat failed]",
            "cryptsetup open --key-file - /t/workspace.luks tenxo-workspace-job1 [cryptsetup open failed]",
            "mkfs.ext4 -q /dev/mapper/tenxo-workspace-job1",
            "+/t/mnt",
            "mount /dev/mapper/tenxo-workspace-job1 /t/mnt",
            "chmod 1777 /t/mnt",
        ]
    );
}

#[test]
fn a_container_is_torn_down_once() {
    let mut container = LuksContainer::new(
        "/t/workspace.luks".to_string(),
        "/t/mnt".to_string(),
        "tenxo-workspace-1".to_string(),
    );
    let mut teardown = container.teardown();
    let mut before = None;
    let mut shown = Vec::new();
    while let Some(step) = teardown.step(&before) {
        shown.push(show(&step));
        before = Some(StepOutcome::NotExecuted);
    }
    assert_eq!(
        shown,
        vec![
            "umount -l /t/mnt",
            "-/t/mnt",
            "cryptsetup close tenxo-workspace-1",
            "shred -u -n 1 /t/workspace.luks",
        ]
    );
    assert!(container.teardown().step(&None).is_none());
}

fn ended_well() -> StepOutcome {
    StepOutcome::Ended {
        success: true,
        status: "exit status: 0".to_string(),
        stderr: vec![],
        stdout: vec![],
    }
}

fn went_well(step: &HostStep) -> StepOutcome {
    match step {
        HostStep::MakeDirectory { .. } => StepOutcome::Done,
        _ => ended_well(),
    }
}

/// Sets a container up until the step at place `bad`, which fails; the steps that
/// were done, and the error if there is one.
fn set_up(bad: usize) -> (Vec<String>, Option<String>) {
    let mut setup = LuksSetup::new("/t/c", "/t/m", "j");
    let mut done = Vec::new();
    let mut event = SetupEvent::Checked { found: vec![true; 5], device_mapper: true };
    loop {
        assert!(setup.expects(&event));
        match setup.step(event) {
            Ok(SetupAction::Perform { step }) => {
                let outcome = if done.len() != bad {
                    went_well(&step)
                } else if matches!(step, HostStep::MakeDirectory { .. }) {
                    StepOutcome::Failed { reason: "no space".to_string() }
                } else {
                    StepOutcome::NotExecuted
                };
                done.push(show(&step));
                event = SetupEvent::Performed { outcome };
            }
            Ok(SetupAction::Done { mut container }) => {
                let first = container.teardown().step(&None).unwrap();
                assert_eq!(show(&first), "umount -l /t/m");
                return (done, None);
            }
            Err(e) => {
                assert!(!setup.expects(&SetupEvent::Performed { outcome: ended_well() }));
                return (done, Some(e.message()));
            }
        }
    }
}

#[test]
fn the_setup_stops_at_the_first_failure() {
    let all: Vec<String> = setup_luks_container("/t/c", "/t/m", "j").iter().map(show).collect();
    assert_eq!(set_up(7), (all.clone(), None));
    let errors = [
        "failed to execute: truncate [\"-s\", \"256M\", \"/t/c\"]",
        "luksFormat failed",
        "cryptsetup open failed",
        "failed to execute: mkfs.ext4 [\"-q\", \"/dev/mapper/tenxo-workspace-j\"]",
        "no space",
        "failed to execute: mount [\"/dev/mapper/tenxo-workspace-j\", \"/t/m\"]",
        "failed to execute: chmod [\"1777\", \"/t/m\"]",
    ];
    for bad in 0..7 {
        assert_eq!(set_up(bad), (all[..bad + 1].to_vec(), Some(errors[bad].to_string())));
    }
}

#[test]
fn a_failed_preflight_leaves_every_step_undone() {
    let mut setup = LuksSetup::new("/t/c", "/t/m", "j");
    let checked = SetupEvent::Checked { found: vec![false], device_mapper: true };
    let err = setup.step(checked).unwrap_err();
    assert_eq!(err.message(), "required command 'cryptsetup' is not installed");
    assert!(!setup.expects(&SetupEvent::Performed { outcome: ended_well() }));
}

#[test]
fn mapper_names_are_plain() {
    assert_eq!(mapper_name("a-B.9/\u{e9}_z"), "tenxo-workspace-a-B9z");
    assert_eq!(mapper_name(""), "tenxo-workspace-");
}

#[test]
fn the_preflight_names_what_is_missing() {
    assert!(luks_preflight(&vec![true; 5], true).is_ok());
    assert_eq!(
        luks_preflight(&vec![true, false], true).unwrap_err().message(),
        "required command 'mkfs.ext4' is not installed"
    );
    assert_eq!(
        luks_preflight(&vec![true; 4], false).unwrap_err().message(),
        "required command 'shred' is not installed"
    );
    assert_eq!(
        luks_preflight(&vec![true; 5], false).unwrap_err().message(),
        "dm-crypt device mapper is unavailable (/dev/mapper/control missing); run the agent with root/CAP_SYS_ADMIN and device-mapper support"
    );
}

#[test]
fn a_failed_command_is_reported() {
    let args = vec!["-q".to_string(), "a \"b\"".to_string()];
    let shown = |outcome| command_verdict("mkfs.ext4", &args, outcome).unwrap_err().message();
    let ended = |success, status: &str| StepOutcome::Ended {
        success,
        status: status.to_string(),
        stderr: b" e\n".to_vec(),
        stdout: b"o ".to_vec(),
    };
    assert!(command_verdict("mkfs.ext4", &args, ended(true, "exit status: 0")).is_ok());
    assert_eq!(
        shown(ended(false, "exit status: 1")),
        "command mkfs.ext4 [\"-q\", \"a \\\"b\\\"\"] failed with status exit status: 1: stderr=e stdout=o"
    );
    assert_eq!(
        shown(StepOutcome::NotExecuted),
        "failed to execute: mkfs.ext4 [\"-q\", \"a \\\"b\\\"\"]"
    );
    assert_eq!(shown(StepOutcome::NoStdin), "failed to open child stdin");
    assert_eq!(
        shown(StepOutcome::StdinUnwritten),
        "failed to write stdin for mkfs.ext4 [\"-q\", \"a \\\"b\\\"\"]"
    );
    assert_eq!(
        shown(StepOutcome::NotAwaited),
        "failed to wait for mkfs.ext4 [\"-q\", \"a \\\"b\\\"\"]"
    );
}

#[test]
fn passphrases_are_random_hexadecimal() {
    let a = create_luks_passphrase();
    let b = create_luks_passphrase();
    assert_ne!(a, b);
    assert_eq!(a.len(), 64);
    assert!(a.chars().all(|c| c.is_ascii_digit() || ('a'..='f').contains(&c)));
    let mut bytes = [0u8; 32];
    bytes[0] = 0xaf;
    bytes[31] = 0x10;
    assert_eq!(passphrase_from(&bytes), format!("af{}10", "0".repeat(60)));
}

#[test]
fn the_session_answers_every_job() {
    let mut session = Session::new([4u8; 32]);
    assert!(matches!(session.step(SessionEvent::Idle), SessionAction::Read));
    assert!(matches!(session.step(SessionEvent::OtherFrame), SessionAction::Read));
    match session.step(SessionEvent::NotAJob { reason: "eof".to_string() }) {
        SessionAction::Reply { message } => assert_eq!(message, invalid_job_reply("eof")),
        other => panic!("{:?}", other),
    }
    let mut keyless = message();
    keyless.enc_key_b64 = None;
    match session.step(SessionEvent::Job { job: keyless }) {
        SessionAction::Reply { message } => assert_eq!(
            message,
            error_reply("job/../1", "no enc_key_b64 or salt_b64 in job message")
        ),
        other => panic!("{:?}", other),
    }
    assert!(!session.expects(&SessionEvent::JobEnded { result: Ok(String::new()) }));
    match session.step(SessionEvent::Job { job: message() }) {
        SessionAction::RunJob { job, key } => {
            assert_eq!(job.encrypted_job_link, "https://in");
            assert_eq!(key, KEY);
        }
        other => panic!("{:?}", other),
    }
    assert!(!session.expects(&SessionEvent::Idle));
    let ended = SessionEvent::JobEnded { result: Ok("https://out".to_string()) };
    assert!(session.expects(&ended));
    match session.step(ended) {
        SessionAction::Reply { message } => {
            assert_eq!(message, done_reply("job/../1", "https://out"))
        }
        other => panic!("{:?}", other),
    }
    let mut nameless = message();
    nameless.job_id = None;
    assert!(matches!(
        session.step(SessionEvent::Job { job: nameless }),
        SessionAction::RunJob { .. }
    ));
    match session.step(SessionEvent::JobEnded { result: Err("broke".to_string()) }) {
        SessionAction::Reply { message } => assert_eq!(message, error_reply("", "broke")),
        other => panic!("{:?}", other),
    }
}

#[test]
fn answers_do_not_depend_on_the_secret() {
    let mut short = message();
    short.salt_b64 = some("AAAA");
    let mut again = message();
    again.salt_b64 = some("AAAA");
    let a = Session::new([1u8; 32]).step(SessionEvent::Job { job: short });
    let b = Session::new([2u8; 32]).step(SessionEvent::Job { job: again });
    match (a, b) {
        (SessionAction::Reply { message: x }, SessionAction::Reply { message: y }) => {
            assert_eq!(x, y);
            assert_eq!(x, error_reply("job/../1", "invalid salt length: 3 (expected 32)"));
        }
        other => panic!("{:?}", other),
    }
}

#[test]
fn a_lost_connection_is_made_again() {
    let mut session = Session::new([0u8; 32]);
    match session.step(SessionEvent::ReadFailed { reason: "reset".to_string() }) {
        SessionAction::Lost { error } => assert_eq!(error, "WS bridge read failed: reset"),
        other => panic!("{:?}", other),
    }
    let mut backoff = FIRST_BACKOFF;
    assert_eq!(
        after_session(false, false, &mut backoff),
        AfterSession::Reconnect { wait_secs: 1 }
    );
}

#[test]
fn a_closed_connection_ends_the_session() {
    let mut session = Session::new([0u8; 32]);
    assert!(matches!(session.step(SessionEvent::Closed), SessionAction::Stop));
    let mut backoff = FIRST_BACKOFF;
    assert_eq!(after_session(true, false, &mut backoff), AfterSession::Finish);
}

#[test]
fn waits_grow_to_their_bound() {
    let mut backoff = FIRST_BACKOFF;
    let mut waits = Vec::new();
    for _ in 0..18 {
        match after_session(false, false, &mut backoff) {
            AfterSession::Reconnect { wait_secs } => waits.push(wait_secs),
            AfterSession::Finish => panic!("should connect again"),
        }
    }
    assert_eq!(
        waits,
        vec![1, 3, 5, 7, 9, 11, 13, 15, 17, 19, 21, 23, 25, 27, 29, 31, 31, 31]
    );
    assert_eq!(after_session(true, false, &mut backoff), AfterSession::Finish);
    assert_eq!(after_session(false, true, &mut backoff), AfterSession::Finish);
    assert_eq!(backoff, 31);
    assert_eq!(HEARTBEAT_INTERVAL_SECS, 20);
}

#[test]
fn the_configuration_has_its_place() {
    assert_eq!(config_dir(&some("/c"), &some("/h")), "/c");
    assert_eq!(config_path(&some(""), &some("/h")), "/agent.json");
    assert_eq!(config_path(&None, &some("/h")), "/h/.config/tenxo/agent.json");
    assert_eq!(config_path(&None, &None), "/etc/tenxo/agent.json");
}

#[test]
fn the_node_is_named_by_the_environment_first() {
    let saved = || Some(AgentConfig { node_id: "kept".to_string() });
    match resolve_node_id(&some("env"), &saved()) {
        NodeId::Environment { id } => assert_eq!(id, "env"),
        other => panic!("{:?}", other),
    }
    match resolve_node_id(&some(""), &saved()) {
        NodeId::Saved { id } => assert_eq!(id, "kept"),
        other => panic!("{:?}", other),
    }
    match resolve_node_id(&None, &None) {
        NodeId::Fresh { id } => assert!(id.starts_with("node-")),
        other => panic!("{:?}", other),
    }
    assert!(is_named(&some("x")));
    assert!(!is_named(&some("")));
    assert!(!is_named(&None));
}

#[test]
fn fresh_names_are_random_uuids() {
    assert_eq!(node_id_from("u-1"), "node-u-1");
    let id = fresh_node_id();
    assert_ne!(id, fresh_node_id());
    assert_eq!(id.len(), 41);
    let uuid = uuid::Uuid::parse_str(&id[5..]).unwrap();
    assert_eq!(uuid.get_version_num(), 4);
    assert_eq!(uuid.to_string(), id[5..]);
}

#[test]
fn addresses_have_their_defaults() {
    assert_eq!(matchmaker_url(&None), "http://127.0.0.1:8080");
    assert_eq!(matchmaker_url(&some("https://m")), "https://m");
    assert_eq!(owner(&None), "");
    assert_eq!(owner(&some("me")), "me");
    assert_eq!(heartbeat_url("https://m"), "https://m/agent/heartbeat");
}
