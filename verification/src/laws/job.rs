//! How a job goes, from its message to its result.

use vstd::prelude::*;

use crate::docker::JobConfigModel;
use crate::job;
use crate::job::DownloadError;
use crate::job::DownloadOutcome;
use crate::job::HttpReply;
use crate::job::JobAction;
use crate::job::JobError;
use crate::job::JobEvent;
use crate::job::JobMove;
use crate::job::JobRun;
use crate::job::JobStage;
use crate::job::PlaceholderOutcome;
use crate::job::UnpackOutcome;
use crate::messages;
use crate::payload;
use crate::payload::PayloadError;
use crate::primitives;
use crate::session::JobMsg;

verus! {

/// A download gives the very body of an answer with success, and nothing else.
pub proof fn law_downloads_give_the_body(status: String, bytes: Vec<u8>, body: Option<Vec<u8>>)
    ensures
        job::downloaded(
            DownloadOutcome::Answered {
                reply: HttpReply { success: true, status },
                body: Some(bytes),
            },
        ) == Ok::<Seq<u8>, Seq<char>>(bytes@),
        job::downloaded(
            DownloadOutcome::Answered { reply: HttpReply { success: true, status }, body: None },
        ) == Err::<Seq<u8>, Seq<char>>("failed to read response body"@),
        job::downloaded(
            DownloadOutcome::Answered { reply: HttpReply { success: false, status }, body },
        ) == Err::<Seq<u8>, Seq<char>>("download failed with status "@ + status@),
        job::downloaded(DownloadOutcome::NotSent) == Err::<Seq<u8>, Seq<char>>(
            "HTTP GET failed"@,
        ),
{
}

/// What is opened is what the cipher opens under the job's key, without its padding:
/// a frame of twelve bytes of nonce, then a ciphertext that opens to a payload, some
/// filler and eight bytes with the payload's length, opens to the payload. A frame
/// that the cipher does not open, or that is too short for one, is not opened, and
/// neither is one whose last eight bytes give a length that is not there.
pub proof fn law_payloads_open_under_the_key(
    nonce: Seq<u8>,
    ciphertext: Seq<u8>,
    short: Seq<u8>,
    key: Seq<u8>,
)
    requires
        nonce.len() == 12,
        ciphertext.len() >= 16,
        short.len() < 28,
    ensures
        job::opened(short, key) == Err::<Seq<u8>, Seq<char>>("AES-256-GCM decryption failed"@),
        primitives::gcm_opened(key, nonce, ciphertext) is None ==> job::opened(
            nonce + ciphertext,
            key,
        ) == Err::<Seq<u8>, Seq<char>>("AES-256-GCM decryption failed"@),
        primitives::gcm_opened(key, nonce, ciphertext) matches Some(padded)
            ==> match payload::unpadded(padded) {
            Ok(plain) => job::opened(nonce + ciphertext, key) == Ok::<Seq<u8>, Seq<char>>(plain),
            Err(_) => job::opened(nonce + ciphertext, key) == Err::<Seq<u8>, Seq<char>>(
                "failed to remove padding"@,
            ),
        },
{
    let frame = nonce + ciphertext;
    assert(frame.take(12) =~= nonce);
    assert(frame.skip(12) =~= ciphertext);
}

/// A result is refused just where it is longer than the cipher takes, or its receipt
/// is. The receipt binds the job's name, the hash of what went in and the hash of
/// this result.
pub proof fn law_only_long_results_are_not_sealed(
    job_id: Seq<char>,
    input_hash: Seq<char>,
    blob: Seq<u8>,
)
    ensures
        blob.len() > 68719476736 ==> job::seal_error(job_id, input_hash, blob) == Some(
            "failed to encrypt result"@,
        ),
        blob.len() <= 68719476736 && messages::receipt_of(
            job_id,
            input_hash,
            primitives::hex_of(primitives::sha256_of(blob)),
        ).len() > 68719476736 ==> job::seal_error(job_id, input_hash, blob) == Some(
            "failed to encrypt receipt"@,
        ),
        blob.len() <= 68719476736 && messages::receipt_of(
            job_id,
            input_hash,
            primitives::hex_of(primitives::sha256_of(blob)),
        ).len() <= 68719476736 ==> job::seal_error(job_id, input_hash, blob) is None,
{
}

/// The container is asked for the script and the image that the message names, and
/// for nothing else.
pub proof fn law_messages_name_script_and_image(job: JobMsg)
    ensures
        job::config_of(job) == (JobConfigModel {
            script: match job.script {
                Some(s) => Some(s@),
                None => None,
            },
            image: match job.image {
                Some(s) => Some(s@),
                None => None,
            },
            blend_file: None,
            source: None,
            output: None,
            command: None,
        }),
{
}

/// A job and its script go by the names in the message; without one the job is
/// unknown and the script is `main.py`.
pub proof fn law_jobs_go_by_their_message(run: JobRun)
    ensures
        run.job_name() == (match run.job().job_id {
            Some(s) => s@,
            None => "unknown"@,
        }),
        run.script_name() == (match run.job().script {
            Some(s) => s@,
            None => "main.py"@,
        }),
        run.tear_down() == (JobMove::TearDown {
            container: "workspace.luks"@,
            mount_point: "mnt"@,
            job_id: match run.job().job_id {
                Some(s) => s@,
                None => "unknown"@,
            },
        }),
{
}

/// Each stage waits for its own event.
pub proof fn law_stages_wait_for_their_events(run: JobRun, event: JobEvent)
    ensures
        event is Downloaded ==> run.awaits(event) == (run.stage() == JobStage::Download),
        event is WorkspaceMade ==> run.awaits(event) == (run.stage() == JobStage::Workspace),
        event is LuksSetUp ==> run.awaits(event) == (run.stage() == JobStage::Luks),
        event is Unpacked ==> run.awaits(event) == (run.stage() == JobStage::Unpack),
        event is ScriptChecked ==> run.awaits(event) == (run.stage() == JobStage::Script),
        event is ContainerEnded ==> run.awaits(event) == (run.stage() == JobStage::Container),
        event is Zipped ==> run.awaits(event) == (run.stage() == JobStage::Zip),
        event is PlaceholderZipped ==> run.awaits(event) == (run.stage()
            == JobStage::Placeholder),
        event is ResultRead ==> run.awaits(event) == (run.stage() == JobStage::Read),
        event is TornDown ==> run.awaits(event) == (run.stage() == JobStage::TearDown
            || run.stage() == JobStage::Failing),
        event is ResultUploaded ==> run.awaits(event) == (run.stage() == JobStage::Upload),
        event is ReceiptUploaded ==> run.awaits(event) == (run.stage() == JobStage::Receipt),
        event is WorkspaceRemoved ==> run.awaits(event) == (run.stage() == JobStage::Removing),
{
}

/// The temporary directory is made once the payload is there and opened, and not
/// without it. Until then an error ends the job at once.
pub proof fn law_jobs_begin_with_an_opened_payload(
    run: JobRun,
    outcome: DownloadOutcome,
    made: bool,
)
    ensures
        ({
            let event = JobEvent::Downloaded { outcome };
            run.stage() == JobStage::Download ==> match job::downloaded(outcome) {
                Err(_) => run.move_on(event) == Err::<JobMove, Seq<char>>("failed to download encrypted job payload"@)
                    && run.stage_after(event) == JobStage::Finished,
                Ok(bytes) => match job::opened(bytes, run.key()) {
                    Ok(_) => run.move_on(event) == Ok::<JobMove, Seq<char>>(JobMove::MakeWorkspace) && run.stage_after(
                        event,
                    ) == JobStage::Workspace,
                    Err(e) => run.move_on(event) == Err::<JobMove, Seq<char>>(e) && run.stage_after(event)
                        == JobStage::Finished,
                },
            }
        }),
        ({
            let event = JobEvent::WorkspaceMade { made };
            run.stage() == JobStage::Workspace ==> {
                &&& made ==> run.move_on(event) == Ok::<JobMove, Seq<char>>(
                    JobMove::SetUpLuks {
                        container: "workspace.luks"@,
                        mount_point: "mnt"@,
                        job_id: run.job_name(),
                    },
                ) && run.stage_after(event) == JobStage::Luks
                &&& !made ==> run.move_on(event) == Err::<JobMove, Seq<char>>("failed to create temp workspace"@)
                    && run.stage_after(event) == JobStage::Finished
            }
        }),
{
}

/// Once the LUKS container is mounted the payload that was opened is unpacked in it.
/// Then the script is looked for, and only where it is there the container is run.
pub proof fn law_the_payload_is_unpacked_and_run(
    run: JobRun,
    done: bool,
    outcome: UnpackOutcome,
    found: bool,
    path: String,
)
    ensures
        ({
            let event = JobEvent::LuksSetUp { done };
            run.stage() == JobStage::Luks ==> {
                &&& done ==> run.move_on(event) == Ok::<JobMove, Seq<char>>(
                    JobMove::Unpack {
                        workspace: "mnt/job"@,
                        archive: "mnt/payload.zip"@,
                        payload: run.payload(),
                    },
                ) && run.stage_after(event) == JobStage::Unpack
                &&& !done ==> run.move_on(event) == Ok::<JobMove, Seq<char>>(JobMove::RemoveWorkspace)
                    && run.stage_after(event) == JobStage::Removing && run.failure_after(event)
                    == Some("LUKS container setup failed"@)
            }
        }),
        ({
            let event = JobEvent::Unpacked { outcome };
            run.stage() == JobStage::Unpack ==> {
                &&& outcome is Done ==> run.move_on(event) == Ok::<JobMove, Seq<char>>(
                    JobMove::CheckScript { workspace: "mnt/job"@, script: run.script_name() },
                ) && run.stage_after(event) == JobStage::Script
                &&& !(outcome is Done) ==> run.move_on(event) == Ok::<JobMove, Seq<char>>(run.tear_down())
                    && run.stage_after(event) == JobStage::Failing && run.failure_after(event)
                    == Some(
                    match outcome {
                        UnpackOutcome::IoFailed { reason } => reason@,
                        UnpackOutcome::NotWritten => "failed to write decrypted zip to LUKS"@,
                        UnpackOutcome::NotOpened => "failed to open ZIP archive"@,
                        _ => "failed to extract ZIP archive"@,
                    },
                )
            }
        }),
        ({
            let event = JobEvent::ScriptChecked { found, path };
            run.stage() == JobStage::Script ==> {
                &&& found ==> run.move_on(event) == Ok::<JobMove, Seq<char>>(
                    JobMove::RunContainer {
                        workspace: "mnt/job"@,
                        job_type: match run.job().job_type {
                            Some(s) => s@,
                            None => "python"@,
                        },
                        config: job::config_of(run.job()),
                        job_id: run.job_name(),
                    },
                ) && run.stage_after(event) == JobStage::Container
                &&& !found ==> run.move_on(event) == Ok::<JobMove, Seq<char>>(run.tear_down()) && run.stage_after(event)
                    == JobStage::Failing && run.failure_after(event) == Some(
                    "script file not found after extraction: "@ + path@,
                )
            }
        }),
{
}

/// What a container that succeeded left in the output directory is packed and read;
/// where there is nothing to pack, a placeholder is. A container that did not
/// succeed fails the job.
pub proof fn law_the_output_is_packed_and_read(
    run: JobRun,
    success: bool,
    packed: Option<bool>,
    outcome: PlaceholderOutcome,
)
    ensures
        ({
            let event = JobEvent::ContainerEnded { success };
            run.stage() == JobStage::Container ==> {
                &&& success ==> run.move_on(event) == Ok::<JobMove, Seq<char>>(
                    JobMove::ZipOutput {
                        output_dir: "mnt/job/output"@,
                        archive: "mnt/result.zip"@,
                    },
                ) && run.stage_after(event) == JobStage::Zip
                &&& !success ==> run.move_on(event) == Ok::<JobMove, Seq<char>>(run.tear_down()) && run.stage_after(
                    event,
                ) == JobStage::Failing && run.failure_after(event) == Some(
                    "Docker execution failed"@,
                )
            }
        }),
        ({
            let event = JobEvent::Zipped { success: packed };
            run.stage() == JobStage::Zip ==> {
                &&& packed == Some(true) ==> run.move_on(event) == Ok::<JobMove, Seq<char>>(
                    JobMove::ReadResult { archive: "mnt/result.zip"@ },
                ) && run.stage_after(event) == JobStage::Read
                &&& packed == Some(false) ==> run.move_on(event) == Ok::<JobMove, Seq<char>>(
                    JobMove::WritePlaceholder {
                        output_dir: "mnt/job/output"@,
                        file: "result.txt"@,
                        content: "Tenxo job completed successfully"@,
                        archive: "mnt/result.zip"@,
                    },
                ) && run.stage_after(event) == JobStage::Placeholder
                &&& packed is None ==> run.move_on(event) == Ok::<JobMove, Seq<char>>(run.tear_down())
                    && run.stage_after(event) == JobStage::Failing && run.failure_after(event)
                    == Some("failed to create result zip"@)
            }
        }),
        ({
            let event = JobEvent::PlaceholderZipped { outcome };
            run.stage() == JobStage::Placeholder ==> {
                &&& outcome is Done ==> run.move_on(event) == Ok::<JobMove, Seq<char>>(
                    JobMove::ReadResult { archive: "mnt/result.zip"@ },
                ) && run.stage_after(event) == JobStage::Read
                &&& !(outcome is Done) ==> run.move_on(event) == Ok::<JobMove, Seq<char>>(run.tear_down())
                    && run.stage_after(event) == JobStage::Failing && run.failure_after(event)
                    == Some(
                    match outcome {
                        PlaceholderOutcome::IoFailed { reason } => reason@,
                        _ => "failed to create fallback result zip"@,
                    },
                )
            }
        }),
{
}

/// A result that was read is sealed and the LUKS container torn down. Then the
/// sealed result goes to the address of the message, and once that is accepted the
/// sealed receipt beside it. After a failure the teardown leads to the removal of
/// the temporary directory, and nothing is uploaded.
pub proof fn law_results_go_where_the_message_says(
    run: JobRun,
    blob: Option<Vec<u8>>,
    reply: Option<HttpReply>,
)
    ensures
        ({
            let event = JobEvent::ResultRead { blob };
            run.stage() == JobStage::Read ==> {
                &&& run.move_on(event) == Ok::<JobMove, Seq<char>>(run.tear_down())
                &&& blob is None ==> run.stage_after(event) == JobStage::Failing
                    && run.failure_after(event) == Some("failed to read result zip"@)
                &&& blob matches Some(bytes) ==> match job::seal_error(
                    run.job_name(),
                    run.input_hash(),
                    bytes@,
                ) {
                    None => run.stage_after(event) == JobStage::TearDown && run.failure_after(event)
                        == run.failure(),
                    Some(e) => run.stage_after(event) == JobStage::Failing && run.failure_after(
                        event,
                    ) == Some(e),
                }
            }
        }),
        run.stage() == JobStage::TearDown ==> run.move_on(JobEvent::TornDown) == Ok::<JobMove, Seq<char>>(
            JobMove::UploadResult {
                url: run.job().result_upload_url@,
                body: run.sealed_result(),
            },
        ) && run.stage_after(JobEvent::TornDown) == JobStage::Upload,
        run.stage() == JobStage::Failing ==> run.move_on(JobEvent::TornDown) == Ok::<JobMove, Seq<char>>(
            JobMove::RemoveWorkspace,
        ) && run.stage_after(JobEvent::TornDown) == JobStage::Removing && run.failure_after(
            JobEvent::TornDown,
        ) == run.failure(),
        ({
            let event = JobEvent::ResultUploaded { reply };
            run.stage() == JobStage::Upload ==> match reply {
                None => run.move_on(event) == Ok::<JobMove, Seq<char>>(JobMove::RemoveWorkspace) && run.stage_after(event)
                    == JobStage::Removing && run.failure_after(event) == Some(
                    "failed to upload encrypted result"@,
                ),
                Some(answer) => if answer.success {
                    run.move_on(event) == Ok::<JobMove, Seq<char>>(
                        JobMove::UploadReceipt {
                            url: run.job().result_upload_url@ + ".receipt"@,
                            body: run.sealed_receipt(),
                        },
                    ) && run.stage_after(event) == JobStage::Receipt
                } else {
                    run.move_on(event) == Ok::<JobMove, Seq<char>>(JobMove::RemoveWorkspace) && run.stage_after(event)
                        == JobStage::Removing && run.failure_after(event) == Some(
                        "result upload failed: "@ + answer.status@,
                    )
                },
            }
        }),
        ({
            let event = JobEvent::ReceiptUploaded { reply };
            run.stage() == JobStage::Receipt ==> {
                &&& run.move_on(event) == Ok::<JobMove, Seq<char>>(JobMove::RemoveWorkspace)
                &&& run.stage_after(event) == JobStage::Removing
                &&& run.failure_after(event) == (match reply {
                    None => Some("failed to upload integrity receipt"@),
                    Some(_) => None,
                })
            }
        }),
        run.stage() == JobStage::Removing ==> run.stage_after(JobEvent::WorkspaceRemoved)
            == JobStage::Finished && run.move_on(JobEvent::WorkspaceRemoved) == (
        match run.failure() {
            Some(e) => Err::<JobMove, Seq<char>>(e),
            None => Ok::<JobMove, Seq<char>>(
                JobMove::Finish {
                    url: run.job().result_upload_url@,
                    receipt_stored: run.receipt_stored(),
                },
            ),
        }),
{
}

/// A job keeps its message and its key from its start to its end.
pub proof fn law_message_and_key_stay(run: JobRun, event: JobEvent, next: JobRun)
    requires
        run.goes_to(event, next),
    ensures
        next.job() == run.job(),
        next.key() == run.key(),
        next.stage() == run.stage_after(event),
        next.failure() == run.failure_after(event),
{
}

/// The payload that is kept is the one that was downloaded, opened under the job's
/// key; with it its hash. It is given up once it is unpacked.
pub proof fn law_the_opened_payload_is_kept(
    run: JobRun,
    outcome: DownloadOutcome,
    bytes: Seq<u8>,
    plain: Seq<u8>,
    event: JobEvent,
    next: JobRun,
)
    requires
        job::downloaded(outcome) == Ok::<Seq<u8>, Seq<char>>(bytes),
        job::opened(bytes, run.key()) == Ok::<Seq<u8>, Seq<char>>(plain),
    ensures
        run.stage() == JobStage::Download && run.goes_to(JobEvent::Downloaded { outcome }, next)
            ==> next.payload() == plain && next.input_hash() == primitives::hex_of(
            primitives::sha256_of(plain),
        ),
        run.awaits(event) && !(event is Downloaded) && run.goes_to(event, next)
            ==> next.input_hash() == run.input_hash() && next.payload() == (
        if event matches JobEvent::LuksSetUp { done: true } {
            Seq::<u8>::empty()
        } else {
            run.payload()
        }),
{
}

/// What is sealed is the result that was read, and with it a receipt of the job's
/// name, the hash of what went in and the hash of that result. Both open under the
/// job's key.
pub proof fn law_the_read_result_is_sealed(run: JobRun, blob: Vec<u8>, next: JobRun)
    requires
        run.stage() == JobStage::Read,
        job::seal_error(run.job_name(), run.input_hash(), blob@) is None,
        run.goes_to(JobEvent::ResultRead { blob: Some(blob) }, next),
    ensures
        payload::decrypted(next.sealed_result(), run.key()) == Ok::<Seq<u8>, PayloadError>(blob@),
        next.output_hash() == primitives::hex_of(primitives::sha256_of(blob@)),
        payload::decrypted(next.sealed_receipt(), run.key()) == Ok::<Seq<u8>, PayloadError>(
            messages::receipt_of(
                run.job_name(),
                run.input_hash(),
                primitives::hex_of(primitives::sha256_of(blob@)),
            ),
        ),
{
}

/// What was sealed stays as it is until it is uploaded, and so does the hash of the
/// result.
pub proof fn law_what_is_sealed_stays(run: JobRun, event: JobEvent, next: JobRun)
    requires
        run.awaits(event),
        run.goes_to(event, next),
        !(event is ResultRead),
    ensures
        next.output_hash() == run.output_hash(),
        next.sealed_result() == (if event is TornDown && run.stage() == JobStage::TearDown {
            Seq::<u8>::empty()
        } else {
            run.sealed_result()
        }),
        next.sealed_receipt() == (if event matches JobEvent::ResultUploaded {
            reply: Some(answer),
        } && answer.success {
            Seq::<u8>::empty()
        } else {
            run.sealed_receipt()
        }),
{
}

/// The receipt counts as stored just where the answer to its upload was a success.
pub proof fn law_receipts_are_stored_on_success(
    run: JobRun,
    reply: Option<HttpReply>,
    event: JobEvent,
    next: JobRun,
)
    ensures
        run.goes_to(JobEvent::ReceiptUploaded { reply }, next) ==> next.receipt_stored() == (
        match reply {
            Some(answer) => answer.success,
            None => run.receipt_stored(),
        }),
        !(event is ReceiptUploaded) && run.goes_to(event, next) ==> next.receipt_stored()
            == run.receipt_stored(),
{
}

/// What is kept fits the stage: until it is unpacked the payload has the hash that is
/// kept, between sealing and upload result and receipt open under the job's key to
/// what they should, and a job that is failing has an error to report.
pub proof fn law_what_is_kept_fits_the_stage(run: JobRun)
    requires
        run.wf(),
    ensures
        run.stage() == JobStage::Workspace || run.stage() == JobStage::Luks ==> run.input_hash()
            == primitives::hex_of(primitives::sha256_of(run.payload())),
        run.stage() == JobStage::TearDown ==> match payload::decrypted(
            run.sealed_result(),
            run.key(),
        ) {
            Ok(plain) => run.output_hash() == primitives::hex_of(primitives::sha256_of(plain)),
            Err(_) => false,
        },
        run.stage() == JobStage::TearDown || run.stage() == JobStage::Upload
            ==> payload::decrypted(run.sealed_receipt(), run.key()) == Ok::<
            Seq<u8>,
            PayloadError,
        >(messages::receipt_of(run.job_name(), run.input_hash(), run.output_hash())),
        run.stage() == JobStage::Failing ==> run.failure() is Some,
{
}

/// A job starts with nothing but its message and its key.
pub proof fn law_jobs_start_with_nothing(run: JobRun)
    requires
        run.at_start(),
    ensures
        run.stage() == JobStage::Download,
        run.failure() is None,
        !run.receipt_stored(),
        run.payload() == Seq::<u8>::empty(),
        run.input_hash() == Seq::<char>::empty(),
{
}

/// The LUKS container is mounted from its setup to its teardown, and the temporary
/// directory is there from its making to its removal.
pub proof fn law_stages_say_what_is_there(stage: JobStage)
    ensures
        JobRun::mounted(stage) == !(stage == JobStage::Download || stage == JobStage::Workspace
            || stage == JobStage::Luks || stage == JobStage::Upload || stage == JobStage::Receipt
            || stage == JobStage::Removing || stage == JobStage::Finished),
        JobRun::has_workspace(stage) == !(stage == JobStage::Download || stage
            == JobStage::Workspace || stage == JobStage::Finished),
{
}

/// An action shows what it holds, and is what was wanted only where it holds that;
/// an error only where it has the text that was wanted.
pub proof fn law_actions_show_what_they_hold(
    action: JobAction,
    error: JobError,
    wanted: JobMove,
    text: Seq<char>,
)
    ensures
        action@ == (match action {
            JobAction::MakeWorkspace => JobMove::MakeWorkspace,
            JobAction::SetUpLuks { container, mount_point, job_id, .. } => JobMove::SetUpLuks {
                container: container@,
                mount_point: mount_point@,
                job_id: job_id@,
            },
            JobAction::Unpack { workspace, archive, payload } => JobMove::Unpack {
                workspace: workspace@,
                archive: archive@,
                payload: payload@,
            },
            JobAction::CheckScript { workspace, script } => JobMove::CheckScript {
                workspace: workspace@,
                script: script@,
            },
            JobAction::RunContainer { workspace, job_type, config, job_id } =>
                JobMove::RunContainer {
                workspace: workspace@,
                job_type: job_type@,
                config: config@,
                job_id: job_id@,
            },
            JobAction::ZipOutput { output_dir, archive } => JobMove::ZipOutput {
                output_dir: output_dir@,
                archive: archive@,
            },
            JobAction::WritePlaceholder { output_dir, file, content, archive } =>
                JobMove::WritePlaceholder {
                output_dir: output_dir@,
                file: file@,
                content: content@,
                archive: archive@,
            },
            JobAction::ReadResult { archive } => JobMove::ReadResult { archive: archive@ },
            JobAction::TearDown { container, mount_point, job_id } => JobMove::TearDown {
                container: container@,
                mount_point: mount_point@,
                job_id: job_id@,
            },
            JobAction::UploadResult { url, body } => JobMove::UploadResult {
                url: url@,
                body: body@,
            },
            JobAction::UploadReceipt { url, body } => JobMove::UploadReceipt {
                url: url@,
                body: body@,
            },
            JobAction::RemoveWorkspace => JobMove::RemoveWorkspace,
            JobAction::Finish { url, receipt_stored } => JobMove::Finish {
                url: url@,
                receipt_stored,
            },
        }),
        job::carries_out(Ok(action), Ok::<JobMove, Seq<char>>(wanted)) == (action@ == wanted),
        job::carries_out(Err(error), Err::<JobMove, Seq<char>>(text)) == (error.text() == text),
        !job::carries_out(Ok(action), Err::<JobMove, Seq<char>>(text)),
        !job::carries_out(Err(error), Ok::<JobMove, Seq<char>>(wanted)),
        job::error_text(Some(error)) == Some(error.text()),
        job::error_text(None) is None,
{
}

/// Each error tells what failed.
pub proof fn law_job_errors_tell_what_failed(detail: String)
    ensures
        JobError::NotDownloaded.text() == "failed to download encrypted job payload"@,
        JobError::NotDecrypted.text() == "AES-256-GCM decryption failed"@,
        JobError::NotUnpadded.text() == "failed to remove padding"@,
        JobError::NoWorkspace.text() == "failed to create temp workspace"@,
        JobError::LuksFailed.text() == "LUKS container setup failed"@,
        (JobError::Io { reason: detail }).text() == detail@,
        JobError::PayloadNotWritten.text() == "failed to write decrypted zip to LUKS"@,
        JobError::ZipNotOpened.text() == "failed to open ZIP archive"@,
        JobError::ZipNotExtracted.text() == "failed to extract ZIP archive"@,
        (JobError::ScriptMissing { path: detail }).text()
            == "script file not found after extraction: "@ + detail@,
        JobError::DockerFailed.text() == "Docker execution failed"@,
        JobError::ResultNotZipped.text() == "failed to create result zip"@,
        JobError::PlaceholderNotZipped.text() == "failed to create fallback result zip"@,
        JobError::ResultUnread.text() == "failed to read result zip"@,
        JobError::ResultNotEncrypted.text() == "failed to encrypt result"@,
        JobError::ReceiptNotEncrypted.text() == "failed to encrypt receipt"@,
        JobError::ResultNotSent.text() == "failed to upload encrypted result"@,
        (JobError::UploadRefused { status: detail }).text() == "result upload failed: "@ + detail@,
        JobError::ReceiptNotSent.text() == "failed to upload integrity receipt"@,
        DownloadError::NotSent.text() == "HTTP GET failed"@,
        (DownloadError::Refused { status: detail }).text() == "download failed with status "@
            + detail@,
        DownloadError::BodyUnread.text() == "failed to read response body"@,
{
}

} // verus!
