//! A job from its message to its result: what the agent does at each step, what
//! it keeps, and what it gives up on.
//!
//! All paths are relative to the job's temporary directory. The LUKS container
//! is mounted at `mnt` in it.

use vstd::prelude::*;
use vstd::string::*;

use crate::docker;
use crate::docker::JobConfig;
use crate::docker::JobConfigModel;
use crate::luks;
use crate::messages;
use crate::payload;
use crate::payload::AEAD_KEY_SIZE;
use crate::primitives;
use crate::session::JobMsg;
use crate::text;

verus! {

// ---------------------------------------------------------------------------
// Errors

/// Why a job failed.
#[derive(Debug)]
pub enum JobError {
    NotDownloaded,
    NotDecrypted,
    NotUnpadded,
    NoWorkspace,
    LuksFailed,
    Io { reason: String },
    PayloadNotWritten,
    ZipNotOpened,
    ZipNotExtracted,
    ScriptMissing { path: String },
    DockerFailed,
    ResultNotZipped,
    PlaceholderNotZipped,
    ResultUnread,
    ResultNotEncrypted,
    ReceiptNotEncrypted,
    ResultNotSent,
    UploadRefused { status: String },
    ReceiptNotSent,
}

impl JobError {
    /// The text of the error.
    pub open spec fn text(self) -> Seq<char> {
        match self {
            JobError::NotDownloaded => "failed to download encrypted job payload"@,
            JobError::NotDecrypted => "AES-256-GCM decryption failed"@,
            JobError::NotUnpadded => "failed to remove padding"@,
            JobError::NoWorkspace => "failed to create temp workspace"@,
            JobError::LuksFailed => "LUKS container setup failed"@,
            JobError::Io { reason } => reason@,
            JobError::PayloadNotWritten => "failed to write decrypted zip to LUKS"@,
            JobError::ZipNotOpened => "failed to open ZIP archive"@,
            JobError::ZipNotExtracted => "failed to extract ZIP archive"@,
            JobError::ScriptMissing { path } => "script file not found after extraction: "@ + path@,
            JobError::DockerFailed => "Docker execution failed"@,
            JobError::ResultNotZipped => "failed to create result zip"@,
            JobError::PlaceholderNotZipped => "failed to create fallback result zip"@,
            JobError::ResultUnread => "failed to read result zip"@,
            JobError::ResultNotEncrypted => "failed to encrypt result"@,
            JobError::ReceiptNotEncrypted => "failed to encrypt receipt"@,
            JobError::ResultNotSent => "failed to upload encrypted result"@,
            JobError::UploadRefused { status } => "result upload failed: "@ + status@,
            JobError::ReceiptNotSent => "failed to upload integrity receipt"@,
        }
    }

    /// The text of the error.
    pub fn message(&self) -> (r: String)
        ensures
            r@ == self.text(),
    {
        match self {
            JobError::NotDownloaded => "failed to download encrypted job payload".to_owned(),
            JobError::NotDecrypted => "AES-256-GCM decryption failed".to_owned(),
            JobError::NotUnpadded => "failed to remove padding".to_owned(),
            JobError::NoWorkspace => "failed to create temp workspace".to_owned(),
            JobError::LuksFailed => "LUKS container setup failed".to_owned(),
            JobError::Io { reason } => reason.clone(),
            JobError::PayloadNotWritten => "failed to write decrypted zip to LUKS".to_owned(),
            JobError::ZipNotOpened => "failed to open ZIP archive".to_owned(),
            JobError::ZipNotExtracted => "failed to extract ZIP archive".to_owned(),
            JobError::ScriptMissing { path } => text::cat2(
                "script file not found after extraction: ",
                path.as_str(),
            ),
            JobError::DockerFailed => "Docker execution failed".to_owned(),
            JobError::ResultNotZipped => "failed to create result zip".to_owned(),
            JobError::PlaceholderNotZipped => "failed to create fallback result zip".to_owned(),
            JobError::ResultUnread => "failed to read result zip".to_owned(),
            JobError::ResultNotEncrypted => "failed to encrypt result".to_owned(),
            JobError::ReceiptNotEncrypted => "failed to encrypt receipt".to_owned(),
            JobError::ResultNotSent => "failed to upload encrypted result".to_owned(),
            JobError::UploadRefused { status } => text::cat2(
                "result upload failed: ",
                status.as_str(),
            ),
            JobError::ReceiptNotSent => "failed to upload integrity receipt".to_owned(),
        }
    }
}

// ---------------------------------------------------------------------------
// Downloading the payload

/// How a server answered.
#[derive(Debug)]
pub struct HttpReply {
    pub success: bool,
    pub status: String,
}

/// How a download went.
#[derive(Debug)]
pub enum DownloadOutcome {
    /// The server could not be asked.
    NotSent,
    /// The server answered; the body is there if it could be read.
    Answered { reply: HttpReply, body: Option<Vec<u8>> },
}

/// Why a download gave nothing.
#[derive(Debug)]
pub enum DownloadError {
    NotSent,
    Refused { status: String },
    BodyUnread,
}

impl DownloadError {
    /// The text of the error.
    pub open spec fn text(self) -> Seq<char> {
        match self {
            DownloadError::NotSent => "HTTP GET failed"@,
            DownloadError::Refused { status } => "download failed with status "@ + status@,
            DownloadError::BodyUnread => "failed to read response body"@,
        }
    }

    /// The text of the error.
    pub fn message(&self) -> (r: String)
        ensures
            r@ == self.text(),
    {
        match self {
            DownloadError::NotSent => "HTTP GET failed".to_owned(),
            DownloadError::Refused { status } => text::cat2(
                "download failed with status ",
                status.as_str(),
            ),
            DownloadError::BodyUnread => "failed to read response body".to_owned(),
        }
    }
}

/// What a download gives: the body of an answer with success, or the text of the
/// error.
pub open spec fn downloaded(outcome: DownloadOutcome) -> Result<Seq<u8>, Seq<char>> {
    match outcome {
        DownloadOutcome::NotSent => Err("HTTP GET failed"@),
        DownloadOutcome::Answered { reply, body } => if !reply.success {
            Err("download failed with status "@ + reply.status@)
        } else {
            match body {
                Some(bytes) => Ok(bytes@),
                None => Err("failed to read response body"@),
            }
        },
    }
}

/// Settles what a download gives.
pub fn download_bytes(outcome: DownloadOutcome) -> (r: Result<Vec<u8>, DownloadError>)
    ensures
        r is Ok == downloaded(outcome) is Ok,
        r is Ok ==> r->Ok_0@ == downloaded(outcome)->Ok_0,
        r is Err ==> r->Err_0.text() == downloaded(outcome)->Err_0,
{
    match outcome {
        DownloadOutcome::NotSent => Err(DownloadError::NotSent),
        DownloadOutcome::Answered { reply, body } => {
            if !reply.success {
                return Err(DownloadError::Refused { status: reply.status });
            }
            match body {
                Some(bytes) => Ok(bytes),
                None => Err(DownloadError::BodyUnread),
            }
        },
    }
}

// ---------------------------------------------------------------------------
// Opening the payload, sealing the result

/// What a downloaded payload holds: it is opened, then its padding is taken off.
pub open spec fn opened(encrypted: Seq<u8>, key: Seq<u8>) -> Result<Seq<u8>, Seq<char>> {
    match payload::decrypted(encrypted, key) {
        Ok(padded) => match payload::unpadded(padded) {
            Ok(plain) => Ok(plain),
            Err(_) => Err("failed to remove padding"@),
        },
        Err(_) => Err("AES-256-GCM decryption failed"@),
    }
}

/// Opens a downloaded payload and takes its padding off.
pub fn open_job(encrypted: &[u8], key: &[u8; AEAD_KEY_SIZE]) -> (r: Result<Vec<u8>, JobError>)
    ensures
        r is Ok == opened(encrypted@, key@) is Ok,
        r is Ok ==> r->Ok_0@ == opened(encrypted@, key@)->Ok_0,
        r is Err ==> r->Err_0.text() == opened(encrypted@, key@)->Err_0,
{
    match payload::decrypt_payload(encrypted, key) {
        Ok(padded) => match payload::unpad_payload(padded.as_slice()) {
            Ok(plain) => Ok(plain),
            Err(_) => Err(JobError::NotUnpadded),
        },
        Err(_) => Err(JobError::NotDecrypted),
    }
}

/// Whatever a client seals, padded, under the job's key opens to what it padded.
pub proof fn law_opening_undoes_sealing(
    original: Seq<u8>,
    filler: Seq<u8>,
    encrypted: Seq<u8>,
    key: Seq<u8>,
)
    requires
        original.len() + filler.len() + payload::PADDING_TRAILER_SIZE <= usize::MAX,
        payload::decrypted(encrypted, key) == Ok::<Seq<u8>, payload::PayloadError>(
            original + filler + payload::be_bytes(
                original.len(),
                payload::PADDING_TRAILER_SIZE as nat,
            ),
        ),
    ensures
        opened(encrypted, key) == Ok::<Seq<u8>, Seq<char>>(original),
{
    payload::law_unpad_undoes_padding(original, filler);
}

/// A sealed result with its sealed receipt.
#[derive(Debug)]
pub struct SealedResult {
    pub result: Vec<u8>,
    pub receipt: Vec<u8>,
    pub output_hash: String,
}

/// The error that stops a result from being sealed, if one does: it, or its
/// receipt, is too long.
pub open spec fn seal_error(
    job_id: Seq<char>,
    input_hash: Seq<char>,
    blob: Seq<u8>,
) -> Option<Seq<char>> {
    if blob.len() > primitives::GCM_MAX_PLAINTEXT {
        Some("failed to encrypt result"@)
    } else if messages::receipt_of(job_id, input_hash, payload::integrity_hash(blob)).len()
        > primitives::GCM_MAX_PLAINTEXT {
        Some("failed to encrypt receipt"@)
    } else {
        None
    }
}

/// Seals a result, and a receipt that binds the hash of what went into the job
/// and the hash of what came out.
pub fn seal_result(job_id: &str, input_hash: &str, blob: &[u8], key: &[u8; AEAD_KEY_SIZE]) -> (r:
    Result<SealedResult, JobError>)
    ensures
        r is Ok == seal_error(job_id@, input_hash@, blob@) is None,
        r is Err ==> r->Err_0.text() == seal_error(job_id@, input_hash@, blob@)->0,
        r is Ok ==> r->Ok_0.output_hash@ == payload::integrity_hash(blob@),
        r is Ok ==> payload::decrypted(r->Ok_0.result@, key@) == Ok::<
            Seq<u8>,
            payload::PayloadError,
        >(blob@),
        r is Ok ==> r->Ok_0.result@ == payload::sealed(
            blob@,
            key@,
            r->Ok_0.result@.take(payload::NONCE_SIZE as int),
        ),
        r is Ok ==> payload::decrypted(r->Ok_0.receipt@, key@) == Ok::<
            Seq<u8>,
            payload::PayloadError,
        >(messages::receipt_of(job_id@, input_hash@, payload::integrity_hash(blob@))),
{
    let output_hash: String = payload::hash_sha256(blob);
    let receipt: Vec<u8> = messages::integrity_receipt(job_id, input_hash, output_hash.as_str());
    match payload::encrypt_payload(blob, key) {
        Ok(sealed) => match payload::encrypt_payload(receipt.as_slice(), key) {
            Ok(sealed_receipt) => Ok(
                SealedResult { result: sealed, receipt: sealed_receipt, output_hash },
            ),
            Err(_) => Err(JobError::ReceiptNotEncrypted),
        },
        Err(_) => Err(JobError::ResultNotEncrypted),
    }
}

// ---------------------------------------------------------------------------
// Steps

/// What the agent waits for.
#[derive(Debug, Clone, Copy, PartialEq, Eq, Structural)]
pub enum JobStage {
    Download,
    Workspace,
    Luks,
    Unpack,
    Script,
    Container,
    Zip,
    Placeholder,
    Read,
    TearDown,
    /// The LUKS container to be torn down; the job has failed.
    Failing,
    Upload,
    Receipt,
    /// The temporary directory to be removed; the job is over.
    Removing,
    Finished,
}

/// How unpacking went.
#[derive(Debug)]
pub enum UnpackOutcome {
    Done,
    IoFailed { reason: String },
    NotWritten,
    NotOpened,
    NotExtracted,
}

/// How the placeholder went.
#[derive(Debug)]
pub enum PlaceholderOutcome {
    Done,
    IoFailed { reason: String },
    NotRun,
}

/// What happened. `None` stands for what could not be had or done.
#[derive(Debug)]
pub enum JobEvent {
    Downloaded { outcome: DownloadOutcome },
    WorkspaceMade { made: bool },
    LuksSetUp { done: bool },
    Unpacked { outcome: UnpackOutcome },
    ScriptChecked { found: bool, path: String },
    ContainerEnded { success: bool },
    Zipped { success: Option<bool> },
    PlaceholderZipped { outcome: PlaceholderOutcome },
    ResultRead { blob: Option<Vec<u8>> },
    TornDown,
    ResultUploaded { reply: Option<HttpReply> },
    ReceiptUploaded { reply: Option<HttpReply> },
    WorkspaceRemoved,
}

/// What the agent does next.
#[derive(Debug)]
pub enum JobAction {
    /// Make the temporary directory.
    MakeWorkspace,
    /// Set up and mount the LUKS container with this passphrase.
    SetUpLuks { container: String, mount_point: String, job_id: String, passphrase: String },
    /// Make the workspace, write the payload to the archive and extract it.
    Unpack { workspace: String, archive: String, payload: Vec<u8> },
    /// Look for the script in the workspace.
    CheckScript { workspace: String, script: String },
    /// Run the job in a container.
    RunContainer { workspace: String, job_type: String, config: JobConfig, job_id: String },
    /// Pack all that is in the output directory.
    ZipOutput { output_dir: String, archive: String },
    /// Write a placeholder in the output directory, and pack that.
    WritePlaceholder { output_dir: String, file: String, content: String, archive: String },
    /// Read the packed result.
    ReadResult { archive: String },
    /// Tear the LUKS container down: the one that was set up with these names.
    TearDown { container: String, mount_point: String, job_id: String },
    /// Upload the sealed result.
    UploadResult { url: String, body: Vec<u8> },
    /// Upload the sealed receipt.
    UploadReceipt { url: String, body: Vec<u8> },
    /// Remove the temporary directory, as far as it can be.
    RemoveWorkspace,
    /// The job is done; its result is at this address.
    Finish { url: String, receipt_stored: bool },
}

/// The contents of a `JobAction`, but for the passphrase.
pub enum JobMove {
    MakeWorkspace,
    SetUpLuks { container: Seq<char>, mount_point: Seq<char>, job_id: Seq<char> },
    Unpack { workspace: Seq<char>, archive: Seq<char>, payload: Seq<u8> },
    CheckScript { workspace: Seq<char>, script: Seq<char> },
    RunContainer {
        workspace: Seq<char>,
        job_type: Seq<char>,
        config: JobConfigModel,
        job_id: Seq<char>,
    },
    ZipOutput { output_dir: Seq<char>, archive: Seq<char> },
    WritePlaceholder {
        output_dir: Seq<char>,
        file: Seq<char>,
        content: Seq<char>,
        archive: Seq<char>,
    },
    ReadResult { archive: Seq<char> },
    TearDown { container: Seq<char>, mount_point: Seq<char>, job_id: Seq<char> },
    UploadResult { url: Seq<char>, body: Seq<u8> },
    UploadReceipt { url: Seq<char>, body: Seq<u8> },
    RemoveWorkspace,
    Finish { url: Seq<char>, receipt_stored: bool },
}

impl View for JobAction {
    type V = JobMove;

    open spec fn view(&self) -> JobMove {
        match self {
            JobAction::MakeWorkspace => JobMove::MakeWorkspace,
            JobAction::SetUpLuks { container, mount_point, job_id, .. } => JobMove::SetUpLuks {
                container: container@,
                mount_point: mount_point@,
                job_id: job_id@,
            },
            JobAction::Unpack { workspace, archive, payload } => JobMove::Unpack {
                workspace: workspace@,
                archive: archive@,
                payload: payload@,
            },
            JobAction::CheckScript { workspace, script } => JobMove::CheckScript {
                workspace: workspace@,
                script: script@,
            },
            JobAction::RunContainer { workspace, job_type, config, job_id } =>
                JobMove::RunContainer {
                workspace: workspace@,
                job_type: job_type@,
                config: config@,
                job_id: job_id@,
            },
            JobAction::ZipOutput { output_dir, archive } => JobMove::ZipOutput {
                output_dir: output_dir@,
                archive: archive@,
            },
            JobAction::WritePlaceholder { output_dir, file, content, archive } =>
                JobMove::WritePlaceholder {
                output_dir: output_dir@,
                file: file@,
                content: content@,
                archive: archive@,
            },
            JobAction::ReadResult { archive } => JobMove::ReadResult { archive: archive@ },
            JobAction::TearDown { container, mount_point, job_id } => JobMove::TearDown {
                container: container@,
                mount_point: mount_point@,
                job_id: job_id@,
            },
            JobAction::UploadResult { url, body } => JobMove::UploadResult {
                url: url@,
                body: body@,
            },
            JobAction::UploadReceipt { url, body } => JobMove::UploadReceipt {
                url: url@,
                body: body@,
            },
            JobAction::RemoveWorkspace => JobMove::RemoveWorkspace,
            JobAction::Finish { url, receipt_stored } => JobMove::Finish {
                url: url@,
                receipt_stored: *receipt_stored,
            },
        }
    }
}

/// A job under way.
#[derive(Debug)]
pub struct JobRun {
    stage: JobStage,
    job: JobMsg,
    key: [u8; AEAD_KEY_SIZE],
    payload: Vec<u8>,
    input_hash: String,
    sealed: SealedResult,
    failure: Option<JobError>,
    receipt_stored: bool,
}

/// The result holds the action that `wanted` describes, or an error with its
/// text.
pub open spec fn carries_out(
    r: Result<JobAction, JobError>,
    wanted: Result<JobMove, Seq<char>>,
) -> bool {
    match r {
        Ok(action) => wanted == Ok::<JobMove, Seq<char>>(action@),
        Err(e) => wanted == Err::<JobMove, Seq<char>>(e.text()),
    }
}

/// What a message asks of the container: a script and an image, if it names them.
pub open spec fn config_of(job: JobMsg) -> JobConfigModel {
    JobConfigModel {
        script: text::opt_text(job.script),
        image: text::opt_text(job.image),
        blend_file: None,
        source: None,
        output: None,
        command: None,
    }
}

/// What a message asks of the container.
pub fn job_config(job: &JobMsg) -> (r: JobConfig)
    ensures
        r@ == config_of(*job),
{
    JobConfig {
        script: text::copy_option(&job.script),
        image: text::copy_option(&job.image),
        blend_file: None,
        source: None,
        output: None,
        command: None,
    }
}

/// The text of an error, if there is one.
pub open spec fn error_text(failure: Option<JobError>) -> Option<Seq<char>> {
    match failure {
        Some(e) => Some(e.text()),
        None => None,
    }
}

impl JobRun {
    /// What the agent waits for.
    pub closed spec fn stage(self) -> JobStage {
        self.stage
    }

    /// The message of the job.
    pub closed spec fn job(self) -> JobMsg {
        self.job
    }

    /// The key of the job.
    pub closed spec fn key(self) -> Seq<u8> {
        self.key@
    }

    /// The payload, from its opening until it is unpacked.
    pub closed spec fn payload(self) -> Seq<u8> {
        self.payload@
    }

    /// The hash of the payload.
    pub closed spec fn input_hash(self) -> Seq<char> {
        self.input_hash@
    }

    /// The sealed result, until it is uploaded.
    pub closed spec fn sealed_result(self) -> Seq<u8> {
        self.sealed.result@
    }

    /// The sealed receipt, until it is uploaded.
    pub closed spec fn sealed_receipt(self) -> Seq<u8> {
        self.sealed.receipt@
    }

    /// The hash of the result.
    pub closed spec fn output_hash(self) -> Seq<char> {
        self.sealed.output_hash@
    }

    /// The text of the error that is reported once the machine is cleaned up.
    pub closed spec fn failure(self) -> Option<Seq<char>> {
        error_text(self.failure)
    }

    /// The receipt was stored.
    pub closed spec fn receipt_stored(self) -> bool {
        self.receipt_stored
    }

    /// The temporary directory is there: it must be removed before the job ends.
    pub open spec fn has_workspace(stage: JobStage) -> bool {
        match stage {
            JobStage::Download => false,
            JobStage::Workspace => false,
            JobStage::Finished => false,
            _ => true,
        }
    }

    /// The LUKS container is mounted: it must be torn down before the job ends.
    pub open spec fn mounted(stage: JobStage) -> bool {
        match stage {
            JobStage::Unpack => true,
            JobStage::Script => true,
            JobStage::Container => true,
            JobStage::Zip => true,
            JobStage::Placeholder => true,
            JobStage::Read => true,
            JobStage::TearDown => true,
            JobStage::Failing => true,
            _ => false,
        }
    }

    /// The teardown of the container that the job sets up.
    pub open spec fn tear_down(self) -> JobMove {
        JobMove::TearDown {
            container: "workspace.luks"@,
            mount_point: "mnt"@,
            job_id: self.job_name(),
        }
    }

    /// The name of the job.
    pub open spec fn job_name(self) -> Seq<char> {
        text::or_text(self.job().job_id, "unknown"@)
    }

    /// The script that must be there before the container is started.
    pub open spec fn script_name(self) -> Seq<char> {
        text::or_text(self.job().script, "main.py"@)
    }

    /// The sealed result opens under the job's key to something with the hash
    /// that is kept.
    pub open spec fn holds_result(self) -> bool {
        &&& payload::decrypted(self.sealed_result(), self.key()) is Ok
        &&& payload::integrity_hash(payload::decrypted(self.sealed_result(), self.key())->Ok_0)
            == self.output_hash()
    }

    /// The sealed receipt opens under the job's key to the receipt with the two
    /// hashes that are kept.
    pub open spec fn holds_receipt(self) -> bool {
        payload::decrypted(self.sealed_receipt(), self.key()) == Ok::<
            Seq<u8>,
            payload::PayloadError,
        >(messages::receipt_of(self.job_name(), self.input_hash(), self.output_hash()))
    }

    /// What the agent keeps is what the stage needs.
    #[verifier::type_invariant]
    pub open spec fn wf(self) -> bool {
        &&& self.stage() == JobStage::Workspace || self.stage() == JobStage::Luks
            ==> self.input_hash() == payload::integrity_hash(self.payload())
        &&& self.stage() == JobStage::TearDown ==> self.holds_result() && self.holds_receipt()
        &&& self.stage() == JobStage::Upload ==> self.holds_receipt()
        &&& self.stage() == JobStage::Failing ==> self.failure() is Some
    }

    /// The event is one that the agent waits for.
    pub open spec fn awaits(self, event: JobEvent) -> bool {
        match self.stage() {
            JobStage::Download => event is Downloaded,
            JobStage::Workspace => event is WorkspaceMade,
            JobStage::Luks => event is LuksSetUp,
            JobStage::Unpack => event is Unpacked,
            JobStage::Script => event is ScriptChecked,
            JobStage::Container => event is ContainerEnded,
            JobStage::Zip => event is Zipped,
            JobStage::Placeholder => event is PlaceholderZipped,
            JobStage::Read => event is ResultRead,
            JobStage::TearDown => event is TornDown,
            JobStage::Failing => event is TornDown,
            JobStage::Upload => event is ResultUploaded,
            JobStage::Receipt => event is ReceiptUploaded,
            JobStage::Removing => event is WorkspaceRemoved,
            JobStage::Finished => false,
        }
    }

    /// What the event leads to: the next thing to do for the job, or an error.
    pub open spec fn leads_to(self, event: JobEvent) -> Result<JobMove, Seq<char>> {
        match event {
            JobEvent::Downloaded { outcome } => match downloaded(outcome) {
                Err(_) => Err("failed to download encrypted job payload"@),
                Ok(bytes) => match opened(bytes, self.key()) {
                    Ok(_) => Ok(JobMove::MakeWorkspace),
                    Err(e) => Err(e),
                },
            },
            JobEvent::WorkspaceMade { made } => if made {
                Ok(
                    JobMove::SetUpLuks {
                        container: "workspace.luks"@,
                        mount_point: "mnt"@,
                        job_id: self.job_name(),
                    },
                )
            } else {
                Err("failed to create temp workspace"@)
            },
            JobEvent::LuksSetUp { done } => if done {
                Ok(
                    JobMove::Unpack {
                        workspace: "mnt/job"@,
                        archive: "mnt/payload.zip"@,
                        payload: self.payload(),
                    },
                )
            } else {
                Err("LUKS container setup failed"@)
            },
            JobEvent::Unpacked { outcome } => match outcome {
                UnpackOutcome::Done => Ok(
                    JobMove::CheckScript { workspace: "mnt/job"@, script: self.script_name() },
                ),
                UnpackOutcome::IoFailed { reason } => Err(reason@),
                UnpackOutcome::NotWritten => Err("failed to write decrypted zip to LUKS"@),
                UnpackOutcome::NotOpened => Err("failed to open ZIP archive"@),
                UnpackOutcome::NotExtracted => Err("failed to extract ZIP archive"@),
            },
            JobEvent::ScriptChecked { found, path } => if found {
                Ok(
                    JobMove::RunContainer {
                        workspace: "mnt/job"@,
                        job_type: text::or_text(self.job().job_type, "python"@),
                        config: config_of(self.job()),
                        job_id: self.job_name(),
                    },
                )
            } else {
                Err("script file not found after extraction: "@ + path@)
            },
            JobEvent::ContainerEnded { success } => if success {
                Ok(
                    JobMove::ZipOutput {
                        output_dir: "mnt/job/output"@,
                        archive: "mnt/result.zip"@,
                    },
                )
            } else {
                Err("Docker execution failed"@)
            },
            JobEvent::Zipped { success } => match success {
                None => Err("failed to create result zip"@),
                Some(true) => Ok(JobMove::ReadResult { archive: "mnt/result.zip"@ }),
                Some(false) => Ok(
                    JobMove::WritePlaceholder {
                        output_dir: "mnt/job/output"@,
                        file: "result.txt"@,
                        content: "Tenxo job completed successfully"@,
                        archive: "mnt/result.zip"@,
                    },
                ),
            },
            JobEvent::PlaceholderZipped { outcome } => match outcome {
                PlaceholderOutcome::Done => Ok(
                    JobMove::ReadResult { archive: "mnt/result.zip"@ },
                ),
                PlaceholderOutcome::IoFailed { reason } => Err(reason@),
                PlaceholderOutcome::NotRun => Err("failed to create fallback result zip"@),
            },
            JobEvent::ResultRead { blob } => match blob {
                None => Err("failed to read result zip"@),
                Some(bytes) => match seal_error(self.job_name(), self.input_hash(), bytes@) {
                    Some(e) => Err(e),
                    None => Ok(self.tear_down()),
                },
            },
            JobEvent::TornDown => if self.stage() == JobStage::Failing {
                Ok(JobMove::RemoveWorkspace)
            } else {
                Ok(
                    JobMove::UploadResult {
                        url: self.job().result_upload_url@,
                        body: self.sealed_result(),
                    },
                )
            },
            JobEvent::ResultUploaded { reply } => match reply {
                None => Err("failed to upload encrypted result"@),
                Some(answer) => if answer.success {
                    Ok(
                        JobMove::UploadReceipt {
                            url: self.job().result_upload_url@ + ".receipt"@,
                            body: self.sealed_receipt(),
                        },
                    )
                } else {
                    Err("result upload failed: "@ + answer.status@)
                },
            },
            JobEvent::ReceiptUploaded { reply } => match reply {
                None => Err("failed to upload integrity receipt"@),
                Some(_) => Ok(JobMove::RemoveWorkspace),
            },
            JobEvent::WorkspaceRemoved => match self.failure() {
                Some(error) => Err(error),
                None => Ok(
                    JobMove::Finish {
                        url: self.job().result_upload_url@,
                        receipt_stored: self.receipt_stored(),
                    },
                ),
            },
        }
    }

    /// The event is an error, and there is something to clean up before it is
    /// reported.
    pub open spec fn fails_untidy(self, event: JobEvent) -> bool {
        self.leads_to(event) is Err && Self::has_workspace(self.stage())
            && !(event is WorkspaceRemoved)
    }

    /// What the agent does when the event happens: what it leads to, but after an
    /// error the LUKS container is torn down first, if it is mounted, and the
    /// temporary directory removed, if it is there.
    pub open spec fn move_on(self, event: JobEvent) -> Result<JobMove, Seq<char>> {
        if !self.fails_untidy(event) {
            self.leads_to(event)
        } else if Self::mounted(self.stage()) {
            Ok(self.tear_down())
        } else {
            Ok(JobMove::RemoveWorkspace)
        }
    }

    /// The stage after an event.
    pub open spec fn stage_after(self, event: JobEvent) -> JobStage {
        if self.fails_untidy(event) && Self::mounted(self.stage()) {
            JobStage::Failing
        } else {
            Self::stage_for(self.move_on(event))
        }
    }

    /// The error that is reported in the end, after an event.
    pub open spec fn failure_after(self, event: JobEvent) -> Option<Seq<char>> {
        if self.fails_untidy(event) {
            Some(self.leads_to(event)->Err_0)
        } else if event is ReceiptUploaded || event is WorkspaceRemoved {
            None
        } else {
            self.failure()
        }
    }

    /// The stage that a move opens.
    pub open spec fn stage_for(done: Result<JobMove, Seq<char>>) -> JobStage {
        match done {
            Err(_) => JobStage::Finished,
            Ok(JobMove::MakeWorkspace) => JobStage::Workspace,
            Ok(JobMove::SetUpLuks { .. }) => JobStage::Luks,
            Ok(JobMove::Unpack { .. }) => JobStage::Unpack,
            Ok(JobMove::CheckScript { .. }) => JobStage::Script,
            Ok(JobMove::RunContainer { .. }) => JobStage::Container,
            Ok(JobMove::ZipOutput { .. }) => JobStage::Zip,
            Ok(JobMove::WritePlaceholder { .. }) => JobStage::Placeholder,
            Ok(JobMove::ReadResult { .. }) => JobStage::Read,
            Ok(JobMove::TearDown { .. }) => JobStage::TearDown,
            Ok(JobMove::UploadResult { .. }) => JobStage::Upload,
            Ok(JobMove::UploadReceipt { .. }) => JobStage::Receipt,
            Ok(JobMove::RemoveWorkspace) => JobStage::Removing,
            Ok(JobMove::Finish { .. }) => JobStage::Finished,
        }
    }

    /// The payload that a download brought, opened.
    pub open spec fn plain_payload(self, event: JobEvent) -> Seq<u8> {
        opened(downloaded(event->Downloaded_outcome)->Ok_0, self.key())->Ok_0
    }

    /// The job as it is after an event: what the agent keeps of it then. The nonces
    /// of the sealed result and receipt are free.
    pub open spec fn goes_to(self, event: JobEvent, next: JobRun) -> bool {
        let opens = next.stage() == JobStage::Workspace;
        let seals = next.stage() == JobStage::TearDown;
        &&& self.wf() && next.wf()
        &&& next.stage() == self.stage_after(event)
        &&& next.job() == self.job()
        &&& next.key() == self.key()
        &&& next.failure() == self.failure_after(event)
        &&& next.receipt_stored() == (match event {
            JobEvent::ReceiptUploaded { reply: Some(answer) } => answer.success,
            _ => self.receipt_stored(),
        })
        &&& next.payload() == (if opens {
            self.plain_payload(event)
        } else if next.stage() == JobStage::Unpack {
            seq![]
        } else {
            self.payload()
        })
        &&& next.input_hash() == (if opens {
            payload::integrity_hash(self.plain_payload(event))
        } else {
            self.input_hash()
        })
        &&& next.output_hash() == (if seals {
            payload::integrity_hash(event->blob->0@)
        } else {
            self.output_hash()
        })
        &&& seals ==> payload::decrypted(next.sealed_result(), next.key()) == Ok::<
            Seq<u8>,
            payload::PayloadError,
        >(event->blob->0@)
        &&& !seals ==> next.sealed_result() == (if next.stage() == JobStage::Upload {
            seq![]
        } else {
            self.sealed_result()
        })
        &&& !seals ==> next.sealed_receipt() == (if next.stage() == JobStage::Receipt {
            seq![]
        } else {
            self.sealed_receipt()
        })
    }

    /// The job is at its start: its payload is to be downloaded.
    pub open spec fn at_start(self) -> bool {
        &&& self.wf()
        &&& self.stage() == JobStage::Download
        &&& self.failure() is None
        &&& !self.receipt_stored()
        &&& self.payload() == Seq::<u8>::empty()
        &&& self.input_hash() == Seq::<char>::empty()
    }

    /// A job whose payload is to be downloaded first.
    pub fn new(job: JobMsg, key: [u8; AEAD_KEY_SIZE]) -> (r: Self)
        ensures
            r.at_start(),
            r.job() == job,
            r.key() == key@,
    {
        JobRun {
            stage: JobStage::Download,
            job,
            key,
            payload: Vec::new(),
            input_hash: String::new(),
            sealed: SealedResult {
                result: Vec::new(),
                receipt: Vec::new(),
                output_hash: String::new(),
            },
            failure: None,
            receipt_stored: false,
        }
    }

    /// Whether the LUKS container is mounted, and must be torn down before the
    /// job ends.
    pub fn must_tear_down(&self) -> (r: bool)
        ensures
            r == Self::mounted(self.stage()),
    {
        match self.stage {
            JobStage::Unpack => true,
            JobStage::Script => true,
            JobStage::Container => true,
            JobStage::Zip => true,
            JobStage::Placeholder => true,
            JobStage::Read => true,
            JobStage::TearDown => true,
            JobStage::Failing => true,
            _ => false,
        }
    }

    /// Whether the event is one that the agent waits for.
    pub fn expects(&self, event: &JobEvent) -> (r: bool)
        ensures
            r == self.awaits(*event),
    {
        match (self.stage, event) {
            (JobStage::Download, JobEvent::Downloaded { .. }) => true,
            (JobStage::Workspace, JobEvent::WorkspaceMade { .. }) => true,
            (JobStage::Luks, JobEvent::LuksSetUp { .. }) => true,
            (JobStage::Unpack, JobEvent::Unpacked { .. }) => true,
            (JobStage::Script, JobEvent::ScriptChecked { .. }) => true,
            (JobStage::Container, JobEvent::ContainerEnded { .. }) => true,
            (JobStage::Zip, JobEvent::Zipped { .. }) => true,
            (JobStage::Placeholder, JobEvent::PlaceholderZipped { .. }) => true,
            (JobStage::Read, JobEvent::ResultRead { .. }) => true,
            (JobStage::TearDown, JobEvent::TornDown) => true,
            (JobStage::Failing, JobEvent::TornDown) => true,
            (JobStage::Upload, JobEvent::ResultUploaded { .. }) => true,
            (JobStage::Receipt, JobEvent::ReceiptUploaded { .. }) => true,
            (JobStage::Removing, JobEvent::WorkspaceRemoved) => true,
            _ => false,
        }
    }

    /// Takes an event, and says what to do next. An error comes out only after the
    /// LUKS container, where it was set up, was torn down, and the temporary
    /// directory, where it was made, removed.
    pub fn step(&mut self, event: JobEvent) -> (r: Result<JobAction, JobError>)
        requires
            old(self).awaits(event),
        ensures
            carries_out(r, old(self).move_on(event)),
            old(self).goes_to(event, *final(self)),
            r matches Ok(JobAction::SetUpLuks { passphrase, .. }) ==> exists|bytes: Seq<u8>|
                bytes.len() == 32 && passphrase@ == #[trigger] primitives::hex_of(bytes),
    {
        proof {
            use_type_invariant(&*self);
        }
        let mounted: bool = self.must_tear_down();
        let untidy: bool = match self.stage {
            JobStage::Download => false,
            JobStage::Workspace => false,
            JobStage::Finished => false,
            _ => true,
        };
        let r: Result<JobAction, JobError> = match event {
            JobEvent::Downloaded { outcome } => match download_bytes(outcome) {
                Err(_) => Err(JobError::NotDownloaded),
                Ok(bytes) => match open_job(bytes.as_slice(), &self.key) {
                    Ok(plain) => {
                        self.input_hash = payload::hash_sha256(plain.as_slice());
                        self.payload = plain;
                        self.stage = JobStage::Workspace;
                        Ok(JobAction::MakeWorkspace)
                    },
                    Err(e) => Err(e),
                },
            },
            JobEvent::WorkspaceMade { made } => if made {
                self.stage = JobStage::Luks;
                Ok(
                    JobAction::SetUpLuks {
                        container: "workspace.luks".to_owned(),
                        mount_point: "mnt".to_owned(),
                        job_id: text::text_or(&self.job.job_id, "unknown"),
                        passphrase: luks::create_luks_passphrase(),
                    },
                )
            } else {
                Err(JobError::NoWorkspace)
            },
            JobEvent::LuksSetUp { done } => if done {
                let mut plain: Vec<u8> = Vec::new();
                self.stage = JobStage::Unpack;
                core::mem::swap(&mut plain, &mut self.payload);
                Ok(
                    JobAction::Unpack {
                        workspace: "mnt/job".to_owned(),
                        archive: "mnt/payload.zip".to_owned(),
                        payload: plain,
                    },
                )
            } else {
                Err(JobError::LuksFailed)
            },
            JobEvent::Unpacked { outcome } => match outcome {
                UnpackOutcome::Done => {
                    self.stage = JobStage::Script;
                    Ok(
                        JobAction::CheckScript {
                            workspace: "mnt/job".to_owned(),
                            script: text::text_or(&self.job.script, "main.py"),
                        },
                    )
                },
                UnpackOutcome::IoFailed { reason } => Err(JobError::Io { reason }),
                UnpackOutcome::NotWritten => Err(JobError::PayloadNotWritten),
                UnpackOutcome::NotOpened => Err(JobError::ZipNotOpened),
                UnpackOutcome::NotExtracted => Err(JobError::ZipNotExtracted),
            },
            JobEvent::ScriptChecked { found, path } => if found {
                self.stage = JobStage::Container;
                Ok(
                    JobAction::RunContainer {
                        workspace: "mnt/job".to_owned(),
                        job_type: text::text_or(&self.job.job_type, "python"),
                        config: job_config(&self.job),
                        job_id: text::text_or(&self.job.job_id, "unknown"),
                    },
                )
            } else {
                Err(JobError::ScriptMissing { path })
            },
            JobEvent::ContainerEnded { success } => if success {
                self.stage = JobStage::Zip;
                Ok(
                    JobAction::ZipOutput {
                        output_dir: "mnt/job/output".to_owned(),
                        archive: "mnt/result.zip".to_owned(),
                    },
                )
            } else {
                Err(JobError::DockerFailed)
            },
            JobEvent::Zipped { success } => match success {
                None => Err(JobError::ResultNotZipped),
                Some(true) => {
                    self.stage = JobStage::Read;
                    Ok(JobAction::ReadResult { archive: "mnt/result.zip".to_owned() })
                },
                Some(false) => {
                    self.stage = JobStage::Placeholder;
                    Ok(
                        JobAction::WritePlaceholder {
                            output_dir: "mnt/job/output".to_owned(),
                            file: "result.txt".to_owned(),
                            content: "Tenxo job completed successfully".to_owned(),
                            archive: "mnt/result.zip".to_owned(),
                        },
                    )
                },
            },
            JobEvent::PlaceholderZipped { outcome } => match outcome {
                PlaceholderOutcome::Done => {
                    self.stage = JobStage::Read;
                    Ok(JobAction::ReadResult { archive: "mnt/result.zip".to_owned() })
                },
                PlaceholderOutcome::IoFailed { reason } => Err(JobError::Io { reason }),
                PlaceholderOutcome::NotRun => Err(JobError::PlaceholderNotZipped),
            },
            JobEvent::ResultRead { blob } => match blob {
                None => Err(JobError::ResultUnread),
                Some(bytes) => {
                    let job_id: String = text::text_or(&self.job.job_id, "unknown");
                    match seal_result(
                        job_id.as_str(),
                        self.input_hash.as_str(),
                        bytes.as_slice(),
                        &self.key,
                    ) {
                        Ok(sealed) => {
                            self.sealed = sealed;
                            self.stage = JobStage::TearDown;
                            Ok(
                                JobAction::TearDown {
                                    container: "workspace.luks".to_owned(),
                                    mount_point: "mnt".to_owned(),
                                    job_id,
                                },
                            )
                        },
                        Err(e) => Err(e),
                    }
                },
            },
            JobEvent::TornDown => {
                let failed: bool = match self.stage {
                    JobStage::Failing => true,
                    _ => false,
                };
                if failed {
                    self.stage = JobStage::Removing;
                    Ok(JobAction::RemoveWorkspace)
                } else {
                    let mut body: Vec<u8> = Vec::new();
                    self.stage = JobStage::Upload;
                    core::mem::swap(&mut body, &mut self.sealed.result);
                    Ok(JobAction::UploadResult { url: self.job.result_upload_url.clone(), body })
                }
            },
            JobEvent::ResultUploaded { reply } => match reply {
                None => Err(JobError::ResultNotSent),
                Some(answer) => if answer.success {
                    let mut body: Vec<u8> = Vec::new();
                    self.stage = JobStage::Receipt;
                    core::mem::swap(&mut body, &mut self.sealed.receipt);
                    Ok(
                        JobAction::UploadReceipt {
                            url: text::cat2(self.job.result_upload_url.as_str(), ".receipt"),
                            body,
                        },
                    )
                } else {
                    Err(JobError::UploadRefused { status: answer.status })
                },
            },
            JobEvent::ReceiptUploaded { reply } => match reply {
                None => Err(JobError::ReceiptNotSent),
                Some(answer) => {
                    self.receipt_stored = answer.success;
                    self.failure = None;
                    self.stage = JobStage::Removing;
                    Ok(JobAction::RemoveWorkspace)
                },
            },
            JobEvent::WorkspaceRemoved => {
                let mut failure: Option<JobError> = None;
                self.stage = JobStage::Finished;
                core::mem::swap(&mut failure, &mut self.failure);
                return match failure {
                    Some(e) => Err(e),
                    None => Ok(
                        JobAction::Finish {
                            url: self.job.result_upload_url.clone(),
                            receipt_stored: self.receipt_stored,
                        },
                    ),
                };
            },
        };
        match r {
            Ok(action) => Ok(action),
            Err(e) => {
                if mounted {
                    self.failure = Some(e);
                    self.stage = JobStage::Failing;
                    Ok(
                        JobAction::TearDown {
                            container: "workspace.luks".to_owned(),
                            mount_point: "mnt".to_owned(),
                            job_id: text::text_or(&self.job.job_id, "unknown"),
                        },
                    )
                } else if untidy {
                    self.failure = Some(e);
                    self.stage = JobStage::Removing;
                    Ok(JobAction::RemoveWorkspace)
                } else {
                    self.stage = JobStage::Finished;
                    Err(e)
                }
            },
        }
    }
}

// ---------------------------------------------------------------------------
// What holds of every job

/// The path lies in the mounted LUKS container.
pub open spec fn in_luks(path: Seq<char>) -> bool {
    path.len() > 4 && path.take(4) == "mnt/"@
}

/// Plaintext is written inside the mounted LUKS container only: the payload, what
/// is extracted from it, the output of the container and the packed result.
pub proof fn law_plaintext_stays_in_luks(run: JobRun, event: JobEvent)
    ensures
        run.move_on(event) matches Ok(JobMove::Unpack { workspace, archive, .. }) ==> in_luks(
            workspace,
        ) && in_luks(archive),
        run.move_on(event) matches Ok(JobMove::RunContainer { workspace, .. }) ==> in_luks(
            workspace,
        ),
        run.move_on(event) matches Ok(JobMove::ZipOutput { output_dir, archive }) ==> in_luks(
            output_dir,
        ) && in_luks(archive),
        run.move_on(event) matches Ok(
            JobMove::WritePlaceholder { output_dir, archive, .. },
        ) ==> in_luks(output_dir) && in_luks(archive),
        run.move_on(event) matches Ok(JobMove::ReadResult { archive }) ==> in_luks(archive),
{
    reveal_strlit("mnt/");
    reveal_strlit("mnt/job");
    reveal_strlit("mnt/payload.zip");
    reveal_strlit("mnt/job/output");
    reveal_strlit("mnt/result.zip");
    assert("mnt/job"@.take(4) =~= "mnt/"@);
    assert("mnt/payload.zip"@.take(4) =~= "mnt/"@);
    assert("mnt/job/output"@.take(4) =~= "mnt/"@);
    assert("mnt/result.zip"@.take(4) =~= "mnt/"@);
}

/// Nothing leaves the machine but what is sealed under the job's key, and only
/// after the LUKS container was torn down: the result opens to something with the
/// hash that the agent keeps, and the receipt to one that binds the hash of what
/// went in and the hash of that result.
pub proof fn law_uploads_are_sealed(run: JobRun, event: JobEvent)
    requires
        run.wf(),
        run.awaits(event),
    ensures
        run.move_on(event) matches Ok(JobMove::UploadResult { url, body }) ==> {
            &&& event is TornDown
            &&& url == run.job().result_upload_url@
            &&& payload::decrypted(body, run.key()) is Ok
            &&& payload::integrity_hash(payload::decrypted(body, run.key())->Ok_0)
                == run.output_hash()
        },
        run.move_on(event) matches Ok(JobMove::UploadReceipt { url, body }) ==> {
            &&& url == run.job().result_upload_url@ + ".receipt"@
            &&& payload::decrypted(body, run.key()) == Ok::<Seq<u8>, payload::PayloadError>(
                messages::receipt_of(run.job_name(), run.input_hash(), run.output_hash()),
            )
        },
{
}

/// What is set up is torn down, once, however the job goes. From the moment the
/// LUKS container is set up until it is torn down it counts as mounted. No job ends
/// while it is: every error waits for the teardown, and nothing is uploaded before
/// it. The teardown is asked for once, of the container that was set up.
pub proof fn law_what_is_set_up_is_torn_down(run: JobRun, event: JobEvent)
    requires
        run.wf(),
        run.awaits(event),
    ensures
        ({
            let done = run.move_on(event);
            let after = run.stage_after(event);
            &&& JobRun::mounted(after) == (event matches JobEvent::LuksSetUp { done: true } || (
            JobRun::mounted(run.stage()) && !(event is TornDown)))
            &&& done is Err ==> !JobRun::mounted(run.stage()) && !JobRun::mounted(after)
            &&& done matches Ok(JobMove::Finish { .. }) ==> !JobRun::mounted(after)
            &&& done matches Ok(JobMove::RemoveWorkspace) ==> !JobRun::mounted(after)
            &&& done matches Ok(JobMove::UploadResult { .. }) ==> event is TornDown
            &&& done matches Ok(JobMove::UploadReceipt { .. }) ==> !JobRun::mounted(run.stage())
            &&& done matches Ok(JobMove::TearDown { container, mount_point, job_id }) ==> {
                &&& JobRun::mounted(run.stage())
                &&& run.stage() != JobStage::TearDown && run.stage() != JobStage::Failing
                &&& after == JobStage::TearDown || after == JobStage::Failing
                &&& run.leads_to(JobEvent::WorkspaceMade { made: true }) == Ok::<
                    JobMove,
                    Seq<char>,
                >(JobMove::SetUpLuks { container, mount_point, job_id })
            }
        }),
{
}

/// The temporary directory is removed, once, however the job goes: no job ends, well
/// or with an error, while it is there, and it is removed only after the LUKS
/// container in it was torn down. The error that is then reported is the one that
/// stopped the job.
pub proof fn law_workspace_is_removed(run: JobRun, event: JobEvent)
    requires
        run.wf(),
        run.awaits(event),
    ensures
        ({
            let done = run.move_on(event);
            let after = run.stage_after(event);
            &&& JobRun::has_workspace(after) == (event matches JobEvent::WorkspaceMade {
                made: true,
            } || (JobRun::has_workspace(run.stage()) && !(event is WorkspaceRemoved)))
            &&& done is Err ==> !JobRun::has_workspace(after)
            &&& done matches Ok(JobMove::Finish { .. }) ==> !JobRun::has_workspace(after)
            &&& done matches Ok(JobMove::RemoveWorkspace) ==> {
                &&& JobRun::has_workspace(run.stage()) && run.stage() != JobStage::Removing
                &&& after == JobStage::Removing && !JobRun::mounted(after)
            }
            &&& run.fails_untidy(event) ==> run.failure_after(event) == Some(
                run.leads_to(event)->Err_0,
            ) && (after == JobStage::Failing || after == JobStage::Removing)
            &&& run.stage() == JobStage::Failing ==> after == JobStage::Removing
                && run.failure_after(event) == run.failure()
            &&& event is WorkspaceRemoved && run.failure() is Some ==> done == Err::<
                JobMove,
                Seq<char>,
            >(run.failure()->0)
        }),
{
}

/// A script that is missing after the payload was unpacked stops the job, whatever
/// its type: no container is run, nothing is uploaded, the LUKS container is torn
/// down, and the error names the script.
pub proof fn law_missing_script_stops_the_job(run: JobRun, event: JobEvent)
    requires
        run.stage() == JobStage::Script,
        event is ScriptChecked,
        !event->found,
    ensures
        run.move_on(event) == Ok::<JobMove, Seq<char>>(run.tear_down()),
        run.stage_after(event) == JobStage::Failing,
        run.leads_to(event) == Err::<JobMove, Seq<char>>(
            "script file not found after extraction: "@ + event->ScriptChecked_path@,
        ),
        run.failure_after(event) == Some(
            "script file not found after extraction: "@ + event->ScriptChecked_path@,
        ),
{
}

/// The hash of what went in, which the receipt binds, is the hash of the very
/// payload that is unpacked.
pub proof fn law_hashed_payload_is_unpacked(run: JobRun, event: JobEvent)
    requires
        run.wf(),
        run.awaits(event),
    ensures
        run.move_on(event) matches Ok(JobMove::Unpack { payload, .. }) ==> payload::integrity_hash(
            payload,
        ) == run.input_hash(),
{
}

/// The script that a Python job's container runs is the one that was looked for
/// before it was started.
pub proof fn law_checked_script_is_run(run: JobRun)
    ensures
        docker::command_of("python"@, config_of(run.job()))
            == "ls -la /workspace && if [ -f requirements.txt ]; then pip install -r requirements.txt -q; fi; python "@
            + run.script_name(),
{
}

} // verus!
