//! The LUKS2 container that keeps a job's plaintext encrypted at rest: the
//! commands that set it up and tear it down, and what must be there for them.

use vstd::prelude::*;
use vstd::string::*;

use crate::primitives;
use crate::text;

verus! {

// ---------------------------------------------------------------------------
// Passphrase

/// The passphrase of 32 random bytes: their hexadecimal digits.
pub fn passphrase_from(bytes: &[u8]) -> (r: String)
    requires
        bytes@.len() == 32,
    ensures
        r@ == primitives::hex_of(bytes@),
        r@.len() == 64,
{
    primitives::hex_text(bytes)
}

/// A fresh random passphrase of 64 hexadecimal digits.
pub fn create_luks_passphrase() -> (r: String)
    ensures
        exists|bytes: Seq<u8>| bytes.len() == 32 && r@ == #[trigger] primitives::hex_of(bytes),
        r@.len() == 64,
{
    let bytes: Vec<u8> = primitives::random_bytes(32);
    passphrase_from(bytes.as_slice())
}

// ---------------------------------------------------------------------------
// Errors

/// Why a container could not be set up.
#[derive(Debug)]
pub enum LuksError {
    /// A command that the setup needs is not installed.
    ToolMissing { tool: String },
    /// The device mapper is not there.
    NoDeviceMapper,
    /// A step with a name of its own failed.
    StepFailed { context: String },
    /// A directory could not be made or removed.
    Io { reason: String },
    /// A command could not be run.
    NotExecuted { program: String, args: Vec<String> },
    /// A command has no standard input to write to.
    NoStdin,
    /// The standard input of a command could not be written.
    StdinUnwritten { program: String, args: Vec<String> },
    /// The end of a command could not be waited for.
    NotAwaited { program: String, args: Vec<String> },
    /// A command failed.
    CommandFailed {
        program: String,
        args: Vec<String>,
        status: String,
        stderr: String,
        stdout: String,
    },
}

/// The text for a missing command.
pub open spec fn tool_missing_text(tool: Seq<char>) -> Seq<char> {
    "required command '"@ + tool + "' is not installed"@
}

/// The text for a missing device mapper.
pub open spec fn no_device_mapper_text() -> Seq<char> {
    "dm-crypt device mapper is unavailable (/dev/mapper/control missing); run the agent with root/CAP_SYS_ADMIN and device-mapper support"@
}

/// The text for a command that something could not be done with.
pub open spec fn command_text(what: Seq<char>, program: Seq<char>, args: Seq<Seq<char>>) -> Seq<
    char,
> {
    what + program + " "@ + text::debug_list(args)
}

fn command_message(what: &str, program: &str, args: &Vec<String>) -> (r: String)
    ensures
        r@ == command_text(what@, program@, text::texts(args@)),
{
    text::cat4(what, program, " ", text::debug_text(args).as_str())
}

/// The text for a command that failed.
pub open spec fn command_failed_text(
    program: Seq<char>,
    args: Seq<Seq<char>>,
    status: Seq<char>,
    stderr: Seq<char>,
    stdout: Seq<char>,
) -> Seq<char> {
    command_text("command "@, program, args) + " failed with status "@ + status + ": stderr="@
        + stderr + " stdout="@ + stdout
}

impl LuksError {
    /// The text of the error.
    pub open spec fn text(self) -> Seq<char> {
        match self {
            LuksError::ToolMissing { tool } => tool_missing_text(tool@),
            LuksError::NoDeviceMapper => no_device_mapper_text(),
            LuksError::StepFailed { context } => context@,
            LuksError::Io { reason } => reason@,
            LuksError::NotExecuted { program, args } => command_text(
                "failed to execute: "@,
                program@,
                text::texts(args@),
            ),
            LuksError::NoStdin => "failed to open child stdin"@,
            LuksError::StdinUnwritten { program, args } => command_text(
                "failed to write stdin for "@,
                program@,
                text::texts(args@),
            ),
            LuksError::NotAwaited { program, args } => command_text(
                "failed to wait for "@,
                program@,
                text::texts(args@),
            ),
            LuksError::CommandFailed { program, args, status, stderr, stdout } =>
                command_failed_text(program@, text::texts(args@), status@, stderr@, stdout@),
        }
    }

    /// The text of the error.
    pub fn message(&self) -> (r: String)
        ensures
            r@ == self.text(),
    {
        match self {
            LuksError::ToolMissing { tool } => text::cat3(
                "required command '",
                tool.as_str(),
                "' is not installed",
            ),
            LuksError::NoDeviceMapper =>
                "dm-crypt device mapper is unavailable (/dev/mapper/control missing); run the agent with root/CAP_SYS_ADMIN and device-mapper support".to_owned(),
            LuksError::StepFailed { context } => context.clone(),
            LuksError::Io { reason } => reason.clone(),
            LuksError::NotExecuted { program, args } => command_message(
                "failed to execute: ",
                program.as_str(),
                args,
            ),
            LuksError::NoStdin => "failed to open child stdin".to_owned(),
            LuksError::StdinUnwritten { program, args } => command_message(
                "failed to write stdin for ",
                program.as_str(),
                args,
            ),
            LuksError::NotAwaited { program, args } => command_message(
                "failed to wait for ",
                program.as_str(),
                args,
            ),
            LuksError::CommandFailed { program, args, status, stderr, stdout } => {
                let what: String = command_message("command ", program.as_str(), args);
                let how: String = text::cat5(
                    what.as_str(),
                    " failed with status ",
                    status.as_str(),
                    ": stderr=",
                    stderr.as_str(),
                );
                text::cat3(how.as_str(), " stdout=", stdout.as_str())
            },
        }
    }
}

/// How a step on the machine went.
#[derive(Debug)]
pub enum StepOutcome {
    /// What is no command was done.
    Done,
    /// What is no command could not be done.
    Failed { reason: String },
    /// A command could not be started.
    NotExecuted,
    /// A command has no standard input to write to.
    NoStdin,
    /// The standard input of a command could not be written.
    StdinUnwritten,
    /// The end of a command could not be waited for.
    NotAwaited,
    /// A command ended.
    Ended { success: bool, status: String, stderr: Vec<u8>, stdout: Vec<u8> },
}

impl StepOutcome {
    /// The text of the error that the outcome means for a command, if it means
    /// one: a command did what it should only where it ended with success.
    pub open spec fn error(self, program: Seq<char>, args: Seq<Seq<char>>) -> Option<Seq<char>> {
        match self {
            StepOutcome::Done => None,
            StepOutcome::Failed { reason } => Some(reason@),
            StepOutcome::NotExecuted => Some(
                command_text("failed to execute: "@, program, args),
            ),
            StepOutcome::NoStdin => Some("failed to open child stdin"@),
            StepOutcome::StdinUnwritten => Some(
                command_text("failed to write stdin for "@, program, args),
            ),
            StepOutcome::NotAwaited => Some(
                command_text("failed to wait for "@, program, args),
            ),
            StepOutcome::Ended { success, status, stderr, stdout } => if success {
                None
            } else {
                Some(
                    command_failed_text(
                        program,
                        args,
                        status@,
                        text::trimmed(text::utf8_lossy(stderr@)),
                        text::trimmed(text::utf8_lossy(stdout@)),
                    ),
                )
            },
        }
    }
}

/// What the outcome of a command means: nothing where it succeeded, otherwise an
/// error with what is known of it.
pub fn command_verdict(program: &str, args: &Vec<String>, outcome: StepOutcome) -> (r: Result<
    (),
    LuksError,
>)
    ensures
        r is Ok == outcome.error(program@, text::texts(args@)) is None,
        r is Err ==> r->Err_0.text() == outcome.error(program@, text::texts(args@))->0,
{
    match outcome {
        StepOutcome::Done => Ok(()),
        StepOutcome::Failed { reason } => Err(LuksError::Io { reason }),
        StepOutcome::NotExecuted => Err(
            LuksError::NotExecuted { program: program.to_owned(), args: copy_texts(args) },
        ),
        StepOutcome::NoStdin => Err(LuksError::NoStdin),
        StepOutcome::StdinUnwritten => Err(
            LuksError::StdinUnwritten { program: program.to_owned(), args: copy_texts(args) },
        ),
        StepOutcome::NotAwaited => Err(
            LuksError::NotAwaited { program: program.to_owned(), args: copy_texts(args) },
        ),
        StepOutcome::Ended { success, status, stderr, stdout } => {
            if success {
                return Ok(());
            }
            let err: String = text::lossy_text(stderr.as_slice());
            let out: String = text::lossy_text(stdout.as_slice());
            Err(
                LuksError::CommandFailed {
                    program: program.to_owned(),
                    args: copy_texts(args),
                    status,
                    stderr: text::trim(err.as_str()).to_owned(),
                    stdout: text::trim(out.as_str()).to_owned(),
                },
            )
        },
    }
}

fn copy_texts(list: &Vec<String>) -> (r: Vec<String>)
    ensures
        text::texts(r@) == text::texts(list@),
{
    let mut out: Vec<String> = Vec::new();
    let mut i: usize = 0;
    while i < list.len()
        invariant
            i <= list@.len(),
            out@.len() == i,
            forall|j: int| 0 <= j < i ==> out@[j]@ == list@[j]@,
        decreases list@.len() - i,
    {
        out.push(list[i].clone());
        i = i + 1;
    }
    assert(text::texts(out@) =~= text::texts(list@));
    out
}

// ---------------------------------------------------------------------------
// Preflight

/// The commands that a container needs, in the order in which they are looked
/// for.
pub open spec fn tools() -> Seq<Seq<char>> {
    seq!["cryptsetup"@, "mkfs.ext4"@, "mount"@, "umount"@, "shred"@]
}

/// The commands that a container needs, in the order in which they are looked
/// for.
pub fn required_tools() -> (r: Vec<String>)
    ensures
        text::texts(r@) == tools(),
{
    let mut list: Vec<String> = Vec::new();
    list.push("cryptsetup".to_owned());
    list.push("mkfs.ext4".to_owned());
    list.push("mount".to_owned());
    list.push("umount".to_owned());
    list.push("shred".to_owned());
    assert(text::texts(list@) =~= tools());
    list
}

/// How many commands in front were found, one after the other.
pub open spec fn found_in_front(found: Seq<bool>) -> int
    decreases found.len(),
{
    if found.len() > 0 && found[0] {
        1 + found_in_front(found.drop_first())
    } else {
        0
    }
}

/// The text of the error that stops a container from being set up before any step
/// is done, if one does: a command that is missing, or the device mapper.
pub open spec fn preflight_error(found: Seq<bool>, device_mapper: bool) -> Option<Seq<char>> {
    if found_in_front(found) < tools().len() {
        Some(tool_missing_text(tools()[found_in_front(found)]))
    } else if !device_mapper {
        Some(no_device_mapper_text())
    } else {
        None
    }
}

/// Whether a container can be set up. `found` tells of the required commands, in
/// their order, whether they were found; one of which it does not tell was not.
/// The first that was not found is the error; after all were found the device
/// mapper must be there.
pub fn luks_preflight(found: &Vec<bool>, device_mapper: bool) -> (r: Result<(), LuksError>)
    ensures
        r is Ok == preflight_error(found@, device_mapper) is None,
        r is Err ==> r->Err_0.text() == preflight_error(found@, device_mapper)->0,
{
    let list: Vec<String> = required_tools();
    let n: usize = list.len();
    let mut i: usize = 0;
    assert(text::texts(list@).len() == list@.len());
    assert(found@.skip(0) =~= found@);
    while i < n
        invariant
            n == list@.len() == tools().len(),
            text::texts(list@) == tools(),
            i <= n,
            i <= found@.len(),
            found_in_front(found@) == i + found_in_front(found@.skip(i as int)),
        decreases n - i,
    {
        if i >= found.len() || !found[i] {
            assert(text::texts(list@)[i as int] == list@[i as int]@);
            return Err(LuksError::ToolMissing { tool: list[i].clone() });
        }
        assert(found@.skip(i as int).drop_first() =~= found@.skip(i + 1));
        i = i + 1;
    }
    proof {
        lemma_found_not_negative(found@.skip(i as int));
    }
    if !device_mapper {
        return Err(LuksError::NoDeviceMapper);
    }
    Ok(())
}

proof fn lemma_found_not_negative(found: Seq<bool>)
    ensures
        found_in_front(found) >= 0,
    decreases found.len(),
{
    if found.len() > 0 && found[0] {
        lemma_found_not_negative(found.drop_first());
    }
}

// ---------------------------------------------------------------------------
// Setting up and tearing down

/// A step that is done on the machine.
#[derive(Debug)]
pub enum HostStep {
    /// Run a command.
    Run { program: String, args: Vec<String> },
    /// Run a command with the passphrase on its standard input; `context` is the
    /// error if it fails.
    Unlock { program: String, args: Vec<String>, context: String },
    /// Make a directory and those above it.
    MakeDirectory { path: String },
    /// Remove a directory and all in it.
    RemoveDirectory { path: String },
}

/// The contents of a `HostStep`.
pub enum HostStepModel {
    Run { program: Seq<char>, args: Seq<Seq<char>> },
    Unlock { program: Seq<char>, args: Seq<Seq<char>>, context: Seq<char> },
    MakeDirectory { path: Seq<char> },
    RemoveDirectory { path: Seq<char> },
}

impl View for HostStep {
    type V = HostStepModel;

    open spec fn view(&self) -> HostStepModel {
        match self {
            HostStep::Run { program, args } => HostStepModel::Run {
                program: program@,
                args: text::texts(args@),
            },
            HostStep::Unlock { program, args, context } => HostStepModel::Unlock {
                program: program@,
                args: text::texts(args@),
                context: context@,
            },
            HostStep::MakeDirectory { path } => HostStepModel::MakeDirectory { path: path@ },
            HostStep::RemoveDirectory { path } => HostStepModel::RemoveDirectory { path: path@ },
        }
    }
}

impl HostStepModel {
    /// The text of the error, if the step fails with this outcome. A step that
    /// unlocks has a text of its own; making and removing a directory fail like
    /// the commands for it.
    pub open spec fn error(self, outcome: StepOutcome) -> Option<Seq<char>> {
        match self {
            HostStepModel::Run { program, args } => outcome.error(program, args),
            HostStepModel::Unlock { program, args, context } => match outcome.error(program, args) {
                Some(_) => Some(context),
                None => None,
            },
            HostStepModel::MakeDirectory { path } => outcome.error("mkdir"@, seq![path]),
            HostStepModel::RemoveDirectory { path } => outcome.error("rmdir"@, seq![path]),
        }
    }
}

impl HostStep {
    /// What the outcome of the step means: nothing where it succeeded, otherwise
    /// its error.
    pub fn verdict(&self, outcome: StepOutcome) -> (r: Result<(), LuksError>)
        ensures
            r is Ok == self@.error(outcome) is None,
            r is Err ==> r->Err_0.text() == self@.error(outcome)->0,
    {
        match self {
            HostStep::Run { program, args } => command_verdict(program.as_str(), args, outcome),
            HostStep::Unlock { program, args, context } => match command_verdict(
                program.as_str(),
                args,
                outcome,
            ) {
                Ok(_) => Ok(()),
                Err(_) => Err(LuksError::StepFailed { context: context.clone() }),
            },
            HostStep::MakeDirectory { path } => {
                let args: Vec<String> = owned(&[path.as_str()]);
                assert(text::texts(args@) =~= seq![path@]);
                command_verdict("mkdir", &args, outcome)
            },
            HostStep::RemoveDirectory { path } => {
                let args: Vec<String> = owned(&[path.as_str()]);
                assert(text::texts(args@) =~= seq![path@]);
                command_verdict("rmdir", &args, outcome)
            },
        }
    }

    /// The same step once more.
    fn copy(&self) -> (r: Self)
        ensures
            r@ == self@,
    {
        match self {
            HostStep::Run { program, args } => HostStep::Run {
                program: program.clone(),
                args: copy_texts(args),
            },
            HostStep::Unlock { program, args, context } => HostStep::Unlock {
                program: program.clone(),
                args: copy_texts(args),
                context: context.clone(),
            },
            HostStep::MakeDirectory { path } => HostStep::MakeDirectory { path: path.clone() },
            HostStep::RemoveDirectory { path } => HostStep::RemoveDirectory {
                path: path.clone(),
            },
        }
    }
}

/// The contents of a list of steps.
pub open spec fn steps(list: Seq<HostStep>) -> Seq<HostStepModel> {
    list.map_values(|s: HostStep| s@)
}

/// The characters that may stand in the name of a mapped device.
pub open spec fn is_name_char(c: char) -> bool {
    'a' <= c <= 'z' || 'A' <= c <= 'Z' || '0' <= c <= '9' || c == '-'
}

/// The name of the mapped device of a job: of the job's name it keeps the ASCII
/// letters, the digits and the hyphens.
pub open spec fn mapper_name_of(job_id: Seq<char>) -> Seq<char> {
    "tenxo-workspace-"@ + job_id.filter(|c: char| is_name_char(c))
}

/// The name of the mapped device of a job.
pub fn mapper_name(job_id: &str) -> (r: String)
    ensures
        r@ == mapper_name_of(job_id@),
{
    let mut out: String = "tenxo-workspace-".to_owned();
    let chars: Vec<char> = text::chars_of(job_id);
    let ghost keep = |c: char| is_name_char(c);
    let mut i: usize = 0;
    proof {
        reveal(Seq::filter);
        assert(job_id@.take(0).filter(keep) =~= seq![]);
    }
    while i < chars.len()
        invariant
            chars@ == job_id@,
            i <= chars@.len(),
            keep == (|c: char| is_name_char(c)),
            out@ == "tenxo-workspace-"@ + job_id@.take(i as int).filter(keep),
        decreases chars@.len() - i,
    {
        let c: char = chars[i];
        proof {
            reveal(Seq::filter);
            assert(job_id@.take(i + 1).drop_last() =~= job_id@.take(i as int));
            assert(job_id@.take(i + 1).last() == c);
        }
        if ('a' <= c && c <= 'z') || ('A' <= c && c <= 'Z') || ('0' <= c && c <= '9') || c == '-' {
            let ghost before = out@;
            let piece: &str = job_id.substring_char(i, i + 1);
            out.append(piece);
            assert(piece@ =~= seq![c]);
            assert(out@ =~= "tenxo-workspace-"@ + job_id@.take(i as int).filter(keep).push(c));
        }
        i = i + 1;
    }
    assert(job_id@.take(i as int) =~= job_id@);
    out
}

/// Whatever a job is called, the name of its mapped device holds only ASCII
/// letters, digits and hyphens: no path leads out of `/dev/mapper`.
pub proof fn law_mapper_name_is_plain(job_id: Seq<char>)
    ensures
        forall|i: int|
            0 <= i < mapper_name_of(job_id).len() ==> is_name_char(
                #[trigger] mapper_name_of(job_id)[i],
            ),
{
    reveal_strlit("tenxo-workspace-");
    let keep = |c: char| is_name_char(c);
    assert forall|i: int| 0 <= i < mapper_name_of(job_id).len() implies is_name_char(
        #[trigger] mapper_name_of(job_id)[i],
    ) by {
        let head = "tenxo-workspace-"@.len();
        if i >= head {
            job_id.lemma_filter_pred(keep, i - head);
        }
    }
}

/// The steps that set a container up: a sparse file, formatted and opened with
/// the passphrase, a file system in it, mounted and open to all users.
pub open spec fn setup_steps(
    container: Seq<char>,
    mount_point: Seq<char>,
    mapper: Seq<char>,
) -> Seq<HostStepModel> {
    let device = "/dev/mapper/"@ + mapper;
    seq![
        HostStepModel::Run { program: "truncate"@, args: seq!["-s"@, "256M"@, container] },
        HostStepModel::Unlock {
            program: "cryptsetup"@,
            args: seq![
                "luksFormat"@,
                "--batch-mode"@,
                "--type"@,
                "luks2"@,
                "--pbkdf"@,
                "argon2i"@,
                "--iter-time"@,
                "500"@,
                "--key-size"@,
                "256"@,
                "--key-file"@,
                "-"@,
                container,
            ],
            context: "luksFormat failed"@,
        },
        HostStepModel::Unlock {
            program: "cryptsetup"@,
            args: seq!["open"@, "--key-file"@, "-"@, container, mapper],
            context: "cryptsetup open failed"@,
        },
        HostStepModel::Run { program: "mkfs.ext4"@, args: seq!["-q"@, device] },
        HostStepModel::MakeDirectory { path: mount_point },
        HostStepModel::Run { program: "mount"@, args: seq![device, mount_point] },
        HostStepModel::Run { program: "chmod"@, args: seq!["1777"@, mount_point] },
    ]
}

/// The steps that tear a container down. Each is done whatever became of those
/// before it.
pub open spec fn teardown_steps(
    container: Seq<char>,
    mount_point: Seq<char>,
    mapper: Seq<char>,
) -> Seq<HostStepModel> {
    seq![
        HostStepModel::Run { program: "umount"@, args: seq!["-l"@, mount_point] },
        HostStepModel::RemoveDirectory { path: mount_point },
        HostStepModel::Run { program: "cryptsetup"@, args: seq!["close"@, mapper] },
        HostStepModel::Run { program: "shred"@, args: seq!["-u"@, "-n"@, "1"@, container] },
    ]
}

/// Tearing down undoes setting up, in the reverse order: what was mounted is
/// unmounted, the directory that was made for it removed, the device that was
/// opened closed, and the file that was made shredded.
pub proof fn law_teardown_undoes_setup(
    container: Seq<char>,
    mount_point: Seq<char>,
    mapper: Seq<char>,
)
    ensures
        ({
            let up = setup_steps(container, mount_point, mapper);
            let down = teardown_steps(container, mount_point, mapper);
            &&& down.len() == 4
            &&& up[5]->Run_program == "mount"@ && up[5]->Run_args.last() == mount_point
            &&& down[0]->Run_program == "umount"@ && down[0]->Run_args.last() == mount_point
            &&& up[4] == HostStepModel::MakeDirectory { path: mount_point }
            &&& down[1] == HostStepModel::RemoveDirectory { path: mount_point }
            &&& up[2]->Unlock_program == "cryptsetup"@ && up[2]->Unlock_args[0] == "open"@
                && up[2]->Unlock_args.last() == mapper
            &&& down[2]->Run_program == "cryptsetup"@ && down[2]->Run_args == seq!["close"@, mapper]
            &&& up[0]->Run_program == "truncate"@ && up[0]->Run_args.last() == container
            &&& down[3]->Run_program == "shred"@ && down[3]->Run_args.last() == container
        }),
{
}

fn owned(items: &[&str]) -> (r: Vec<String>)
    ensures
        text::texts(r@) == items@.map_values(|s: &str| s@),
{
    let mut out: Vec<String> = Vec::new();
    let mut i: usize = 0;
    while i < items.len()
        invariant
            i <= items@.len(),
            out@.len() == i,
            forall|j: int| 0 <= j < i ==> out@[j]@ == items@[j]@,
        decreases items@.len() - i,
    {
        out.push(items[i].to_owned());
        i = i + 1;
    }
    assert(text::texts(out@) =~= items@.map_values(|s: &str| s@));
    out
}

fn run(program: &str, args: &[&str]) -> (r: HostStep)
    ensures
        r@ == (HostStepModel::Run {
            program: program@,
            args: args@.map_values(|s: &str| s@),
        }),
{
    HostStep::Run { program: program.to_owned(), args: owned(args) }
}

fn unlock(program: &str, args: &[&str], context: &str) -> (r: HostStep)
    ensures
        r@ == (HostStepModel::Unlock {
            program: program@,
            args: args@.map_values(|s: &str| s@),
            context: context@,
        }),
{
    HostStep::Unlock {
        program: program.to_owned(),
        args: owned(args),
        context: context.to_owned(),
    }
}

/// The steps that set up the container of a job. The passphrase is no part of
/// them: it goes to the commands that ask for it through their standard input
/// alone.
pub fn setup_luks_container(container: &str, mount_point: &str, job_id: &str) -> (r: Vec<HostStep>)
    ensures
        steps(r@) == setup_steps(container@, mount_point@, mapper_name_of(job_id@)),
{
    let mapper: String = mapper_name(job_id);
    let mapper: &str = mapper.as_str();
    let device: String = text::cat2("/dev/mapper/", mapper);
    let device: &str = device.as_str();
    let mut list: Vec<HostStep> = Vec::new();
    list.push(run("truncate", &["-s", "256M", container]));
    assert(list@[0]@->Run_args =~= seq!["-s"@, "256M"@, container@]);
    list.push(
        unlock(
            "cryptsetup",
            &[
                "luksFormat",
                "--batch-mode",
                "--type",
                "luks2",
                "--pbkdf",
                "argon2i",
                "--iter-time",
                "500",
                "--key-size",
                "256",
                "--key-file",
                "-",
                container,
            ],
            "luksFormat failed",
        ),
    );
    assert(list@[1]@->Unlock_args =~= seq![
        "luksFormat"@,
        "--batch-mode"@,
        "--type"@,
        "luks2"@,
        "--pbkdf"@,
        "argon2i"@,
        "--iter-time"@,
        "500"@,
        "--key-size"@,
        "256"@,
        "--key-file"@,
        "-"@,
        container@,
    ]);
    list.push(
        unlock(
            "cryptsetup",
            &["open", "--key-file", "-", container, mapper],
            "cryptsetup open failed",
        ),
    );
    assert(list@[2]@->Unlock_args =~= seq![
        "open"@,
        "--key-file"@,
        "-"@,
        container@,
        mapper@,
    ]);
    list.push(run("mkfs.ext4", &["-q", device]));
    assert(list@[3]@->Run_args =~= seq!["-q"@, device@]);
    list.push(HostStep::MakeDirectory { path: mount_point.to_owned() });
    list.push(run("mount", &[device, mount_point]));
    assert(list@[5]@->Run_args =~= seq![device@, mount_point@]);
    list.push(run("chmod", &["1777", mount_point]));
    assert(list@[6]@->Run_args =~= seq!["1777"@, mount_point@]);
    assert(steps(list@) =~= setup_steps(container@, mount_point@, mapper_name_of(job_id@)));
    list
}

/// Where the setup of a container stands.
#[derive(Debug, Clone, Copy, PartialEq, Eq, Structural)]
pub enum SetupStage {
    /// What the steps need is looked for.
    Preflight,
    /// The step at this place is done.
    Step { index: usize },
    /// It is over.
    Finished,
}

/// What happened.
#[derive(Debug)]
pub enum SetupEvent {
    /// The required commands, in their order, were looked for until one was not
    /// found, and so was the device mapper.
    Checked { found: Vec<bool>, device_mapper: bool },
    /// A step was done.
    Performed { outcome: StepOutcome },
}

/// What the agent does next.
#[derive(Debug)]
pub enum SetupAction {
    /// Do this step.
    Perform { step: HostStep },
    /// The container is there.
    Done { container: LuksContainer },
}

/// The contents of a `SetupAction`.
pub enum SetupMove {
    Perform { step: HostStepModel },
    Done { container_path: Seq<char>, mount_point: Seq<char>, mapper_name: Seq<char> },
}

impl View for SetupAction {
    type V = SetupMove;

    open spec fn view(&self) -> SetupMove {
        match self {
            SetupAction::Perform { step } => SetupMove::Perform { step: step@ },
            SetupAction::Done { container } => SetupMove::Done {
                container_path: container.container_path(),
                mount_point: container.mount_point(),
                mapper_name: container.mapper_name(),
            },
        }
    }
}

/// A container that is being set up: first what the steps need is looked for, then
/// the steps are done one by one, until one fails.
#[derive(Debug)]
pub struct LuksSetup {
    container: String,
    mount_point: String,
    mapper: String,
    steps: Vec<HostStep>,
    stage: SetupStage,
}

impl LuksSetup {
    /// The file that is to hold the container.
    pub closed spec fn container(self) -> Seq<char> {
        self.container@
    }

    /// Where the container is to be mounted.
    pub closed spec fn mount_point(self) -> Seq<char> {
        self.mount_point@
    }

    /// The name of the mapped device.
    pub closed spec fn mapper(self) -> Seq<char> {
        self.mapper@
    }

    /// Where the setup stands.
    pub closed spec fn stage(self) -> SetupStage {
        self.stage
    }

    /// The steps of the setup.
    pub open spec fn plan(self) -> Seq<HostStepModel> {
        setup_steps(self.container(), self.mount_point(), self.mapper())
    }

    #[verifier::type_invariant]
    spec fn planned(self) -> bool {
        &&& steps(self.steps@) == self.plan()
        &&& self.stage matches SetupStage::Step { index } ==> index < self.plan().len()
    }

    /// The event is one that the agent waits for.
    pub open spec fn awaits(self, event: SetupEvent) -> bool {
        match self.stage() {
            SetupStage::Preflight => event is Checked,
            SetupStage::Step { .. } => event is Performed,
            SetupStage::Finished => false,
        }
    }

    /// What the agent does when the event happens.
    pub open spec fn move_on(self, event: SetupEvent) -> Result<SetupMove, Seq<char>> {
        match event {
            SetupEvent::Checked { found, device_mapper } => match preflight_error(
                found@,
                device_mapper,
            ) {
                Some(error) => Err(error),
                None => Ok(SetupMove::Perform { step: self.plan()[0] }),
            },
            SetupEvent::Performed { outcome } => {
                let index = self.stage()->index;
                match self.plan()[index as int].error(outcome) {
                    Some(error) => Err(error),
                    None => if index + 1 < self.plan().len() {
                        Ok(SetupMove::Perform { step: self.plan()[index + 1] })
                    } else {
                        Ok(
                            SetupMove::Done {
                                container_path: self.container(),
                                mount_point: self.mount_point(),
                                mapper_name: self.mapper(),
                            },
                        )
                    },
                }
            },
        }
    }

    /// The stage after an event.
    pub open spec fn stage_after(self, event: SetupEvent) -> SetupStage {
        match (self.move_on(event), event) {
            (Ok(SetupMove::Perform { .. }), SetupEvent::Checked { .. }) => SetupStage::Step {
                index: 0,
            },
            (Ok(SetupMove::Perform { .. }), SetupEvent::Performed { .. }) => SetupStage::Step {
                index: (self.stage()->index + 1) as usize,
            },
            _ => SetupStage::Finished,
        }
    }

    /// The setup of the container of a job.
    pub fn new(container: &str, mount_point: &str, job_id: &str) -> (r: Self)
        ensures
            r.container() == container@,
            r.mount_point() == mount_point@,
            r.mapper() == mapper_name_of(job_id@),
            r.stage() == SetupStage::Preflight,
    {
        LuksSetup {
            container: container.to_owned(),
            mount_point: mount_point.to_owned(),
            mapper: mapper_name(job_id),
            steps: setup_luks_container(container, mount_point, job_id),
            stage: SetupStage::Preflight,
        }
    }

    /// Whether the event is one that the agent waits for.
    pub fn expects(&self, event: &SetupEvent) -> (r: bool)
        ensures
            r == self.awaits(*event),
    {
        match (self.stage, event) {
            (SetupStage::Preflight, SetupEvent::Checked { .. }) => true,
            (SetupStage::Step { .. }, SetupEvent::Performed { .. }) => true,
            _ => false,
        }
    }

    /// Takes an event, and says what to do next. The first failure, of what the
    /// steps need or of a step, is the error and ends the setup.
    pub fn step(&mut self, event: SetupEvent) -> (r: Result<SetupAction, LuksError>)
        requires
            old(self).awaits(event),
        ensures
            match r {
                Ok(action) => old(self).move_on(event) == Ok::<SetupMove, Seq<char>>(action@),
                Err(e) => old(self).move_on(event) == Err::<SetupMove, Seq<char>>(e.text()),
            },
            r matches Ok(SetupAction::Done { container }) ==> !container.torn_down(),
            final(self).stage() == old(self).stage_after(event),
            final(self).container() == old(self).container(),
            final(self).mount_point() == old(self).mount_point(),
            final(self).mapper() == old(self).mapper(),
    {
        proof {
            use_type_invariant(&*self);
        }
        assert(steps(self.steps@).len() == self.steps@.len());
        match event {
            SetupEvent::Checked { found, device_mapper } => match luks_preflight(
                &found,
                device_mapper,
            ) {
                Ok(_) => {
                    self.stage = SetupStage::Step { index: 0 };
                    assert(steps(self.steps@)[0] == self.steps@[0]@);
                    Ok(SetupAction::Perform { step: self.steps[0].copy() })
                },
                Err(e) => {
                    self.stage = SetupStage::Finished;
                    Err(e)
                },
            },
            SetupEvent::Performed { outcome } => {
                let index: usize = match self.stage {
                    SetupStage::Step { index } => index,
                    _ => 0,
                };
                assert(steps(self.steps@)[index as int] == self.steps@[index as int]@);
                let verdict: Result<(), LuksError> = self.steps[index].verdict(outcome);
                match verdict {
                    Ok(_) => if index + 1 < self.steps.len() {
                        self.stage = SetupStage::Step { index: index + 1 };
                        assert(steps(self.steps@)[index + 1] == self.steps@[index + 1]@);
                        Ok(SetupAction::Perform { step: self.steps[index + 1].copy() })
                    } else {
                        self.stage = SetupStage::Finished;
                        Ok(
                            SetupAction::Done {
                                container: LuksContainer::new(
                                    self.container.clone(),
                                    self.mount_point.clone(),
                                    self.mapper.clone(),
                                ),
                            },
                        )
                    },
                    Err(e) => {
                        self.stage = SetupStage::Finished;
                        Err(e)
                    },
                }
            },
        }
    }
}

/// The setup where it stands after the preflight succeeded and the steps went as
/// `outcomes` tells, one after the other.
pub open spec fn stage_after_steps(setup: LuksSetup, outcomes: Seq<StepOutcome>) -> SetupStage
    decreases outcomes.len(),
{
    if outcomes.len() == 0 {
        SetupStage::Step { index: 0 }
    } else {
        match stage_after_steps(setup, outcomes.drop_last()) {
            SetupStage::Step { index } => if setup.plan()[index as int].error(outcomes.last()) is None
                && index + 1 < setup.plan().len() {
                SetupStage::Step { index: (index + 1) as usize }
            } else {
                SetupStage::Finished
            },
            _ => SetupStage::Finished,
        }
    }
}

/// Every one of these steps succeeded.
pub open spec fn all_went_well(setup: LuksSetup, outcomes: Seq<StepOutcome>) -> bool {
    forall|i: int|
        #![trigger outcomes[i]]
        0 <= i < outcomes.len() ==> setup.plan()[i].error(outcomes[i]) is None
}

/// No step is done after one that failed: the setup gets to a step just where the
/// preflight and all steps before it succeeded. So it is done just where the
/// preflight and all its seven steps succeeded, and a preflight that fails leaves
/// every step undone.
pub proof fn law_setup_stops_at_the_first_failure(
    setup: LuksSetup,
    event: SetupEvent,
    outcomes: Seq<StepOutcome>,
)
    requires
        setup.awaits(event),
        outcomes.len() < 7,
    ensures
        setup.plan().len() == 7,
        setup.move_on(event) is Err ==> setup.stage_after(event) == SetupStage::Finished,
        event matches SetupEvent::Checked { found, device_mapper } ==> (setup.move_on(event) is Ok
            == preflight_error(found@, device_mapper) is None),
        stage_after_steps(setup, outcomes) == (if all_went_well(setup, outcomes) {
            SetupStage::Step { index: outcomes.len() as usize }
        } else {
            SetupStage::Finished
        }),
        setup.stage() == stage_after_steps(setup, outcomes) ==> {
            &&& (setup.move_on(event) matches Ok(SetupMove::Done { .. })) == (outcomes.len() == 6
                && all_went_well(setup, outcomes.push(event->Performed_outcome)))
            &&& setup.stage_after(event) == stage_after_steps(
                setup,
                outcomes.push(event->Performed_outcome),
            )
        },
{
    lemma_stage_after_steps(setup, outcomes);
    if setup.stage() == stage_after_steps(setup, outcomes) {
        let outcome = event->Performed_outcome;
        let all = outcomes.push(outcome);
        assert(all.drop_last() =~= outcomes);
        assert forall|i: int| 0 <= i < outcomes.len() implies outcomes[i] == #[trigger] all[i] by {}
        assert(all[outcomes.len() as int] == outcome);
        if all_went_well(setup, all) {
            assert forall|i: int| 0 <= i < outcomes.len() implies setup.plan()[i].error(
                #[trigger] outcomes[i],
            ) is None by {
                assert(all[i] == outcomes[i]);
            }
        }
    }
}

proof fn lemma_stage_after_steps(setup: LuksSetup, outcomes: Seq<StepOutcome>)
    requires
        outcomes.len() < 7,
    ensures
        stage_after_steps(setup, outcomes) == (if all_went_well(setup, outcomes) {
            SetupStage::Step { index: outcomes.len() as usize }
        } else {
            SetupStage::Finished
        }),
    decreases outcomes.len(),
{
    if outcomes.len() > 0 {
        let before = outcomes.drop_last();
        lemma_stage_after_steps(setup, before);
        let last = outcomes.len() - 1;
        assert(outcomes[last] == outcomes.last());
        assert forall|i: int| 0 <= i < last implies #[trigger] before[i] == outcomes[i] by {}
        if all_went_well(setup, outcomes) {
            assert forall|i: int| 0 <= i < before.len() implies setup.plan()[i].error(
                #[trigger] before[i],
            ) is None by {
                assert(outcomes[i] == before[i]);
            }
        } else if all_went_well(setup, before) && setup.plan()[last].error(outcomes.last()) is None {
            assert forall|i: int| 0 <= i < outcomes.len() implies setup.plan()[i].error(
                #[trigger] outcomes[i],
            ) is None by {
                if i < last {
                    assert(before[i] == outcomes[i]);
                }
            }
        }
    }
}

/// A container that is being torn down.
#[derive(Debug)]
pub struct LuksTeardown {
    left: Vec<HostStep>,
}

impl LuksTeardown {
    /// The steps that are left to do.
    pub closed spec fn remaining(self) -> Seq<HostStepModel> {
        steps(self.left@)
    }

    /// The next step, if one is left. `before` is how the step before it went: the
    /// next step is the same, whatever that was, and there is no error.
    pub fn step(&mut self, before: &Option<StepOutcome>) -> (r: Option<HostStep>)
        ensures
            r is Some == (old(self).remaining().len() > 0),
            r is Some ==> r->0@ == old(self).remaining()[0] && final(self).remaining() == old(
                self).remaining().drop_first(),
            r is None ==> final(self).remaining() == old(self).remaining(),
    {
        if self.left.len() == 0 {
            return None;
        }
        let ghost whole = self.left@;
        let step: HostStep = self.left.remove(0);
        assert(steps(whole)[0] == whole[0]@);
        assert(steps(self.left@) =~= steps(whole).drop_first());
        Some(step)
    }
}

/// The teardown of a container.
pub fn teardown_luks_container(container: &str, mount_point: &str, mapper: &str) -> (r:
    LuksTeardown)
    ensures
        r.remaining() == teardown_steps(container@, mount_point@, mapper@),
{
    let mut list: Vec<HostStep> = Vec::new();
    list.push(run("umount", &["-l", mount_point]));
    assert(list@[0]@->Run_args =~= seq!["-l"@, mount_point@]);
    list.push(HostStep::RemoveDirectory { path: mount_point.to_owned() });
    list.push(run("cryptsetup", &["close", mapper]));
    assert(list@[2]@->Run_args =~= seq!["close"@, mapper@]);
    list.push(run("shred", &["-u", "-n", "1", container]));
    assert(list@[3]@->Run_args =~= seq!["-u"@, "-n"@, "1"@, container@]);
    assert(steps(list@) =~= teardown_steps(container@, mount_point@, mapper@));
    LuksTeardown { left: list }
}

/// A container that was set up, and whether it was torn down again.
#[derive(Debug)]
pub struct LuksContainer {
    container_path: String,
    mount_point: String,
    mapper_name: String,
    torn_down: bool,
}

impl LuksContainer {
    /// The file that holds the container.
    pub closed spec fn container_path(self) -> Seq<char> {
        self.container_path@
    }

    /// Where the container is mounted.
    pub closed spec fn mount_point(self) -> Seq<char> {
        self.mount_point@
    }

    /// The name of the mapped device.
    pub closed spec fn mapper_name(self) -> Seq<char> {
        self.mapper_name@
    }

    /// The container was torn down.
    pub closed spec fn torn_down(self) -> bool {
        self.torn_down
    }

    /// A container that was set up.
    pub fn new(container_path: String, mount_point: String, mapper_name: String) -> (r: Self)
        ensures
            r.container_path() == container_path@,
            r.mount_point() == mount_point@,
            r.mapper_name() == mapper_name@,
            !r.torn_down(),
    {
        LuksContainer { container_path, mount_point, mapper_name, torn_down: false }
    }

    /// What is left to do to tear the container down: all of it the first time,
    /// nothing from then on.
    pub fn teardown(&mut self) -> (r: LuksTeardown)
        ensures
            r.remaining() == (if old(self).torn_down() {
                seq![]
            } else {
                teardown_steps(
                    old(self).container_path(),
                    old(self).mount_point(),
                    old(self).mapper_name(),
                )
            }),
            final(self).torn_down(),
            final(self).container_path() == old(self).container_path(),
            final(self).mount_point() == old(self).mount_point(),
            final(self).mapper_name() == old(self).mapper_name(),
    {
        if self.torn_down {
            let none: Vec<HostStep> = Vec::new();
            assert(steps(none@) =~= seq![]);
            return LuksTeardown { left: none };
        }
        self.torn_down = true;
        teardown_luks_container(
            self.container_path.as_str(),
            self.mount_point.as_str(),
            self.mapper_name.as_str(),
        )
    }
}

} // verus!
