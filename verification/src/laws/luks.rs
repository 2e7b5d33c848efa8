//! What is done to keep a job's data encrypted at rest.

use vstd::prelude::*;

use crate::luks;
use crate::luks::HostStep;
use crate::luks::HostStepModel;
use crate::luks::LuksError;
use crate::luks::LuksSetup;
use crate::luks::SetupAction;
use crate::luks::SetupEvent;
use crate::luks::SetupMove;
use crate::luks::SetupStage;
use crate::luks::StepOutcome;
use crate::text;

verus! {

/// The name of a mapped device is a fixed prefix, then the letters, digits and hyphens
/// of the job's name in their order; any other character is left out.
pub proof fn law_mapper_names_keep_plain_characters(job_id: Seq<char>, c: char)
    ensures
        luks::mapper_name_of(Seq::<char>::empty()) == "tenxo-workspace-"@,
        luks::mapper_name_of(job_id.push(c)) == (if 97 <= c as int <= 122 || 65 <= c as int <= 90
            || 48 <= c as int <= 57 || c as int == 45 {
            luks::mapper_name_of(job_id).push(c)
        } else {
            luks::mapper_name_of(job_id)
        }),
{
    reveal(Seq::filter);
    let keep = |x: char| luks::is_name_char(x);
    assert(Seq::<char>::empty().filter(keep) =~= Seq::<char>::empty());
    assert("tenxo-workspace-"@ + Seq::<char>::empty() =~= "tenxo-workspace-"@);
    assert(job_id.push(c).drop_last() =~= job_id);
    assert("tenxo-workspace-"@ + job_id.filter(keep).push(c) =~= ("tenxo-workspace-"@
        + job_id.filter(keep)).push(c));
}

/// A container is set up by making a sparse file, formatting it and opening it with the
/// passphrase on standard input, making a file system on the opened device, making the
/// directory, mounting the device on it and opening it to all users. Each step is of
/// the one file, device and directory.
pub proof fn law_a_container_is_set_up_in_seven_steps(
    container: Seq<char>,
    mount_point: Seq<char>,
    mapper: Seq<char>,
)
    ensures
        luks::setup_steps(container, mount_point, mapper) == seq![
            HostStepModel::Run { program: "truncate"@, args: seq!["-s"@, "256M"@, container] },
            HostStepModel::Unlock {
                program: "cryptsetup"@,
                args: seq![
                    "luksFormat"@,
                    "--batch-mode"@,
                    "--type"@,
                    "luks2"@,
                    "--pbkdf"@,
                    "argon2i"@,
                    "--iter-time"@,
                    "500"@,
                    "--key-size"@,
                    "256"@,
                    "--key-file"@,
                    "-"@,
                    container,
                ],
                context: "luksFormat failed"@,
            },
            HostStepModel::Unlock {
                program: "cryptsetup"@,
                args: seq!["open"@, "--key-file"@, "-"@, container, mapper],
                context: "cryptsetup open failed"@,
            },
            HostStepModel::Run {
                program: "mkfs.ext4"@,
                args: seq!["-q"@, "/dev/mapper/"@ + mapper],
            },
            HostStepModel::MakeDirectory { path: mount_point },
            HostStepModel::Run {
                program: "mount"@,
                args: seq!["/dev/mapper/"@ + mapper, mount_point],
            },
            HostStepModel::Run { program: "chmod"@, args: seq!["1777"@, mount_point] },
        ],
{
}

/// A container is torn down by unmounting the directory and removing it, closing the
/// device and shredding the file.
pub proof fn law_a_container_is_torn_down_in_four_steps(
    container: Seq<char>,
    mount_point: Seq<char>,
    mapper: Seq<char>,
)
    ensures
        luks::teardown_steps(container, mount_point, mapper) == seq![
            HostStepModel::Run { program: "umount"@, args: seq!["-l"@, mount_point] },
            HostStepModel::RemoveDirectory { path: mount_point },
            HostStepModel::Run { program: "cryptsetup"@, args: seq!["close"@, mapper] },
            HostStepModel::Run { program: "shred"@, args: seq!["-u"@, "-n"@, "1"@, container] },
        ],
{
}

proof fn lemma_front(found: Seq<bool>, k: int)
    requires
        0 <= k <= found.len(),
        forall|i: int| 0 <= i < k ==> found[i],
        k < found.len() ==> !found[k],
    ensures
        luks::found_in_front(found) == k,
    decreases found.len(),
{
    if k > 0 {
        let rest = found.drop_first();
        assert forall|i: int| 0 <= i < k - 1 implies rest[i] by {
            assert(rest[i] == found[i + 1]);
        }
        if k - 1 < rest.len() {
            assert(rest[k - 1] == found[k]);
        }
        lemma_front(rest, k - 1);
    }
}

/// The preflight fails with the first command that was not found, of five in their
/// order; with all five found it fails just where the device mapper is missing.
pub proof fn law_preflight_names_the_first_missing(found: Seq<bool>, k: int, device_mapper: bool)
    requires
        0 <= k <= found.len(),
        forall|i: int| 0 <= i < k ==> found[i],
        k < found.len() ==> !found[k],
    ensures
        k == 0 ==> luks::preflight_error(found, device_mapper) == Some(
            "required command '"@ + "cryptsetup"@ + "' is not installed"@,
        ),
        k == 1 ==> luks::preflight_error(found, device_mapper) == Some(
            "required command '"@ + "mkfs.ext4"@ + "' is not installed"@,
        ),
        k == 2 ==> luks::preflight_error(found, device_mapper) == Some(
            "required command '"@ + "mount"@ + "' is not installed"@,
        ),
        k == 3 ==> luks::preflight_error(found, device_mapper) == Some(
            "required command '"@ + "umount"@ + "' is not installed"@,
        ),
        k == 4 ==> luks::preflight_error(found, device_mapper) == Some(
            "required command '"@ + "shred"@ + "' is not installed"@,
        ),
        k >= 5 && device_mapper ==> luks::preflight_error(found, device_mapper) is None,
        k >= 5 && !device_mapper ==> luks::preflight_error(found, device_mapper) == Some(
            "dm-crypt device mapper is unavailable (/dev/mapper/control missing); run the agent with root/CAP_SYS_ADMIN and device-mapper support"@,
        ),
{
    lemma_front(found, k);
}

/// The commands that are looked for, in their order.
pub proof fn law_five_commands_are_needed()
    ensures
        luks::tools() == seq!["cryptsetup"@, "mkfs.ext4"@, "mount"@, "umount"@, "shred"@],
{
}

/// A command did what it should just where it ended with success; otherwise the error
/// names the command with its arguments, and for one that ended how it ended and what
/// it printed.
pub proof fn law_commands_fail_unless_they_succeed(
    program: Seq<char>,
    args: Seq<Seq<char>>,
    success: bool,
    status: String,
    stderr: Vec<u8>,
    stdout: Vec<u8>,
    reason: String,
)
    ensures
        (StepOutcome::Ended { success, status, stderr, stdout }).error(program, args) == (
        if success {
            None
        } else {
            Some(
                "command "@ + program + " "@ + text::debug_list(args) + " failed with status "@
                    + status@ + ": stderr="@ + text::trimmed(text::utf8_lossy(stderr@))
                    + " stdout="@ + text::trimmed(text::utf8_lossy(stdout@)),
            )
        }),
        StepOutcome::Done.error(program, args) is None,
        (StepOutcome::Failed { reason }).error(program, args) == Some(reason@),
        StepOutcome::NotExecuted.error(program, args) == Some(
            "failed to execute: "@ + program + " "@ + text::debug_list(args),
        ),
        StepOutcome::NoStdin.error(program, args) == Some("failed to open child stdin"@),
        StepOutcome::StdinUnwritten.error(program, args) == Some(
            "failed to write stdin for "@ + program + " "@ + text::debug_list(args),
        ),
        StepOutcome::NotAwaited.error(program, args) == Some(
            "failed to wait for "@ + program + " "@ + text::debug_list(args),
        ),
{
}

/// A step fails just where its command does, with the command's error or, where it
/// unlocks, with its own; making or removing a directory fails with its reason.
pub proof fn law_steps_fail_as_their_commands_do(
    program: Seq<char>,
    args: Seq<Seq<char>>,
    context: Seq<char>,
    path: Seq<char>,
    outcome: StepOutcome,
    reason: String,
)
    ensures
        (HostStepModel::Run { program, args }).error(outcome) == outcome.error(program, args),
        (HostStepModel::Unlock { program, args, context }).error(outcome) == (
        if outcome.error(program, args) is Some {
            Some(context)
        } else {
            None
        }),
        (HostStepModel::MakeDirectory { path }).error(outcome) == outcome.error(
            "mkdir"@,
            seq![path],
        ),
        (HostStepModel::RemoveDirectory { path }).error(outcome) == outcome.error(
            "rmdir"@,
            seq![path],
        ),
        (HostStepModel::MakeDirectory { path }).error(StepOutcome::Done) is None,
        (HostStepModel::RemoveDirectory { path }).error(StepOutcome::Done) is None,
        (HostStepModel::MakeDirectory { path }).error(StepOutcome::Failed { reason }) == Some(
            reason@,
        ),
        (HostStepModel::RemoveDirectory { path }).error(StepOutcome::Failed { reason }) == Some(
            reason@,
        ),
{
}

/// A setup begins with the preflight. It goes from one step to the next just where the
/// step succeeded, ends with the container after the last, and ends at once with the
/// error of what failed.
pub proof fn law_setups_go_step_by_step(
    setup: LuksSetup,
    found: Vec<bool>,
    device_mapper: bool,
    outcome: StepOutcome,
    index: usize,
)
    requires
        index < 7,
    ensures
        ({
            let plan = luks::setup_steps(setup.container(), setup.mount_point(), setup.mapper());
            let checked = SetupEvent::Checked { found, device_mapper };
            let done = SetupEvent::Performed { outcome };
            &&& setup.stage() == SetupStage::Preflight ==> {
                &&& setup.awaits(checked) && !setup.awaits(done)
                &&& luks::preflight_error(found@, device_mapper) is None ==> setup.move_on(checked)
                    == Ok::<SetupMove, Seq<char>>(SetupMove::Perform { step: plan[0] })
                    && setup.stage_after(checked) == (SetupStage::Step { index: 0 })
                &&& luks::preflight_error(found@, device_mapper) matches Some(error)
                    ==> setup.move_on(checked) == Err::<SetupMove, Seq<char>>(error)
                    && setup.stage_after(checked) == SetupStage::Finished
            }
            &&& setup.stage() == (SetupStage::Step { index }) ==> {
                &&& setup.awaits(done) && !setup.awaits(checked)
                &&& plan[index as int].error(outcome) matches Some(error) ==> setup.move_on(done)
                    == Err::<SetupMove, Seq<char>>(error) && setup.stage_after(done)
                    == SetupStage::Finished
                &&& plan[index as int].error(outcome) is None && index < 6 ==> setup.move_on(done)
                    == Ok::<SetupMove, Seq<char>>(SetupMove::Perform { step: plan[index + 1] })
                    && setup.stage_after(done) == (SetupStage::Step { index: (index + 1) as usize })
                &&& plan[index as int].error(outcome) is None && index == 6 ==> setup.move_on(done)
                    == Ok::<SetupMove, Seq<char>>(
                    SetupMove::Done {
                        container_path: setup.container(),
                        mount_point: setup.mount_point(),
                        mapper_name: setup.mapper(),
                    },
                ) && setup.stage_after(done) == SetupStage::Finished
            }
            &&& setup.stage() == SetupStage::Finished ==> !setup.awaits(done) && !setup.awaits(
                checked,
            )
        }),
{
}

/// A step shows what it holds, and so does what a setup asks for.
pub proof fn law_steps_show_what_they_hold(
    step: HostStep,
    list: Seq<HostStep>,
    action: SetupAction,
)
    ensures
        step@ == (match step {
            HostStep::Run { program, args } => HostStepModel::Run {
                program: program@,
                args: text::texts(args@),
            },
            HostStep::Unlock { program, args, context } => HostStepModel::Unlock {
                program: program@,
                args: text::texts(args@),
                context: context@,
            },
            HostStep::MakeDirectory { path } => HostStepModel::MakeDirectory { path: path@ },
            HostStep::RemoveDirectory { path } => HostStepModel::RemoveDirectory { path: path@ },
        }),
        luks::steps(list).len() == list.len(),
        forall|i: int| 0 <= i < list.len() ==> #[trigger] luks::steps(list)[i] == list[i]@,
        action@ == (match action {
            SetupAction::Perform { step } => SetupMove::Perform { step: step@ },
            SetupAction::Done { container } => SetupMove::Done {
                container_path: container.container_path(),
                mount_point: container.mount_point(),
                mapper_name: container.mapper_name(),
            },
        }),
{
}

/// Each error tells what failed, with all that is known of it.
pub proof fn law_luks_errors_tell_what_failed(
    tool: String,
    context: String,
    program: String,
    args: Vec<String>,
    status: String,
    stderr: String,
    stdout: String,
)
    ensures
        (LuksError::ToolMissing { tool }).text() == "required command '"@ + tool@
            + "' is not installed"@,
        LuksError::NoDeviceMapper.text()
            == "dm-crypt device mapper is unavailable (/dev/mapper/control missing); run the agent with root/CAP_SYS_ADMIN and device-mapper support"@,
        (LuksError::StepFailed { context }).text() == context@,
        (LuksError::Io { reason: context }).text() == context@,
        LuksError::NoStdin.text() == "failed to open child stdin"@,
        (LuksError::NotExecuted { program, args }).text() == "failed to execute: "@ + program@
            + " "@ + text::debug_list(text::texts(args@)),
        (LuksError::StdinUnwritten { program, args }).text() == "failed to write stdin for "@
            + program@ + " "@ + text::debug_list(text::texts(args@)),
        (LuksError::NotAwaited { program, args }).text() == "failed to wait for "@ + program@
            + " "@ + text::debug_list(text::texts(args@)),
        (LuksError::CommandFailed { program, args, status, stderr, stdout }).text() == "command "@
            + program@ + " "@ + text::debug_list(text::texts(args@)) + " failed with status "@
            + status@ + ": stderr="@ + stderr@ + " stdout="@ + stdout@,
{
}

} // verus!
