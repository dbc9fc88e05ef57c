use kernel_updater::args::{Arguments, Commands};
use kernel_updater::command::{Action, Invocation};
use kernel_updater::error::UpdateError;
use kernel_updater::process::{removal, Outcome, Removal};
use kernel_updater::workflow::{Stage, Workflow, RESERVED_CORES};

const STATUS: &str = "nvidia/550.135, 6.11.10-ClaudioFSR, x86_64: installed\n\
                      nvidia/550.135, 6.12.4-ClaudioFSR, x86_64: installed\n";

fn start(command: Option<Commands>) -> Workflow {
    Workflow::new(Arguments { old: "6.11.10".to_string(), new: "6.12.4".to_string(), command })
}

fn run_action(program: &str, args: &[&str]) -> Action {
    Action::Run {
        command: Invocation {
            program: program.to_string(),
            args: args.iter().map(|arg| arg.to_string()).collect(),
        },
    }
}

fn capture_action(program: &str, args: &[&str]) -> Action {
    Action::Capture {
        command: Invocation {
            program: program.to_string(),
            args: args.iter().map(|arg| arg.to_string()).collect(),
        },
    }
}

/// What a machine on which everything works answers: eight threads, the
/// status report above, success otherwise.
fn all_is_well(action: &Action) -> Outcome {
    match action {
        Action::QueryParallelism => Outcome::Parallelism { count: 8 },
        Action::Capture { .. } => Outcome::Captured { stdout: STATUS.as_bytes().to_vec() },
        _ => Outcome::Succeeded,
    }
}

/// Runs the workflow to its end against `machine`, and returns the actions
/// that it handed out with how it ended.
fn drive(
    mut workflow: Workflow,
    machine: &dyn Fn(&Action) -> Outcome,
) -> (Vec<Action>, Option<Result<(), UpdateError>>) {
    let mut trace = Vec::new();
    while let Some(action) = workflow.next() {
        assert!(!workflow.is_finished());
        assert_eq!(workflow.result(), None);
        let outcome = machine(&action);
        trace.push(action);
        workflow = workflow.advance(&outcome);
        assert!(trace.len() <= 100);
    }
    assert!(workflow.is_finished());
    (trace, workflow.result())
}

fn compile_actions() -> Vec<Action> {
    vec![
        Action::QueryParallelism,
        run_action("wget", &["https://cdn.kernel.org/pub/linux/kernel/v6.x/linux-6.12.4.tar.xz"]),
        run_action("tar", &["-Jxvf", "linux-6.12.4.tar.xz"]),
        Action::CreateDirAll { path: "/lib/modules/linux-6.12.4".to_string() },
        Action::ChangeDir { path: "/lib/modules/linux-6.12.4".to_string() },
        run_action("cp", &["/lib/modules/config-ClaudioFSR", ".config"]),
        run_action("make", &["-j", "7"]),
        run_action("make", &["modules_install"]),
        run_action("/usr/bin/cp", &["-fv", "arch/x86/boot/bzImage", "/boot/vmlinuz-6.12"]),
        Action::ChangeDir { path: "/lib/modules".to_string() },
    ]
}

fn dkms_actions() -> Vec<Action> {
    vec![
        capture_action("dkms", &["status"]),
        run_action(
            "dkms",
            &["install", "--force", "--no-depmod", "nvidia/550.135", "-k", "6.12.4-ClaudioFSR"],
        ),
        Action::RemoveFile {
            path: "/var/lib/dkms/nvidia/kernel-6.11.10-ClaudioFSR-x86_64".to_string(),
        },
        Action::RemoveDirAll {
            path: "/var/lib/dkms/nvidia/550.135/6.11.10-ClaudioFSR".to_string(),
        },
    ]
}

fn finish_actions() -> Vec<Action> {
    vec![run_action("mkinitcpio", &["-p", "linux612_ClaudioFSR"]), run_action("update-grub", &[])]
}

fn failed(stderr: &[u8]) -> Outcome {
    Outcome::Failed { status: Some(2), stderr: stderr.to_vec() }
}

fn command_error(program: &str, status: Option<i32>, stderr: &str) -> UpdateError {
    UpdateError::CommandFailed { program: program.to_string(), status, stderr: stderr.to_string() }
}

fn launch_error(program: &str, args: &[&str]) -> UpdateError {
    UpdateError::LaunchError {
        program: program.to_string(),
        args: args.iter().map(|arg| arg.to_string()).collect(),
    }
}

fn is_deletion(action: &Action) -> bool {
    matches!(action, Action::RemoveFile { .. } | Action::RemoveDirAll { .. })
}

fn is_build(action: &Action) -> bool {
    *action == run_action("make", &["-j", "7"])
}

#[test]
fn one_core_is_reserved() {
    assert_eq!(RESERVED_CORES, 1);
}

#[test]
fn full_upgrade_runs_every_step_once_in_order() {
    let (trace, result) = drive(start(None), &all_is_well);
    let mut expected = compile_actions();
    expected.extend(dkms_actions());
    expected.extend(finish_actions());
    assert_eq!(trace, expected);
    assert_eq!(result, Some(Ok(())));
}

#[test]
fn full_upgrade_runs_the_twelve_tools_in_order() {
    let (trace, result) = drive(start(None), &all_is_well);
    let tools: Vec<String> = trace
        .iter()
        .filter(|action| {
            !matches!(
                action,
                Action::QueryParallelism | Action::CreateDirAll { .. } | Action::ChangeDir { .. }
            )
        })
        .map(|action| match action {
            Action::Run { command } => format!("{} {}", command.program, command.args.join(" ")),
            Action::Capture { command } => {
                format!("{} {}", command.program, command.args.join(" "))
            },
            Action::RemoveFile { path } => format!("remove file {}", path),
            Action::RemoveDirAll { path } => format!("remove dir {}", path),
            _ => unreachable!(),
        })
        .collect();
    let expected = vec![
        "wget https://cdn.kernel.org/pub/linux/kernel/v6.x/linux-6.12.4.tar.xz",
        "tar -Jxvf linux-6.12.4.tar.xz",
        "cp /lib/modules/config-ClaudioFSR .config",
        "make -j 7",
        "make modules_install",
        "/usr/bin/cp -fv arch/x86/boot/bzImage /boot/vmlinuz-6.12",
        "dkms status",
        "dkms install --force --no-depmod nvidia/550.135 -k 6.12.4-ClaudioFSR",
        "remove file /var/lib/dkms/nvidia/kernel-6.11.10-ClaudioFSR-x86_64",
        "remove dir /var/lib/dkms/nvidia/550.135/6.11.10-ClaudioFSR",
        "mkinitcpio -p linux612_ClaudioFSR",
        "update-grub ",
    ];
    assert_eq!(tools, expected);
    assert_eq!(result, Some(Ok(())));
}

#[test]
fn failed_build_stops_the_upgrade() {
    let machine = |action: &Action| {
        if is_build(action) {
            failed(b"")
        } else {
            all_is_well(action)
        }
    };
    let (trace, result) = drive(start(None), &machine);
    assert_eq!(trace.as_slice(), &compile_actions()[..7]);
    assert_eq!(result, Some(Err(command_error("make", Some(2), ""))));
}

#[test]
fn failed_build_runs_nothing_after_it() {
    let machine = |action: &Action| {
        if is_build(action) {
failed(b"make: *** Error 2")
        } else {
            all_is_well(action)
        }
    };
    let (trace, result) = drive(start(None), &machine);
    assert!(is_build(trace.last().unwrap()));
    assert!(!trace.contains(&run_action("make", &["modules_install"])));
    assert!(!trace.iter().any(|action| action.subject() == "/usr/bin/cp"));
    assert!(!trace.iter().any(|action| action.subject() == "dkms"));
    assert!(!trace.iter().any(|action| action.subject() == "mkinitcpio"));
    assert!(!trace.iter().any(|action| action.subject() == "update-grub"));
    match result {
        Some(Err(e)) => assert_eq!(
            e.message(),
            "Command failed: make with status: 2\nError: make: *** Error 2"
        ),
        other => panic!("the upgrade ended with {:?}", other),
    }
}

#[test]
fn dkms_install_alone_skips_the_build() {
    let (trace, result) = drive(start(Some(Commands::DkmsInstall)), &all_is_well);
    let mut expected = dkms_actions();
    expected.extend(finish_actions());
    assert_eq!(trace, expected);
    assert_eq!(result, Some(Ok(())));
    for action in compile_actions() {
        assert!(!trace.contains(&action));
    }
}

#[test]
fn kernel_compile_alone_skips_the_driver() {
    let (trace, result) = drive(start(Some(Commands::KernelCompile)), &all_is_well);
    let mut expected = compile_actions();
    expected.extend(finish_actions());
    assert_eq!(trace, expected);
    assert_eq!(result, Some(Ok(())));
}

#[test]
fn missing_stale_files_are_no_error() {
    let machine = |action: &Action| {
        if is_deletion(action) {
            Outcome::Absent
        } else {
            all_is_well(action)
        }
    };
    let (trace, result) = drive(start(Some(Commands::DkmsInstall)), &machine);
    let mut expected = dkms_actions();
    expected.extend(finish_actions());
    assert_eq!(trace, expected);
    assert_eq!(result, Some(Ok(())));
}

#[test]
fn cleanup_of_what_is_gone_reports_not_found_every_time() {
    let path = "/var/lib/dkms/nvidia/kernel-6.11.10-ClaudioFSR-x86_64";
    assert_eq!(removal(path, &Outcome::Absent), Ok(Removal::NotFound));
    assert_eq!(removal(path, &Outcome::Absent), Ok(Removal::NotFound));
    for _ in 0..2 {
        let machine = |action: &Action| {
            if is_deletion(action) {
                Outcome::Absent
            } else {
                all_is_well(action)
            }
        };
        let (trace, result) = drive(start(Some(Commands::DkmsInstall)), &machine);
        assert_eq!(trace.len(), 6);
        assert_eq!(result, Some(Ok(())));
    }
}

#[test]
fn stale_file_that_cannot_be_deleted_stops_the_upgrade() {
    let machine = |action: &Action| match action {
        Action::RemoveFile { .. } => {
            Outcome::Failed { status: None, stderr: b"Permission denied (os error 13)".to_vec() }
        },
        _ => all_is_well(action),
    };
    let (trace, result) = drive(start(Some(Commands::DkmsInstall)), &machine);
    assert_eq!(trace.as_slice(), &dkms_actions()[..3]);
    assert_eq!(
        result,
        Some(Err(command_error(
            "/var/lib/dkms/nvidia/kernel-6.11.10-ClaudioFSR-x86_64",
            None,
            "Permission denied (os error 13)"
        )))
    );
}

#[test]
fn stale_directory_that_cannot_be_deleted_stops_the_upgrade() {
    let machine = |action: &Action| match action {
        Action::RemoveFile { .. } => Outcome::Absent,
        Action::RemoveDirAll { .. } => {
            Outcome::Failed { status: None, stderr: b"Directory not empty".to_vec() }
        },
        _ => all_is_well(action),
    };
    let (trace, result) = drive(start(None), &machine);
    assert_eq!(trace.len(), 14);
    assert!(!trace.iter().any(|action| action.subject() == "mkinitcpio"));
    assert!(!trace.iter().any(|action| action.subject() == "update-grub"));
    assert_eq!(
        result,
        Some(Err(command_error(
            "/var/lib/dkms/nvidia/550.135/6.11.10-ClaudioFSR",
            None,
            "Directory not empty"
        )))
    );
}

#[test]
fn deletion_that_was_not_tried_stops_the_upgrade() {
    let machine = |action: &Action| {
        if is_deletion(action) {
            Outcome::NotStarted
        } else {
            all_is_well(action)
        }
    };
    let (trace, result) = drive(start(Some(Commands::DkmsInstall)), &machine);
    assert_eq!(trace.len(), 3);
    assert_eq!(
        result,
        Some(Err(launch_error("/var/lib/dkms/nvidia/kernel-6.11.10-ClaudioFSR-x86_64", &[])))
    );
}

#[test]
fn absence_excuses_deletions_only() {
    let machine = |action: &Action| match action {
        Action::ChangeDir { .. } => Outcome::Absent,
        _ => all_is_well(action),
    };
    let (trace, result) = drive(start(None), &machine);
    assert_eq!(trace.len(), 5);
    assert_eq!(result, Some(Err(launch_error("/lib/modules/linux-6.12.4", &[]))));
}

#[test]
fn job_count_comes_from_the_host() {
    let machine = |action: &Action| match action {
        Action::QueryParallelism => Outcome::Parallelism { count: 1 },
        _ => all_is_well(action),
    };
    let (trace, result) = drive(start(Some(Commands::KernelCompile)), &machine);
    assert_eq!(trace[6], run_action("make", &["-j", "1"]));
    assert_eq!(result, Some(Ok(())));
    let machine = |action: &Action| match action {
        Action::QueryParallelism => Outcome::Parallelism { count: 32 },
        _ => all_is_well(action),
    };
    let (trace, _) = drive(start(None), &machine);
    assert_eq!(trace[6], run_action("make", &["-j", "31"]));
}

#[test]
fn host_without_answer_stops_before_the_download() {
    for answer in [0usize, 1, 2] {
        let machine = move |action: &Action| match action {
            Action::QueryParallelism => match answer {
                0 => Outcome::NotStarted,
                1 => Outcome::Parallelism { count: 0 },
                _ => Outcome::Failed { status: Some(1), stderr: Vec::new() },
            },
            _ => all_is_well(action),
        };
        let (trace, result) = drive(start(None), &machine);
        assert_eq!(trace, vec![Action::QueryParallelism]);
        assert_eq!(result, Some(Err(UpdateError::ParallelismUnavailable)));
    }
}

#[test]
fn status_without_driver_stops_before_the_install() {
    let machine = |action: &Action| match action {
        Action::Capture { .. } => Outcome::Captured { stdout: b"zfs/2.2, 6.12.4\n".to_vec() },
        _ => all_is_well(action),
    };
    let (trace, result) = drive(start(Some(Commands::DkmsInstall)), &machine);
    assert_eq!(trace, vec![capture_action("dkms", &["status"])]);
    assert_eq!(result, Some(Err(UpdateError::ModuleNotFound)));
}

#[test]
fn malformed_status_stops_before_the_install() {
    let machine = |action: &Action| match action {
        Action::Capture { .. } => Outcome::Captured { stdout: b"nvidia 550.135\n".to_vec() },
        _ => all_is_well(action),
    };
    let (trace, result) = drive(start(Some(Commands::DkmsInstall)), &machine);
    assert_eq!(trace.len(), 1);
    assert_eq!(result, Some(Err(UpdateError::ParseError)));
}

#[test]
fn undecodable_status_stops_before_the_install() {
    let machine = |action: &Action| match action {
        Action::Capture { .. } => Outcome::Captured { stdout: vec![b'n', 0xff] },
        _ => all_is_well(action),
    };
    let (trace, result) = drive(start(Some(Commands::DkmsInstall)), &machine);
    assert_eq!(trace.len(), 1);
    assert_eq!(result, Some(Err(UpdateError::DecodeError { program: "dkms".to_string() })));
}

#[test]
fn failed_status_query_carries_its_error_stream() {
    let machine = |action: &Action| match action {
        Action::Capture { .. } => failed(b"dkms: not root"),
        _ => all_is_well(action),
    };
    let (trace, result) = drive(start(None), &machine);
    assert_eq!(trace.len(), 11);
    assert_eq!(
        result,
        Some(Err(command_error("dkms", Some(2), "dkms: not root")))
    );
}

#[test]
fn missing_program_stops_the_upgrade() {
    let machine = |action: &Action| match action {
        Action::Run { command } if command.program == "wget" => Outcome::NotStarted,
        _ => all_is_well(action),
    };
    let (trace, result) = drive(start(None), &machine);
    assert_eq!(trace.len(), 2);
    assert_eq!(
        result,
        Some(Err(launch_error(
            "wget",
            &["https://cdn.kernel.org/pub/linux/kernel/v6.x/linux-6.12.4.tar.xz"]
        )))
    );
}

#[test]
fn launch_error_of_the_build_tells_its_arguments() {
    let machine = |action: &Action| {
        if is_build(action) {
            Outcome::NotStarted
        } else {
            all_is_well(action)
        }
    };
    let (_, result) = drive(start(None), &machine);
    assert_eq!(result, Some(Err(launch_error("make", &["-j", "7"]))));
    match result {
        Some(Err(e)) => assert_eq!(e.message(), "Failed to run make -j 7"),
        other => panic!("the upgrade ended with {:?}", other),
    }
}

#[test]
fn failed_directory_change_names_the_path() {
    let machine = |action: &Action| match action {
        Action::ChangeDir { .. } => {
            Outcome::Failed { status: None, stderr: b"Permission denied".to_vec() }
        },
        _ => all_is_well(action),
    };
    let (trace, result) = drive(start(None), &machine);
    assert_eq!(trace.len(), 5);
    assert_eq!(
        result,
        Some(Err(command_error("/lib/modules/linux-6.12.4", None, "Permission denied")))
    );
}

#[test]
fn failed_initramfs_skips_the_bootloader() {
    let machine = |action: &Action| match action {
        Action::Run { command } if command.program == "mkinitcpio" => failed(b""),
        _ => all_is_well(action),
    };
    let (trace, result) = drive(start(Some(Commands::DkmsInstall)), &machine);
    assert_eq!(trace.len(), 5);
    assert!(!trace.contains(&run_action("update-grub", &[])));
    assert_eq!(result, Some(Err(command_error("mkinitcpio", Some(2), ""))));
}

#[test]
fn failed_bootloader_fails_the_upgrade() {
    let machine = |action: &Action| match action {
        Action::Run { command } if command.program == "update-grub" => Outcome::NotStarted,
        _ => all_is_well(action),
    };
    let (trace, result) = drive(start(None), &machine);
    assert_eq!(trace.len(), 16);
    assert_eq!(result, Some(Err(launch_error("update-grub", &[]))));
}

#[test]
fn ended_upgrade_ignores_further_reports() {
    let mut workflow = start(Some(Commands::DkmsInstall));
    workflow = workflow.advance(&Outcome::NotStarted);
    let failure = Some(Err(launch_error("dkms", &["status"])));
    assert_eq!(workflow.result(), failure);
    for outcome in [Outcome::Succeeded, failed(b""), Outcome::Absent] {
        workflow = workflow.advance(&outcome);
        assert_eq!(workflow.next(), None);
        assert_eq!(workflow.result(), failure);
    }
    let (_, result) = drive(start(None), &all_is_well);
    assert_eq!(result, Some(Ok(())));
}

#[test]
fn next_does_not_move_the_upgrade() {
    let workflow = start(None);
    assert_eq!(workflow.next(), Some(Action::QueryParallelism));
    assert_eq!(workflow.next(), Some(Action::QueryParallelism));
    let workflow = workflow.advance(&Outcome::Parallelism { count: 4 });
    let download = workflow.next();
    assert_eq!(download, workflow.next());
    assert_eq!(download.map(|action| action.subject()), Some("wget".to_string()));
}

#[test]
fn versions_are_used_as_they_are_given() {
    let workflow = Workflow::new(Arguments {
        old: "old one".to_string(),
        new: "".to_string(),
        command: Some(Commands::DkmsInstall),
    });
    let (trace, result) = drive(workflow, &all_is_well);
    assert_eq!(
        trace[1],
        run_action(
            "dkms",
            &["install", "--force", "--no-depmod", "nvidia/550.135", "-k", "-ClaudioFSR"]
        )
    );
    assert_eq!(
        trace[2],
        Action::RemoveFile {
            path: "/var/lib/dkms/nvidia/kernel-old one-ClaudioFSR-x86_64".to_string()
        }
    );
    assert_eq!(result, Some(Ok(())));
}

#[test]
fn capture_that_brings_no_output_finds_no_driver() {
    let machine = |action: &Action| match action {
        Action::Capture { .. } => Outcome::Succeeded,
        _ => all_is_well(action),
    };
    let (trace, result) = drive(start(Some(Commands::DkmsInstall)), &machine);
    assert_eq!(trace.len(), 1);
    assert_eq!(result, Some(Err(UpdateError::ModuleNotFound)));
}

#[test]
fn captured_output_of_a_plain_run_counts_as_success() {
    let machine = |action: &Action| match action {
        Action::QueryParallelism => Outcome::Parallelism { count: 8 },
        _ => Outcome::Captured { stdout: STATUS.as_bytes().to_vec() },
    };
    let (trace, result) = drive(start(None), &machine);
    assert_eq!(trace.len(), 16);
    assert_eq!(result, Some(Ok(())));
}

#[test]
fn host_report_is_no_answer_to_a_command() {
    let machine = |_: &Action| Outcome::Parallelism { count: 8 };
    let (trace, result) = drive(start(Some(Commands::KernelCompile)), &machine);
    assert_eq!(trace.len(), 2);
    assert_eq!(
        result,
        Some(Err(launch_error(
            "wget",
            &["https://cdn.kernel.org/pub/linux/kernel/v6.x/linux-6.12.4.tar.xz"]
        )))
    );
    let (trace, result) = drive(start(Some(Commands::DkmsInstall)), &machine);
    assert_eq!(trace.len(), 1);
    assert_eq!(result, Some(Err(launch_error("dkms", &["status"]))));
}

#[test]
fn command_outcome_is_no_answer_to_the_host_query() {
    for outcome in [Outcome::Succeeded, Outcome::Captured { stdout: b"8".to_vec() }] {
        let workflow = start(None).advance(&outcome);
        assert_eq!(workflow.next(), None);
        assert_eq!(workflow.result(), Some(Err(UpdateError::ParallelismUnavailable)));
    }
}

#[test]
fn stage_and_what_was_resolved_can_be_read() {
    let mut workflow = start(None);
    assert_eq!(workflow.stage(), Some(Stage::Compile));
    assert_eq!(workflow.cores(), "");
    workflow = workflow.advance(&Outcome::Parallelism { count: 8 });
    assert_eq!(workflow.cores(), "7");
    assert_eq!(workflow.stage(), Some(Stage::Compile));
    for _ in 0..9 {
        workflow = workflow.advance(&Outcome::Succeeded);
    }
    assert_eq!(workflow.stage(), Some(Stage::Dkms));
    assert_eq!(workflow.driver(), "");
    workflow = workflow.advance(&Outcome::Captured { stdout: STATUS.as_bytes().to_vec() });
    assert_eq!(workflow.driver(), "550.135");
    workflow = workflow.advance(&Outcome::Succeeded);
    workflow = workflow.advance(&Outcome::Absent);
    workflow = workflow.advance(&Outcome::Succeeded);
    assert_eq!(workflow.stage(), Some(Stage::Finish));
    workflow = workflow.advance(&Outcome::Succeeded);
    workflow = workflow.advance(&Outcome::Succeeded);
    assert_eq!(workflow.stage(), None);
    assert_eq!(workflow.result(), Some(Ok(())));
    assert_eq!(workflow.cores(), "7");
    assert_eq!(workflow.driver(), "550.135");
}

#[test]
fn stage_of_a_failed_upgrade_is_where_it_stopped() {
    let workflow = start(Some(Commands::DkmsInstall)).advance(&Outcome::NotStarted);
    assert_eq!(workflow.stage(), Some(Stage::Dkms));
    assert!(workflow.is_finished());
}
