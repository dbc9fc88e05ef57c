//! The stages of an upgrade as lists of actions: which commands, with which
//! arguments, on which paths.

use crate::command::{action_views, texts, Action, ActionView, Invocation, InvocationView};
use crate::dkms::DRIVER;
use vstd::prelude::*;
use vstd::string::*;

verus! {

/// Where kernel sources are published.
pub const KERNEL_URL_BASE: &'static str = "https://cdn.kernel.org/pub/linux/kernel/v6.x";

/// The directory under which kernels are built, and which holds their modules.
pub const KERNEL_SRC_BASE: &'static str = "/lib/modules";

/// The boot image as the build leaves it, relative to the source directory.
pub const BOOT_IMAGE: &'static str = "arch/x86/boot/bzImage";

/// Where the boot image is installed.
pub const BOOT_TARGET: &'static str = "/boot/vmlinuz-6.12";

/// What follows a kernel's version in the name of the kernel as it is built.
pub const KERNEL_SUFFIX: &'static str = "-ClaudioFSR";

/// The preset from which the initramfs is generated.
pub const INITRAMFS_PRESET: &'static str = "linux612_ClaudioFSR";

/// The module manager's directory for the driver.
pub const DKMS_TREE: &'static str = "/var/lib/dkms/nvidia";

/// The name of the source archive of kernel `version`.
pub open spec fn tarball_of(version: Seq<char>) -> Seq<char> {
    "linux-"@ + version + ".tar.xz"@
}

/// The address of the source archive of kernel `version`.
pub open spec fn tarball_url_of(version: Seq<char>) -> Seq<char> {
    KERNEL_URL_BASE@ + "/"@ + tarball_of(version)
}

/// The directory in which kernel `version` is built.
pub open spec fn source_dir_of(version: Seq<char>) -> Seq<char> {
    KERNEL_SRC_BASE@ + "/linux-"@ + version
}

/// The kernel configuration that every build starts from.
pub open spec fn config_file() -> Seq<char> {
    KERNEL_SRC_BASE@ + "/config"@ + KERNEL_SUFFIX@
}

/// The name under which kernel `version` is installed.
pub open spec fn kernel_id_of(version: Seq<char>) -> Seq<char> {
    version + KERNEL_SUFFIX@
}

/// The driver module of version `driver`, as the module manager names it.
pub open spec fn module_of(driver: Seq<char>) -> Seq<char> {
    DRIVER@ + "/"@ + driver
}

/// The file that the module manager leaves behind for kernel `version`.
pub open spec fn stale_file_of(version: Seq<char>) -> Seq<char> {
    DKMS_TREE@ + "/kernel-"@ + kernel_id_of(version) + "-x86_64"@
}

/// The directory that the module manager leaves behind for kernel `version`
/// and the driver of version `driver`.
pub open spec fn stale_dir_of(driver: Seq<char>, version: Seq<char>) -> Seq<char> {
    DKMS_TREE@ + "/"@ + driver + "/"@ + kernel_id_of(version)
}

/// Running `program` with `args` for its effect.
pub open spec fn run_of(program: Seq<char>, args: Seq<Seq<char>>) -> ActionView {
    ActionView::Run { command: InvocationView { program, args } }
}

/// The actions that build and install kernel `version` with `cores` jobs:
/// download, extract, make and enter the source directory, configure, build,
/// install the modules, install the boot image, leave the source directory.
pub open spec fn compile_plan(version: Seq<char>, cores: Seq<char>) -> Seq<ActionView> {
    seq![
        run_of("wget"@, seq![tarball_url_of(version)]),
        run_of("tar"@, seq!["-Jxvf"@, tarball_of(version)]),
        ActionView::CreateDirAll { path: source_dir_of(version) },
        ActionView::ChangeDir { path: source_dir_of(version) },
        run_of("cp"@, seq![config_file(), ".config"@]),
        run_of("make"@, seq!["-j"@, cores]),
        run_of("make"@, seq!["modules_install"@]),
        run_of("/usr/bin/cp"@, seq!["-fv"@, BOOT_IMAGE@, BOOT_TARGET@]),
        ActionView::ChangeDir { path: KERNEL_SRC_BASE@ },
    ]
}

/// Asking the module manager for its status report.
pub open spec fn status_query() -> ActionView {
    ActionView::Capture { command: InvocationView { program: "dkms"@, args: seq!["status"@] } }
}

/// Installing the driver of version `driver` for kernel `version` anew,
/// without a module dependency scan.
pub open spec fn install_of(driver: Seq<char>, version: Seq<char>) -> ActionView {
    run_of(
        "dkms"@,
        seq![
            "install"@,
            "--force"@,
            "--no-depmod"@,
            module_of(driver),
            "-k"@,
            kernel_id_of(version),
        ],
    )
}

/// The two deletions of what the module manager left behind for kernel
/// `old`: first the file, then the directory.
pub open spec fn cleanup_plan(old: Seq<char>, driver: Seq<char>) -> Seq<ActionView> {
    seq![
        ActionView::RemoveFile { path: stale_file_of(old) },
        ActionView::RemoveDirAll { path: stale_dir_of(driver, old) },
    ]
}

/// The actions that follow the status report: install the driver for kernel
/// `new`, then clean up after kernel `old`.
pub open spec fn dkms_plan(old: Seq<char>, new: Seq<char>, driver: Seq<char>) -> Seq<ActionView> {
    seq![install_of(driver, new)] + cleanup_plan(old, driver)
}

/// Generating the initramfs from its preset.
pub open spec fn initramfs_action() -> ActionView {
    run_of("mkinitcpio"@, seq!["-p"@, INITRAMFS_PRESET@])
}

/// Refreshing the bootloader's configuration.
pub open spec fn bootloader_action() -> ActionView {
    run_of("update-grub"@, Seq::empty())
}

/// The two actions that end every upgrade.
pub open spec fn finish_plan() -> Seq<ActionView> {
    seq![initramfs_action(), bootloader_action()]
}

/// Builds the action that runs `program` with `args`.
fn run(program: &str, args: Vec<String>) -> (action: Action)
    ensures
        action@ == run_of(program@, texts(args@)),
{
    Action::Run { command: Invocation { program: String::from_str(program), args } }
}

/// One argument.
fn args1(a: String) -> (args: Vec<String>)
    ensures
        texts(args@) == seq![a@],
{
    let mut args: Vec<String> = Vec::new();
    args.push(a);
    args
}

/// Two arguments.
fn args2(a: String, b: String) -> (args: Vec<String>)
    ensures
        texts(args@) == seq![a@, b@],
{
    let mut args: Vec<String> = Vec::new();
    args.push(a);
    args.push(b);
    args
}

/// Three arguments.
fn args3(a: String, b: String, c: String) -> (args: Vec<String>)
    ensures
        texts(args@) == seq![a@, b@, c@],
{
    let mut args: Vec<String> = Vec::new();
    args.push(a);
    args.push(b);
    args.push(c);
    args
}

/// The name under which kernel `version` is installed.
fn kernel_id(version: &str) -> (id: String)
    ensures
        id@ == kernel_id_of(version@),
{
    String::from_str(version).concat(KERNEL_SUFFIX)
}

/// Plans the build and installation of kernel `kernel_new` with `cores` jobs.
pub fn kernel_compile(kernel_new: &str, cores: &str) -> (plan: Vec<Action>)
    ensures
        action_views(plan@) == compile_plan(kernel_new@, cores@),
{
    let tarball = String::from_str("linux-").concat(kernel_new).concat(".tar.xz");
    let link = String::from_str(KERNEL_URL_BASE).concat("/").concat(tarball.as_str());
    let source_dir = String::from_str(KERNEL_SRC_BASE).concat("/linux-").concat(kernel_new);
    let config = String::from_str(KERNEL_SRC_BASE).concat("/config").concat(KERNEL_SUFFIX);

    let mut plan: Vec<Action> = Vec::new();
    plan.push(run("wget", args1(link)));
    plan.push(run("tar", args2(String::from_str("-Jxvf"), tarball)));
    plan.push(Action::CreateDirAll { path: source_dir.clone() });
    plan.push(Action::ChangeDir { path: source_dir });
    plan.push(run("cp", args2(config, String::from_str(".config"))));
    plan.push(run("make", args2(String::from_str("-j"), String::from_str(cores))));
    plan.push(run("make", args1(String::from_str("modules_install"))));
    plan.push(
        run(
            "/usr/bin/cp",
            args3(
                String::from_str("-fv"),
                String::from_str(BOOT_IMAGE),
                String::from_str(BOOT_TARGET),
            ),
        ),
    );
    plan.push(Action::ChangeDir { path: String::from_str(KERNEL_SRC_BASE) });
    plan
}

/// Plans the query for the module manager's status report.
pub fn dkms_status() -> (action: Action)
    ensures
        action@ == status_query(),
{
    Action::Capture {
        command: Invocation {
            program: String::from_str("dkms"),
            args: args1(String::from_str("status")),
        },
    }
}

/// Plans the deletion of what the module manager left behind for kernel
/// `kernel_old` and the driver of version `dkms_versao`.
pub fn remove_dkms_files(kernel_old: &str, dkms_versao: &str) -> (plan: Vec<Action>)
    ensures
        action_views(plan@) == cleanup_plan(kernel_old@, dkms_versao@),
{
    let id = kernel_id(kernel_old);
    let file = String::from_str(DKMS_TREE).concat("/kernel-").concat(id.as_str()).concat("-x86_64");
    let dir = String::from_str(DKMS_TREE).concat("/").concat(dkms_versao).concat("/").concat(
        id.as_str(),
    );
    let mut plan: Vec<Action> = Vec::new();
    plan.push(Action::RemoveFile { path: file });
    plan.push(Action::RemoveDirAll { path: dir });
    plan
}

/// Plans what follows the status report: the installation of the driver of
/// version `driver` for kernel `kernel_new`, then the clean-up after kernel
/// `kernel_old`.
pub fn dkms_install(kernel_old: &str, kernel_new: &str, driver: &str) -> (plan: Vec<Action>)
    ensures
        action_views(plan@) == dkms_plan(kernel_old@, kernel_new@, driver@),
{
    let module = String::from_str(DRIVER).concat("/").concat(driver);
    let mut args: Vec<String> = Vec::new();
    args.push(String::from_str("install"));
    args.push(String::from_str("--force"));
    args.push(String::from_str("--no-depmod"));
    args.push(module);
    args.push(String::from_str("-k"));
    args.push(kernel_id(kernel_new));
    assert(texts(args@) =~= seq![
        "install"@,
        "--force"@,
        "--no-depmod"@,
        module_of(driver@),
        "-k"@,
        kernel_id_of(kernel_new@),
    ]);
    let mut plan: Vec<Action> = Vec::new();
    plan.push(run("dkms", args));
    let mut cleanup = remove_dkms_files(kernel_old, driver);
    plan.append(&mut cleanup);
    plan
}

/// Plans the generation of the initramfs.
pub fn mkinitcpio() -> (action: Action)
    ensures
        action@ == initramfs_action(),
{
    run("mkinitcpio", args2(String::from_str("-p"), String::from_str(INITRAMFS_PRESET)))
}

/// Plans the refresh of the bootloader's configuration.
pub fn update_grub() -> (action: Action)
    ensures
        action@ == bootloader_action(),
{
    let args: Vec<String> = Vec::new();
    assert(texts(args@) =~= Seq::<Seq<char>>::empty());
    run("update-grub", args)
}

/// Plans the two actions that end every upgrade.
pub fn finish() -> (plan: Vec<Action>)
    ensures
        action_views(plan@) == finish_plan(),
{
    let mut plan: Vec<Action> = Vec::new();
    plan.push(mkinitcpio());
    plan.push(update_grub());
    plan
}

} // verus!
