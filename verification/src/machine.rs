//! The installer's state machine.
//!
//! The whole program is a linear pipeline: check dependencies, then —
//! only when something is missing — detect a package manager and install,
//! then clone, configure, build, and enable. The [`Installer`] holds the
//! current phase; [`Installer::step`] consumes the outcome of the last
//! piece of outside work and decides the next one. An unverified driver
//! performs each returned [`Action`]: it prints the lines, echoes the
//! captured output bytes, runs or probes what the operation names, and
//! hands the outcome back as the next [`Event`]. Every transition is
//! pinned by [`spec_step`]; any failed pipeline command moves the machine
//! to a terminal phase from which no further event is accepted.

use vstd::prelude::*;
use crate::deps::{
    spec_dependency_names, spec_missing, spec_missing_report, lemma_all_ok_no_missing,
    dependency_names, missing_dependencies, missing_report,
};
use crate::manager::{PackageManager, spec_detect, spec_install_argv, detect_manager,
    install_argv};
use crate::commands::{
    spec_clone_argv, spec_configure_argv, spec_build_argv, spec_enable_argv,
    clone_command, configure_command, build_command, enable_command,
};

verus! {

/// The phase the installer is in. The last three are terminal:
/// `Succeeded` after the extension was enabled, `NoManager` when missing
/// dependencies could not be installed because no known package manager
/// was available (a normal completion, not a failure), and `Failed` after
/// any pipeline command exited unsuccessfully.
#[derive(Clone, Copy, Debug, PartialEq, Eq, Structural)]
pub enum Phase {
    CheckDeps,
    DetectManager,
    InstallDeps,
    CloneRepo,
    Configure,
    BuildInstall,
    Enable,
    Succeeded,
    NoManager,
    Failed,
}

/// The outcome of one piece of outside work, handed in by the driver.
#[derive(Debug, PartialEq, Eq)]
pub enum Event {
    /// One exit-success flag per required dependency, in declaration order.
    DepProbes { ok: Vec<bool> },
    /// Whether each package-manager candidate could be launched at all.
    ManagerProbes { apt: bool, dnf: bool, yum: bool },
    /// A pipeline command ran to completion: its exit-success flag and its
    /// captured standard output and standard error.
    Finished { success: bool, stdout: Vec<u8>, stderr: Vec<u8> },
}

/// The mathematical value of an [`Event`].
#[verifier::ext_equal]
pub enum EventModel {
    DepProbes(Seq<bool>),
    ManagerProbes(bool, bool, bool),
    Finished(bool, Seq<u8>, Seq<u8>),
}

impl View for Event {
    type V = EventModel;

    open spec fn view(&self) -> EventModel {
        match self {
            Event::DepProbes { ok } => EventModel::DepProbes(ok@),
            Event::ManagerProbes { apt, dnf, yum } => EventModel::ManagerProbes(
                *apt,
                *dnf,
                *yum,
            ),
            Event::Finished { success, stdout, stderr } => EventModel::Finished(
                *success,
                stdout@,
                stderr@,
            ),
        }
    }
}

/// The outside work the driver must do next.
#[derive(Debug, PartialEq, Eq)]
pub enum Op {
    /// Probe `apt`, `dnf` and `yum` for launchability and report back.
    ProbeManagers,
    /// Run this command, wait for it, and report back its outcome;
    /// if it cannot be launched at all, abort with `launch_failure`.
    Run { argv: Vec<String>, launch_failure: String },
    /// The run is over; nothing further may be launched.
    Halt,
}

/// The mathematical value of an [`Op`].
#[verifier::ext_equal]
pub enum OpModel {
    ProbeManagers,
    Run(Seq<Seq<char>>, Seq<char>),
    Halt,
}

impl View for Op {
    type V = OpModel;

    open spec fn view(&self) -> OpModel {
        match self {
            Op::ProbeManagers => OpModel::ProbeManagers,
            Op::Run { argv, launch_failure } => OpModel::Run(
                argv.deep_view(),
                launch_failure@,
            ),
            Op::Halt => OpModel::Halt,
        }
    }
}

/// One instruction to the driver: print `lines`, write the echoed bytes
/// to standard output and standard error verbatim, then perform `op`.
#[derive(Debug, PartialEq, Eq)]
pub struct Action {
    pub lines: Vec<String>,
    pub echo_stdout: Vec<u8>,
    pub echo_stderr: Vec<u8>,
    pub op: Op,
}

/// The mathematical value of an [`Action`].
#[verifier::ext_equal]
pub struct ActionModel {
    pub lines: Seq<Seq<char>>,
    pub echo_stdout: Seq<u8>,
    pub echo_stderr: Seq<u8>,
    pub op: OpModel,
}

impl View for Action {
    type V = ActionModel;

    open spec fn view(&self) -> ActionModel {
        ActionModel {
            lines: self.lines.deep_view(),
            echo_stdout: self.echo_stdout@,
            echo_stderr: self.echo_stderr@,
            op: self.op@,
        }
    }
}

/// The mathematical state of an [`Installer`].
#[verifier::ext_equal]
pub struct Model {
    pub phase: Phase,
    pub missing: Seq<Seq<char>>,
    pub manager: PackageManager,
}

/// An action that prints nothing and echoes nothing.
pub open spec fn spec_quiet(op: OpModel) -> ActionModel {
    ActionModel {
        lines: Seq::empty(),
        echo_stdout: Seq::empty(),
        echo_stderr: Seq::empty(),
        op,
    }
}

/// An action that prints `lines` and echoes nothing.
pub open spec fn spec_say(lines: Seq<Seq<char>>, op: OpModel) -> ActionModel {
    ActionModel { lines, echo_stdout: Seq::empty(), echo_stderr: Seq::empty(), op }
}

/// A halting action that prints one failure label and echoes the failed
/// command's captured output verbatim.
pub open spec fn spec_fail(line: Seq<char>, out: Seq<u8>, err: Seq<u8>) -> ActionModel {
    ActionModel { lines: seq![line], echo_stdout: out, echo_stderr: err, op: OpModel::Halt }
}

/// A phase from which the machine accepts no further event.
pub open spec fn spec_terminal(p: Phase) -> bool {
    p is Succeeded || p is NoManager || p is Failed
}

/// Which event each phase expects. Terminal phases expect none: the
/// pipeline is strictly linear and has no recovery path.
pub open spec fn spec_event_fits(p: Phase, ev: EventModel) -> bool {
    match p {
        Phase::CheckDeps => ev matches EventModel::DepProbes(ok) && ok.len()
            == spec_dependency_names().len(),
        Phase::DetectManager => ev is ManagerProbes,
        Phase::InstallDeps => ev is Finished,
        Phase::CloneRepo => ev is Finished,
        Phase::Configure => ev is Finished,
        Phase::BuildInstall => ev is Finished,
        Phase::Enable => ev is Finished,
        Phase::Succeeded => false,
        Phase::NoManager => false,
        Phase::Failed => false,
    }
}

/// The transition relation: from a state and the outcome of the last
/// piece of outside work, the next state and the next instruction.
pub open spec fn spec_step(m: Model, ev: EventModel) -> (Model, ActionModel) {
    match (m.phase, ev) {
        (Phase::CheckDeps, EventModel::DepProbes(ok)) => {
            let miss = spec_missing(spec_dependency_names(), ok);
            if miss.len() == 0 {
                (
                    Model { phase: Phase::CloneRepo, ..m },
                    spec_quiet(
                        OpModel::Run(
                            spec_clone_argv(),
                            "Failed to execute git clone command."@,
                        ),
                    ),
                )
            } else {
                (
                    Model { phase: Phase::DetectManager, missing: miss, ..m },
                    spec_say(
                        seq![
                            spec_missing_report(miss),
                            "Installing missing dependencies..."@,
                        ],
                        OpModel::ProbeManagers,
                    ),
                )
            }
        },
        (Phase::DetectManager, EventModel::ManagerProbes(apt, dnf, yum)) => {
            let mgr = spec_detect(apt, dnf, yum);
            if mgr is Unknown {
                (
                    Model { phase: Phase::NoManager, ..m },
                    spec_say(
                        seq![
                            "Unsupported package manager. Please install the required dependencies manually."@,
                        ],
                        OpModel::Halt,
                    ),
                )
            } else {
                (
                    Model { phase: Phase::InstallDeps, manager: mgr, ..m },
                    spec_quiet(
                        OpModel::Run(
                            spec_install_argv(mgr, m.missing),
                            "Failed to execute package installation command."@,
                        ),
                    ),
                )
            }
        },
        (Phase::InstallDeps, EventModel::Finished(success, out, err)) => {
            if success {
                (
                    Model { phase: Phase::CloneRepo, ..m },
                    spec_say(
                        seq!["Dependencies installed successfully."@],
                        OpModel::Run(
                            spec_clone_argv(),
                            "Failed to execute git clone command."@,
                        ),
                    ),
                )
            } else {
                (
                    Model { phase: Phase::Failed, ..m },
                    spec_fail("Failed to install dependencies."@, out, err),
                )
            }
        },
        (Phase::CloneRepo, EventModel::Finished(success, out, err)) => {
            if success {
                (
                    Model { phase: Phase::Configure, ..m },
                    spec_quiet(
                        OpModel::Run(
                            spec_configure_argv(),
                            "Failed to execute meson command."@,
                        ),
                    ),
                )
            } else {
                (
                    Model { phase: Phase::Failed, ..m },
                    spec_fail("Failed to clone the repository:"@, out, err),
                )
            }
        },
        (Phase::Configure, EventModel::Finished(success, out, err)) => {
            if success {
                (
                    Model { phase: Phase::BuildInstall, ..m },
                    spec_quiet(
                        OpModel::Run(
                            spec_build_argv(),
                            "Failed to execute ninja command."@,
                        ),
                    ),
                )
            } else {
                (
                    Model { phase: Phase::Failed, ..m },
                    spec_fail("Failed to run meson:"@, out, err),
                )
            }
        },
        (Phase::BuildInstall, EventModel::Finished(success, out, err)) => {
            if success {
                (
                    Model { phase: Phase::Enable, ..m },
                    spec_quiet(
                        OpModel::Run(
                            spec_enable_argv(),
                            "Failed to execute gnome-extensions enable command."@,
                        ),
                    ),
                )
            } else {
                (
                    Model { phase: Phase::Failed, ..m },
                    spec_fail("Failed to run ninja:"@, out, err),
                )
            }
        },
        (Phase::Enable, EventModel::Finished(success, out, err)) => {
            if success {
                (
                    Model { phase: Phase::Succeeded, ..m },
                    spec_say(
                        seq!["Extension installed and enabled successfully!"@],
                        OpModel::Halt,
                    ),
                )
            } else {
                (
                    Model { phase: Phase::Failed, ..m },
                    spec_fail("Failed to enable the extension:"@, out, err),
                )
            }
        },
        _ => (m, spec_quiet(OpModel::Halt)),
    }
}

/// The installer: the verified decision core of the program.
pub struct Installer {
    phase: Phase,
    missing: Vec<String>,
    manager: PackageManager,
}

impl View for Installer {
    type V = Model;

    closed spec fn view(&self) -> Model {
        Model {
            phase: self.phase,
            missing: self.missing.deep_view(),
            manager: self.manager,
        }
    }
}

impl Installer {
    /// A fresh installer, about to check dependencies.
    pub fn new() -> (r: Installer)
        ensures
            r@ == (Model {
                phase: Phase::CheckDeps,
                missing: Seq::<Seq<char>>::empty(),
                manager: PackageManager::Unknown,
            }),
    {
        let r = Installer {
            phase: Phase::CheckDeps,
            missing: Vec::new(),
            manager: PackageManager::Unknown,
        };
        assert(r@ =~= (Model {
            phase: Phase::CheckDeps,
            missing: Seq::<Seq<char>>::empty(),
            manager: PackageManager::Unknown,
        }));
        r
    }

    /// The phase the installer is in.
    pub fn phase(&self) -> (p: Phase)
        ensures
            p == self@.phase,
    {
        self.phase
    }

    /// The dependencies found missing, in declaration order.
    pub fn missing(&self) -> (r: &Vec<String>)
        ensures
            r.deep_view() == self@.missing,
    {
        &self.missing
    }

    /// The package manager detected so far.
    pub fn manager(&self) -> (r: PackageManager)
        ensures
            r == self@.manager,
    {
        self.manager
    }

    /// Consumes the outcome of the last piece of outside work and returns
    /// the next instruction, exactly as [`spec_step`] prescribes.
    pub fn step(&mut self, ev: Event) -> (a: Action)
        requires
            spec_event_fits(old(self)@.phase, ev@),
        ensures
            final(self)@ == spec_step(old(self)@, ev@).0,
            a@ == spec_step(old(self)@, ev@).1,
    {
        match (self.phase, ev) {
            (Phase::CheckDeps, Event::DepProbes { ok }) => {
                let names = dependency_names();
                let miss = missing_dependencies(&names, &ok);
                if miss.len() == 0 {
                    self.phase = Phase::CloneRepo;
                    quiet_run(
                        clone_command(),
                        "Failed to execute git clone command.".to_owned(),
                    )
                } else {
                    let report = missing_report(&miss);
                    self.missing = miss;
                    self.phase = Phase::DetectManager;
                    let lines = two_lines(
                        report,
                        "Installing missing dependencies...".to_owned(),
                    );
                    Action {
                        lines,
                        echo_stdout: Vec::new(),
                        echo_stderr: Vec::new(),
                        op: Op::ProbeManagers,
                    }
                }
            },
            (Phase::DetectManager, Event::ManagerProbes { apt, dnf, yum }) => {
                let mgr = detect_manager(apt, dnf, yum);
                match mgr {
                    PackageManager::Unknown => {
                        self.phase = Phase::NoManager;
                        let lines = one_line(
                            "Unsupported package manager. Please install the required dependencies manually.".to_owned(),
                        );
                        Action {
                            lines,
                            echo_stdout: Vec::new(),
                            echo_stderr: Vec::new(),
                            op: Op::Halt,
                        }
                    },
                    _ => {
                        let argv = install_argv(mgr, &self.missing);
                        self.manager = mgr;
                        self.phase = Phase::InstallDeps;
                        quiet_run(
                            argv,
                            "Failed to execute package installation command.".to_owned(),
                        )
                    },
                }
            },
            (Phase::InstallDeps, Event::Finished { success, stdout, stderr }) => {
                if success {
                    self.phase = Phase::CloneRepo;
                    let lines = one_line("Dependencies installed successfully.".to_owned());
                    Action {
                        lines,
                        echo_stdout: Vec::new(),
                        echo_stderr: Vec::new(),
                        op: Op::Run {
                            argv: clone_command(),
                            launch_failure: "Failed to execute git clone command.".to_owned(),
                        },
                    }
                } else {
                    self.phase = Phase::Failed;
                    fail_action("Failed to install dependencies.".to_owned(), stdout, stderr)
                }
            },
            (Phase::CloneRepo, Event::Finished { success, stdout, stderr }) => {
                if success {
                    self.phase = Phase::Configure;
                    quiet_run(
                        configure_command(),
                        "Failed to execute meson command.".to_owned(),
                    )
                } else {
                    self.phase = Phase::Failed;
                    fail_action("Failed to clone the repository:".to_owned(), stdout, stderr)
                }
            },
            (Phase::Configure, Event::Finished { success, stdout, stderr }) => {
                if success {
                    self.phase = Phase::BuildInstall;
                    quiet_run(
                        build_command(),
                        "Failed to execute ninja command.".to_owned(),
                    )
                } else {
                    self.phase = Phase::Failed;
                    fail_action("Failed to run meson:".to_owned(), stdout, stderr)
                }
            },
            (Phase::BuildInstall, Event::Finished { success, stdout, stderr }) => {
                if success {
                    self.phase = Phase::Enable;
                    quiet_run(
                        enable_command(),
                        "Failed to execute gnome-extensions enable command.".to_owned(),
                    )
                } else {
                    self.phase = Phase::Failed;
                    fail_action("Failed to run ninja:".to_owned(), stdout, stderr)
                }
            },
            (Phase::Enable, Event::Finished { success, stdout, stderr }) => {
                if success {
                    self.phase = Phase::Succeeded;
                    let lines = one_line(
                        "Extension installed and enabled successfully!".to_owned(),
                    );
                    Action {
                        lines,
                        echo_stdout: Vec::new(),
                        echo_stderr: Vec::new(),
                        op: Op::Halt,
                    }
                } else {
                    self.phase = Phase::Failed;
                    fail_action("Failed to enable the extension:".to_owned(), stdout, stderr)
                }
            },
            (_, _) => {
                Action {
                    lines: Vec::new(),
                    echo_stdout: Vec::new(),
                    echo_stderr: Vec::new(),
                    op: Op::Halt,
                }
            },
        }
    }
}

/// A quiet action that runs one command.
fn quiet_run(argv: Vec<String>, launch_failure: String) -> (a: Action)
    ensures
        a@ == spec_quiet(OpModel::Run(argv.deep_view(), launch_failure@)),
{
    let a = Action {
        lines: Vec::new(),
        echo_stdout: Vec::new(),
        echo_stderr: Vec::new(),
        op: Op::Run { argv, launch_failure },
    };
    assert(a@ =~= spec_quiet(a@.op));
    a
}

/// A halting action that prints one failure label and echoes the failed
/// command's captured output.
fn fail_action(line: String, stdout: Vec<u8>, stderr: Vec<u8>) -> (a: Action)
    ensures
        a@ == spec_fail(line@, stdout@, stderr@),
{
    let lines = one_line(line);
    let a = Action { lines, echo_stdout: stdout, echo_stderr: stderr, op: Op::Halt };
    assert(a@ =~= spec_fail(a@.lines[0], a@.echo_stdout, a@.echo_stderr));
    a
}

/// A one-element line list.
fn one_line(line: String) -> (r: Vec<String>)
    ensures
        r.deep_view() == seq![line@],
{
    let ghost l = line@;
    let mut r: Vec<String> = Vec::new();
    r.push(line);
    assert(r.deep_view() =~= seq![l]);
    r
}

/// A two-element line list.
fn two_lines(first: String, second: String) -> (r: Vec<String>)
    ensures
        r.deep_view() == seq![first@, second@],
{
    let ghost f = first@;
    let ghost s = second@;
    let mut r: Vec<String> = Vec::new();
    r.push(first);
    r.push(second);
    assert(r.deep_view() =~= seq![f, s]);
    r
}

/// If every dependency probe exits successfully, the installer phase is
/// skipped entirely: the machine moves straight to cloning, constructs no
/// install command, and prints nothing.
pub proof fn lemma_all_ok_skips_install(m: Model, ok: Seq<bool>)
    requires
        m.phase is CheckDeps,
        ok.len() == spec_dependency_names().len(),
        forall|i: int| 0 <= i < ok.len() ==> ok[i],
    ensures
        spec_step(m, EventModel::DepProbes(ok)).0.phase is CloneRepo,
        spec_step(m, EventModel::DepProbes(ok)).1.op == OpModel::Run(
            spec_clone_argv(),
            "Failed to execute git clone command."@,
        ),
        spec_step(m, EventModel::DepProbes(ok)).1.lines == Seq::<Seq<char>>::empty(),
{
    lemma_all_ok_no_missing(spec_dependency_names(), ok);
}

/// If no known package manager is launchable, the machine prints the
/// unsupported-manager message and halts as a normal completion — not a
/// failure — without constructing any install command, and accepts no
/// further event.
pub proof fn lemma_no_manager_normal_halt(m: Model)
    requires
        m.phase is DetectManager,
    ensures
        ({
            let (m2, a) = spec_step(m, EventModel::ManagerProbes(false, false, false));
            &&& m2.phase is NoManager
            &&& !(m2.phase is Failed)
            &&& a.op is Halt
            &&& a.lines == seq![
                "Unsupported package manager. Please install the required dependencies manually."@,
            ]
            &&& forall|ev: EventModel| !spec_event_fits(m2.phase, ev)
        }),
{
}

/// A non-zero exit from clone, configure, build, or enable moves the
/// machine to the terminal `Failed` phase: the action launches nothing,
/// echoes the captured output verbatim, and no subsequent event — hence
/// no subsequent phase's process — is ever accepted afterwards.
pub proof fn lemma_failure_halts(m: Model, out: Seq<u8>, err: Seq<u8>)
    requires
        m.phase is CloneRepo || m.phase is Configure || m.phase is BuildInstall
            || m.phase is Enable,
    ensures
        ({
            let (m2, a) = spec_step(m, EventModel::Finished(false, out, err));
            &&& m2.phase is Failed
            &&& a.op is Halt
            &&& a.echo_stdout == out
            &&& a.echo_stderr == err
            &&& forall|ev: EventModel| !spec_event_fits(m2.phase, ev)
        }),
{
}

/// Terminal phases accept no event at all: once the machine has halted,
/// nothing can be launched through it.
pub proof fn lemma_terminal_accepts_no_event(p: Phase)
    requires
        spec_terminal(p),
    ensures
        forall|ev: EventModel| !spec_event_fits(p, ev),
{
}

} // verus!
