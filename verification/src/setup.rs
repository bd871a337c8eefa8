//! Filling the cache and gathering the link configuration.
//!
//! A build creates the cache directory, takes the lock that keeps other
//! builds out of it, fetches three archives into it and, after each, notes
//! what the archive adds to the link line. Creating, locking and fetching
//! are the caller's work. A `Setup` says which of them is due, hears how it
//! went, and ends with either the complete link configuration or none.

use vstd::prelude::*;
use crate::libs_config::{LibsConfig, LibsConfigView};
use crate::manifest::{LibPythonConfig, ManifestView};
use crate::paths::{join_path, joined};

verus! {

/// The lock file's name within the cache directory.
pub const LOCK_FILE: &'static str = ".lock";

/// The archives a build fetches, in the order in which it fetches them.
#[derive(Clone, Copy, Debug, PartialEq, Eq)]
pub enum Artifact {
    /// The WASI system root.
    WasiSysroot,
    /// Clang's runtime builtins.
    ClangBuiltins,
    /// The static libpython.
    LibPython,
}

/// One piece of work that the caller does for a `Setup`.
#[derive(Clone, Copy, Debug, PartialEq, Eq)]
pub enum Step {
    /// Creating the cache directory.
    CreateCacheDir,
    /// Opening the lock file and taking the lock.
    AcquireLock,
    /// Fetching and unpacking an archive.
    Fetch(Artifact),
}

/// How far a `Setup` has come.
#[derive(Clone, Copy, Debug, PartialEq, Eq)]
pub enum Phase {
    /// The step is due: the caller is to do it and report.
    Pending(Step),
    /// Every step succeeded; the link configuration is complete.
    Done,
    /// The step failed; nothing more is done.
    Failed(Step),
}

/// How a step went.
#[derive(Clone, Copy, Debug, PartialEq, Eq)]
pub enum Outcome {
    /// The step was carried out.
    Succeeded,
    /// The step met an error.
    Failed,
}

/// What the caller is to do next, as text.
pub enum ActionView {
    CreateDir { path: Seq<char> },
    AcquireLock { lock_file: Seq<char> },
    Download { url: Seq<char>, dest: Seq<char> },
    Finish,
    Abort { failed: Step },
}

/// What the caller is to do next.
#[derive(Clone, Debug, PartialEq, Eq)]
pub enum Action {
    /// Create the directory and all its parents; one that exists is fine.
    CreateDir { path: String },
    /// Open the lock file, creating it if need be, and block until the
    /// exclusive lock on it is held.
    AcquireLock { lock_file: String },
    /// Make sure that the archive at `url` is unpacked below `dest`,
    /// fetching it only if it is not. All three archives go into the cache
    /// directory itself, where each unpacks into a subdirectory of its own.
    Download { url: String, dest: String },
    /// Release the lock; the link configuration is ready to be taken.
    Finish,
    /// Release the lock if it was taken and report that the step failed.
    Abort { failed: Step },
}

impl View for Action {
    type V = ActionView;

    open spec fn view(&self) -> ActionView {
        match self {
            Action::CreateDir { path } => ActionView::CreateDir { path: path@ },
            Action::AcquireLock { lock_file } => ActionView::AcquireLock { lock_file: lock_file@ },
            Action::Download { url, dest } => ActionView::Download { url: url@, dest: dest@ },
            Action::Finish => ActionView::Finish,
            Action::Abort { failed } => ActionView::Abort { failed: *failed },
        }
    }
}

/// The lock file of the cache directory `deps_path`.
pub open spec fn lock_file_in(deps_path: Seq<char>) -> Seq<char> {
    joined(deps_path, LOCK_FILE@)
}

/// Where `manifest` has the archive of `artifact`.
pub open spec fn archive_url(artifact: Artifact, manifest: ManifestView) -> Seq<char> {
    match artifact {
        Artifact::WasiSysroot => manifest.wasi_sdk_sysroot_url,
        Artifact::ClangBuiltins => manifest.wasi_sdk_clang_builtins_url,
        Artifact::LibPython => manifest.libpython_url,
    }
}

/// The directory in which the unpacked `artifact` holds its libraries.
pub open spec fn search_dir(artifact: Artifact, deps_path: Seq<char>) -> Seq<char> {
    match artifact {
        Artifact::WasiSysroot => joined(
            joined(joined(deps_path, "wasi-sysroot"@), "lib"@),
            "wasm32-wasi"@,
        ),
        Artifact::ClangBuiltins => joined(joined(deps_path, "lib"@), "wasi"@),
        Artifact::LibPython => joined(joined(deps_path, "lib"@), "wasm32-wasi"@),
    }
}

/// The libraries that are linked from `artifact`.
pub open spec fn lib_names(artifact: Artifact, manifest: ManifestView) -> Seq<Seq<char>> {
    match artifact {
        Artifact::WasiSysroot => seq![
            "wasi-emulated-signal"@,
            "wasi-emulated-getpid"@,
            "wasi-emulated-process-clocks"@,
        ],
        Artifact::ClangBuiltins => seq!["clang_rt.builtins-wasm32"@],
        Artifact::LibPython => seq![manifest.libpython_binary],
    }
}

/// `libs` with what `artifact` adds to it.
pub open spec fn libs_with(
    libs: LibsConfigView,
    artifact: Artifact,
    manifest: ManifestView,
    deps_path: Seq<char>,
) -> LibsConfigView {
    LibsConfigView {
        lib_paths: libs.lib_paths.push(search_dir(artifact, deps_path)),
        libs: libs.libs + lib_names(artifact, manifest),
    }
}

/// The link configuration just before `artifact` is fetched.
pub open spec fn libs_before(
    artifact: Artifact,
    manifest: ManifestView,
    deps_path: Seq<char>,
) -> LibsConfigView {
    let none = LibsConfigView { lib_paths: Seq::empty(), libs: Seq::empty() };
    let sysroot = libs_with(none, Artifact::WasiSysroot, manifest, deps_path);
    match artifact {
        Artifact::WasiSysroot => none,
        Artifact::ClangBuiltins => sysroot,
        Artifact::LibPython => libs_with(sysroot, Artifact::ClangBuiltins, manifest, deps_path),
    }
}

/// The complete link configuration of a build from `manifest` with its
/// cache at `deps_path`.
pub open spec fn static_libs(manifest: ManifestView, deps_path: Seq<char>) -> LibsConfigView {
    libs_with(
        libs_before(Artifact::LibPython, manifest, deps_path),
        Artifact::LibPython,
        manifest,
        deps_path,
    )
}

/// The phase that follows the successful fetch of `artifact`.
pub open spec fn phase_after(artifact: Artifact) -> Phase {
    match artifact {
        Artifact::WasiSysroot => Phase::Pending(Step::Fetch(Artifact::ClangBuiltins)),
        Artifact::ClangBuiltins => Phase::Pending(Step::Fetch(Artifact::LibPython)),
        Artifact::LibPython => Phase::Done,
    }
}

/// A setup as a mathematical state.
pub struct SetupView {
    pub manifest: ManifestView,
    pub deps_path: Seq<char>,
    pub phase: Phase,
    pub libs: LibsConfigView,
}

impl SetupView {
    /// The setup of a build from `manifest` with its cache at `deps_path`,
    /// before anything is done.
    pub open spec fn start(manifest: ManifestView, deps_path: Seq<char>) -> SetupView {
        SetupView {
            manifest,
            deps_path,
            phase: Phase::Pending(Step::CreateCacheDir),
            libs: LibsConfigView { lib_paths: Seq::empty(), libs: Seq::empty() },
        }
    }

    /// Unless a step failed, the link configuration holds what the
    /// archives fetched so far add, in the order in which they were
    /// fetched, and nothing else.
    pub open spec fn wf(self) -> bool {
        match self.phase {
            Phase::Pending(Step::CreateCacheDir) | Phase::Pending(Step::AcquireLock) => self.libs
                == libs_before(Artifact::WasiSysroot, self.manifest, self.deps_path),
            Phase::Pending(Step::Fetch(artifact)) => self.libs == libs_before(
                artifact,
                self.manifest,
                self.deps_path,
            ),
            Phase::Done => self.libs == static_libs(self.manifest, self.deps_path),
            Phase::Failed(_) => true,
        }
    }

    /// Whether the setup counts on the lock being held.
    pub open spec fn holds_lock(self) -> bool {
        self.phase matches Phase::Pending(Step::Fetch(_))
    }

    /// What the caller is to do next.
    pub open spec fn action(self) -> ActionView {
        match self.phase {
            Phase::Pending(Step::CreateCacheDir) => ActionView::CreateDir { path: self.deps_path },
            Phase::Pending(Step::AcquireLock) => ActionView::AcquireLock {
                lock_file: lock_file_in(self.deps_path),
            },
            Phase::Pending(Step::Fetch(artifact)) => ActionView::Download {
                url: archive_url(artifact, self.manifest),
                dest: self.deps_path,
            },
            Phase::Done => ActionView::Finish,
            Phase::Failed(failed) => ActionView::Abort { failed },
        }
    }

    /// The setup after the pending step went as `outcome` says. A setup
    /// that is done or has failed stays as it is.
    pub open spec fn step(self, outcome: Outcome) -> SetupView {
        match self.phase {
            Phase::Pending(step) => match outcome {
                Outcome::Failed => SetupView { phase: Phase::Failed(step), ..self },
                Outcome::Succeeded => match step {
                    Step::CreateCacheDir => SetupView {
                        phase: Phase::Pending(Step::AcquireLock),
                        ..self
                    },
                    Step::AcquireLock => SetupView {
                        phase: Phase::Pending(Step::Fetch(Artifact::WasiSysroot)),
                        ..self
                    },
                    Step::Fetch(artifact) => SetupView {
                        phase: phase_after(artifact),
                        libs: libs_with(self.libs, artifact, self.manifest, self.deps_path),
                        ..self
                    },
                },
            },
            Phase::Done | Phase::Failed(_) => self,
        }
    }

    /// The setup after a series of steps went as `outcomes` say.
    pub open spec fn run(self, outcomes: Seq<Outcome>) -> SetupView
        decreases outcomes.len(),
    {
        if outcomes.len() == 0 {
            self
        } else {
            self.step(outcomes[0]).run(outcomes.drop_first())
        }
    }
}

/// A build on its way through creating the cache, locking it and filling
/// it.
#[derive(Debug)]
pub struct Setup {
    manifest: LibPythonConfig,
    deps_path: String,
    phase: Phase,
    libs: LibsConfig,
}

impl View for Setup {
    type V = SetupView;

    closed spec fn view(&self) -> SetupView {
        SetupView {
            manifest: self.manifest@,
            deps_path: self.deps_path@,
            phase: self.phase,
            libs: self.libs@,
        }
    }
}

/// Adds to `libs` what the unpacked `artifact` contributes to the link
/// line: the directory that holds its libraries, then their names.
fn add_artifact_libs(
    libs: &mut LibsConfig,
    artifact: Artifact,
    manifest: &LibPythonConfig,
    deps_path: &str,
)
    ensures
        final(libs)@ == libs_with(old(libs)@, artifact, manifest@, deps_path@),
{
    match artifact {
        Artifact::WasiSysroot => {
            let sysroot = join_path(deps_path, "wasi-sysroot");
            let lib = join_path(sysroot.as_str(), "lib");
            libs.add_lib_path(join_path(lib.as_str(), "wasm32-wasi"));
            libs.add("wasi-emulated-signal");
            libs.add("wasi-emulated-getpid");
            libs.add("wasi-emulated-process-clocks");
            assert(libs@.libs =~= old(libs)@.libs + lib_names(artifact, manifest@));
        },
        Artifact::ClangBuiltins => {
            let lib = join_path(deps_path, "lib");
            libs.add_lib_path(join_path(lib.as_str(), "wasi"));
            libs.add("clang_rt.builtins-wasm32");
            assert(libs@.libs =~= old(libs)@.libs + lib_names(artifact, manifest@));
        },
        Artifact::LibPython => {
            let lib = join_path(deps_path, "lib");
            libs.add_lib_path(join_path(lib.as_str(), "wasm32-wasi"));
            libs.add(manifest.libpython_binary);
            assert(libs@.libs =~= old(libs)@.libs + lib_names(artifact, manifest@));
        },
    }
}

/// Starts the setup of a build from `manifest` whose cache is `deps_path`.
///
/// Nothing has happened yet: the first thing due is the cache directory.
pub fn configure_static_libs(manifest: LibPythonConfig, deps_path: String) -> (setup: Setup)
    ensures
        setup@ == SetupView::start(manifest@, deps_path@),
        setup@.wf(),
{
    Setup {
        manifest,
        deps_path,
        phase: Phase::Pending(Step::CreateCacheDir),
        libs: LibsConfig::new(),
    }
}

impl Setup {
    /// Every setup is well formed: none can be made or changed but by the
    /// functions of this module.
    #[verifier::type_invariant]
    spec fn inv(self) -> bool {
        self@.wf()
    }

    /// How far the setup has come.
    pub fn phase(&self) -> (phase: Phase)
        ensures
            phase == self@.phase,
    {
        self.phase
    }

    /// What the caller is to do next.
    pub fn next_action(&self) -> (action: Action)
        ensures
            action@ == self@.action(),
    {
        match self.phase {
            Phase::Pending(Step::CreateCacheDir) => Action::CreateDir {
                path: self.deps_path.clone(),
            },
            Phase::Pending(Step::AcquireLock) => Action::AcquireLock {
                lock_file: join_path(self.deps_path.as_str(), LOCK_FILE),
            },
            Phase::Pending(Step::Fetch(artifact)) => {
                let url = match artifact {
                    Artifact::WasiSysroot => self.manifest.wasi_sdk_sysroot_url,
                    Artifact::ClangBuiltins => self.manifest.wasi_sdk_clang_builtins_url,
                    Artifact::LibPython => self.manifest.libpython_url,
                };
                Action::Download { url: url.to_owned(), dest: self.deps_path.clone() }
            },
            Phase::Done => Action::Finish,
            Phase::Failed(failed) => Action::Abort { failed },
        }
    }

    /// Moves on, given how the step named by `next_action` went.
    ///
    /// A failure ends the setup. A fetch that succeeded adds the archive's
    /// search directory and libraries to the link configuration. A setup
    /// that is done or has failed stays as it is.
    pub fn advance(self, outcome: Outcome) -> (next: Setup)
        ensures
            next@ == self@.step(outcome),
            next@.wf(),
    {
        proof {
            use_type_invariant(&self);
        }
        let Setup { manifest, deps_path, phase, mut libs } = self;
        let phase = match phase {
            Phase::Pending(step) => match outcome {
                Outcome::Failed => Phase::Failed(step),
                Outcome::Succeeded => match step {
                    Step::CreateCacheDir => Phase::Pending(Step::AcquireLock),
                    Step::AcquireLock => Phase::Pending(Step::Fetch(Artifact::WasiSysroot)),
                    Step::Fetch(artifact) => {
                        add_artifact_libs(&mut libs, artifact, &manifest, deps_path.as_str());
                        match artifact {
                            Artifact::WasiSysroot => Phase::Pending(
                                Step::Fetch(Artifact::ClangBuiltins),
                            ),
                            Artifact::ClangBuiltins => Phase::Pending(
                                Step::Fetch(Artifact::LibPython),
                            ),
                            Artifact::LibPython => Phase::Done,
                        }
                    },
                },
            },
            Phase::Done => Phase::Done,
            Phase::Failed(failed) => Phase::Failed(failed),
        };
        Setup { manifest, deps_path, phase, libs }
    }

    /// The link configuration, if every step succeeded. After a failure, or
    /// before the last archive is in, there is none.
    pub fn into_libs(self) -> (libs: Option<LibsConfig>)
        ensures
            match libs {
                Some(libs) => self@.phase is Done && libs@ == static_libs(
                    self@.manifest,
                    self@.deps_path,
                ),
                None => !(self@.phase is Done),
            },
    {
        proof {
            use_type_invariant(&self);
        }
        match self.phase {
            Phase::Done => Some(self.libs),
            _ => None,
        }
    }
}

/// The step that is due after `done` steps have succeeded.
pub open spec fn step_at(done: nat) -> Step {
    if done == 0 {
        Step::CreateCacheDir
    } else if done == 1 {
        Step::AcquireLock
    } else if done == 2 {
        Step::Fetch(Artifact::WasiSysroot)
    } else if done == 3 {
        Step::Fetch(Artifact::ClangBuiltins)
    } else {
        Step::Fetch(Artifact::LibPython)
    }
}

/// The number of steps of a build.
pub open spec fn step_count() -> nat {
    5
}

/// How many of `outcomes` are successes before the first failure.
pub open spec fn leading_successes(outcomes: Seq<Outcome>) -> nat
    decreases outcomes.len(),
{
    if outcomes.len() == 0 || outcomes[0] is Failed {
        0
    } else {
        1 + leading_successes(outcomes.drop_first())
    }
}

/// The phase of a build whose first `done` steps succeeded and which has
/// heard of a failure after them or not.
pub open spec fn phase_after_successes(done: nat, then_failed: bool) -> Phase {
    if done >= step_count() {
        Phase::Done
    } else if then_failed {
        Phase::Failed(step_at(done))
    } else {
        Phase::Pending(step_at(done))
    }
}

/// The complete link configuration lists the system root first, the
/// builtins second and libpython last, search directories and library
/// names alike.
pub proof fn lemma_static_libs_in_order(manifest: ManifestView, deps_path: Seq<char>)
    ensures
        static_libs(manifest, deps_path).lib_paths == seq![
            search_dir(Artifact::WasiSysroot, deps_path),
            search_dir(Artifact::ClangBuiltins, deps_path),
            search_dir(Artifact::LibPython, deps_path),
        ],
        static_libs(manifest, deps_path).libs == seq![
            "wasi-emulated-signal"@,
            "wasi-emulated-getpid"@,
            "wasi-emulated-process-clocks"@,
            "clang_rt.builtins-wasm32"@,
            manifest.libpython_binary,
        ],
{
}

/// A step keeps the setup well formed and never changes the manifest or
/// the cache directory it was started with.
pub proof fn lemma_step_keeps_wf(setup: SetupView, outcome: Outcome)
    requires
        setup.wf(),
    ensures
        setup.step(outcome).wf(),
        setup.step(outcome).manifest == setup.manifest,
        setup.step(outcome).deps_path == setup.deps_path,
{
}

/// The lock is asked for only while it is not held, and an archive is
/// fetched only while it is: whatever is written into the cache is written
/// under the lock.
pub proof fn lemma_fetches_under_lock(setup: SetupView, outcome: Outcome)
    ensures
        setup.action() is Download ==> setup.holds_lock(),
        setup.action() is AcquireLock ==> !setup.holds_lock(),
        setup.action() is AcquireLock && outcome is Succeeded ==> setup.step(outcome).holds_lock(),
        setup.action() is Finish || setup.action() is Abort ==> !setup.holds_lock(),
{
}

/// A failure is final. Whatever step fails, the setup asks for nothing but
/// to abort from then on, whatever it is told: no further archive is
/// fetched, the lock is no longer counted on, and no link configuration
/// comes out.
pub proof fn lemma_failure_is_final(setup: SetupView, later: Seq<Outcome>)
    requires
        setup.phase is Pending,
    ensures
        setup.step(Outcome::Failed).phase == Phase::Failed(setup.phase->Pending_0),
        setup.step(Outcome::Failed).run(later) == setup.step(Outcome::Failed),
        setup.step(Outcome::Failed).run(later).action() == (ActionView::Abort {
            failed: setup.phase->Pending_0,
        }),
        !setup.step(Outcome::Failed).run(later).holds_lock(),
    decreases later.len(),
{
    if later.len() > 0 {
        let failed = setup.step(Outcome::Failed);
        assert(failed.step(later[0]) == failed);
        lemma_failure_is_final(setup, later.drop_first());
    }
}

/// A setup that is done stays done, with the same link configuration.
pub proof fn lemma_done_is_final(setup: SetupView, later: Seq<Outcome>)
    requires
        setup.phase is Done,
    ensures
        setup.run(later) == setup,
    decreases later.len(),
{
    if later.len() > 0 {
        assert(setup.step(later[0]) == setup);
        lemma_done_is_final(setup, later.drop_first());
    }
}

/// Where a run ends that begins with `done` steps behind it.
pub proof fn lemma_run_from(setup: SetupView, done: nat, outcomes: Seq<Outcome>)
    requires
        setup.wf(),
        done <= step_count(),
        setup.phase == phase_after_successes(done, false),
    ensures
        setup.run(outcomes).wf(),
        setup.run(outcomes).manifest == setup.manifest,
        setup.run(outcomes).deps_path == setup.deps_path,
        setup.run(outcomes).phase == phase_after_successes(
            done + leading_successes(outcomes),
            leading_successes(outcomes) < outcomes.len(),
        ),
    decreases outcomes.len(),
{
    if outcomes.len() == 0 {
    } else if done >= step_count() {
        lemma_done_is_final(setup, outcomes);
    } else if outcomes[0] is Failed {
        lemma_failure_is_final(setup, outcomes.drop_first());
    } else {
        lemma_step_keeps_wf(setup, outcomes[0]);
        lemma_run_from(setup.step(outcomes[0]), done + 1, outcomes.drop_first());
    }
}

/// The steps come in one fixed order, and a run goes exactly as far as its
/// successes carry it: the cache directory, the lock, the system root, the
/// builtins, libpython. After five successes the build is done; a failure
/// before that leaves it failed at the step that the failure met; otherwise
/// the next step in line is due.
pub proof fn lemma_run_from_start(
    manifest: ManifestView,
    deps_path: Seq<char>,
    outcomes: Seq<Outcome>,
)
    ensures
        SetupView::start(manifest, deps_path).run(outcomes).wf(),
        SetupView::start(manifest, deps_path).run(outcomes).manifest == manifest,
        SetupView::start(manifest, deps_path).run(outcomes).deps_path == deps_path,
        SetupView::start(manifest, deps_path).run(outcomes).phase == phase_after_successes(
            leading_successes(outcomes),
            leading_successes(outcomes) < outcomes.len(),
        ),
{
    lemma_run_from(SetupView::start(manifest, deps_path), 0, outcomes);
}

/// Two builds from the same manifest with the same cache directory that
/// both get through end with the same link configuration, whatever else
/// differed between them.
pub proof fn lemma_same_build_same_libs(
    manifest: ManifestView,
    deps_path: Seq<char>,
    first: Seq<Outcome>,
    second: Seq<Outcome>,
)
    requires
        SetupView::start(manifest, deps_path).run(first).phase is Done,
        SetupView::start(manifest, deps_path).run(second).phase is Done,
    ensures
        SetupView::start(manifest, deps_path).run(first).libs == static_libs(manifest, deps_path),
        SetupView::start(manifest, deps_path).run(second).libs == SetupView::start(
            manifest,
            deps_path,
        ).run(first).libs,
{
    lemma_run_from_start(manifest, deps_path, first);
    lemma_run_from_start(manifest, deps_path, second);
}

/// One step in the life of two builds that share a cache directory, and so
/// its lock: which of the two moves, and how its pending step went.
pub struct Move {
    pub by_first: bool,
    pub outcome: Outcome,
}

/// Whether an exclusive lock allows `mover` to hear `outcome` while `other`
/// is where it is: the lock is never granted while the other build holds it.
pub open spec fn lock_permits(mover: SetupView, other: SetupView, outcome: Outcome) -> bool {
    mover.action() is AcquireLock && outcome is Succeeded ==> !other.holds_lock()
}

/// The two builds after `moves`.
pub open spec fn shared_run(first: SetupView, second: SetupView, moves: Seq<Move>) -> (
    SetupView,
    SetupView,
)
    decreases moves.len(),
{
    if moves.len() == 0 {
        (first, second)
    } else if moves[0].by_first {
        shared_run(first.step(moves[0].outcome), second, moves.drop_first())
    } else {
        shared_run(first, second.step(moves[0].outcome), moves.drop_first())
    }
}

/// Whether every one of `moves` is one that the lock permits when it is
/// made.
pub open spec fn lock_respected(first: SetupView, second: SetupView, moves: Seq<Move>) -> bool
    decreases moves.len(),
{
    if moves.len() == 0 {
        true
    } else if moves[0].by_first {
        lock_permits(first, second, moves[0].outcome) && lock_respected(
            first.step(moves[0].outcome),
            second,
            moves.drop_first(),
        )
    } else {
        lock_permits(second, first, moves[0].outcome) && lock_respected(
            first,
            second.step(moves[0].outcome),
            moves.drop_first(),
        )
    }
}

/// Two builds that share a lock never fetch at the same time. However
/// their steps interleave, as long as the lock is granted to one holder at
/// a time, at no point along the way are both of them between asking for
/// an archive and hearing how the fetch went.
pub proof fn lemma_fetches_never_overlap(
    first: SetupView,
    second: SetupView,
    moves: Seq<Move>,
    upto: int,
)
    requires
        !(first.holds_lock() && second.holds_lock()),
        lock_respected(first, second, moves),
        0 <= upto <= moves.len(),
    ensures
        !(shared_run(first, second, moves.take(upto)).0.holds_lock() && shared_run(
            first,
            second,
            moves.take(upto),
        ).1.holds_lock()),
        !(shared_run(first, second, moves.take(upto)).0.action() is Download && shared_run(
            first,
            second,
            moves.take(upto),
        ).1.action() is Download),
    decreases upto,
{
    if upto > 0 {
        let rest = moves.drop_first();
        assert(moves.take(upto)[0] == moves[0]);
        assert(moves.take(upto).drop_first() == rest.take(upto - 1));
        if moves[0].by_first {
            lemma_fetches_never_overlap(first.step(moves[0].outcome), second, rest, upto - 1);
        } else {
            lemma_fetches_never_overlap(first, second.step(moves[0].outcome), rest, upto - 1);
        }
    }
}

} // verus!
