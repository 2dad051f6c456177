//! The startup sequence as a state machine.
//!
//! The caller performs each returned [`Action`] and reports its outcome as the
//! next [`Event`]. The sequence is: resolve the configuration path, resolve the
//! stylesheet path, install the interrupt handler, load the configuration, load
//! the stylesheet, publish both, create the bars, start the background
//! supervisor. A load failure ends the sequence with exit code 1.
use vstd::prelude::*;
use crate::config::RuntimeConfig;

verus! {

/// Exit status of a process whose configuration or stylesheet failed to load.
pub const EXIT_LOAD_FAILURE: i32 = 1;

/// Which of the two files a path step is about.
#[derive(Clone, Copy, Debug, PartialEq, Eq, Structural)]
pub enum FileKind {
    Config,
    Styles,
}

/// The configuration and stylesheet paths that the process watches and loads.
pub struct ResolvedPaths {
    pub config: String,
    pub styles: String,
}

/// Where the startup sequence stands.
pub enum Startup {
    /// Nothing done yet; holds the override paths from the invocation.
    Begin { config_override: Option<String>, styles_override: Option<String> },
    /// Waiting to learn whether the configuration override exists.
    CheckingConfig { path: String, styles_override: Option<String> },
    /// Waiting for the default configuration location.
    DefaultConfig { styles_override: Option<String> },
    /// Waiting to learn whether the stylesheet override exists.
    CheckingStyles { config_path: String, path: String },
    /// Waiting for the default stylesheet location.
    DefaultStyles { config_path: String },
    /// Both paths are fixed; waiting for the interrupt handler to be installed.
    InstallingHandler { paths: ResolvedPaths },
    /// Waiting for the configuration to load.
    LoadingConfig { paths: ResolvedPaths },
    /// Waiting for the stylesheet to load.
    LoadingStyles { paths: ResolvedPaths, config: RuntimeConfig },
    /// Waiting for configuration and stylesheet to be published together.
    Publishing { paths: ResolvedPaths, watch_fullscreen: bool },
    /// Waiting for the bars to be created.
    CreatingBars { paths: ResolvedPaths, watch_fullscreen: bool },
    /// The background supervisor runs; startup is over.
    Running,
    /// A load failed; the process exits.
    Failed,
}

/// The outcome of the last action, reported by the caller.
pub enum Event {
    /// Begin the sequence.
    Start,
    /// Whether the override path asked about exists.
    OverrideExists(bool),
    /// The default location of the file asked about.
    DefaultPath(String),
    /// The last action completed.
    Done,
    ConfigLoaded(RuntimeConfig),
    ConfigFailed,
    StylesLoaded(String),
    StylesFailed,
}

/// What the caller must do next.
pub enum Action {
    /// Check whether the override path of `kind` exists.
    CheckExists { kind: FileKind, path: String },
    /// Look up the default location of `kind`. When `ignored` holds a path,
    /// warn that this override does not exist and is ignored.
    LookupDefault { kind: FileKind, ignored: Option<String> },
    /// Install the interrupt handler.
    InstallSignalHandler,
    LoadConfig { path: String },
    LoadStyles { path: String },
    /// Publish configuration and stylesheet into the shared store, together.
    Publish { config: RuntimeConfig, styles: String },
    /// Create the bars from the published configuration.
    CreateBars,
    /// Spawn the background supervisor: watch both paths, and start the
    /// fullscreen watcher when `watch_fullscreen` holds.
    StartSupervisor { paths: ResolvedPaths, watch_fullscreen: bool },
    /// Terminate the process with this status.
    Exit { code: i32 },
    /// Nothing to do for this event.
    Wait,
}

/// The step that starts resolving the stylesheet once the configuration path
/// is fixed.
pub open spec fn begin_styles(config_path: String, styles_override: Option<String>) -> (Startup, Action) {
    match styles_override {
        Some(p) => (
            Startup::CheckingStyles { config_path, path: p },
            Action::CheckExists { kind: FileKind::Styles, path: p },
        ),
        None => (
            Startup::DefaultStyles { config_path },
            Action::LookupDefault { kind: FileKind::Styles, ignored: None },
        ),
    }
}

/// The step that follows once both paths are fixed.
pub open spec fn paths_fixed(config: String, styles: String) -> (Startup, Action) {
    (
        Startup::InstallingHandler { paths: ResolvedPaths { config, styles } },
        Action::InstallSignalHandler,
    )
}

/// The transition table: the next state and action for a state and an event.
/// An event that the state does not wait for changes nothing.
pub open spec fn next(s: Startup, e: Event) -> (Startup, Action) {
    match (s, e) {
        (Startup::Begin { config_override, styles_override }, Event::Start) => match config_override {
            Some(p) => (
                Startup::CheckingConfig { path: p, styles_override },
                Action::CheckExists { kind: FileKind::Config, path: p },
            ),
            None => (
                Startup::DefaultConfig { styles_override },
                Action::LookupDefault { kind: FileKind::Config, ignored: None },
            ),
        },
        (Startup::CheckingConfig { path, styles_override }, Event::OverrideExists(exists)) => {
            if exists {
                begin_styles(path, styles_override)
            } else {
                (
                    Startup::DefaultConfig { styles_override },
                    Action::LookupDefault { kind: FileKind::Config, ignored: Some(path) },
                )
            }
        },
        (Startup::DefaultConfig { styles_override }, Event::DefaultPath(d)) => begin_styles(d, styles_override),
        (Startup::CheckingStyles { config_path, path }, Event::OverrideExists(exists)) => {
            if exists {
                paths_fixed(config_path, path)
            } else {
                (
                    Startup::DefaultStyles { config_path },
                    Action::LookupDefault { kind: FileKind::Styles, ignored: Some(path) },
                )
            }
        },
        (Startup::DefaultStyles { config_path }, Event::DefaultPath(d)) => paths_fixed(config_path, d),
        (Startup::InstallingHandler { paths }, Event::Done) => (
            Startup::LoadingConfig { paths },
            Action::LoadConfig { path: paths.config },
        ),
        (Startup::LoadingConfig { paths }, Event::ConfigLoaded(config)) => (
            Startup::LoadingStyles { paths, config },
            Action::LoadStyles { path: paths.styles },
        ),
        (Startup::LoadingConfig { .. }, Event::ConfigFailed) => (
            Startup::Failed,
            Action::Exit { code: EXIT_LOAD_FAILURE },
        ),
        (Startup::LoadingStyles { paths, config }, Event::StylesLoaded(styles)) => (
            Startup::Publishing { paths, watch_fullscreen: config.wants_fullscreen_watch() },
            Action::Publish { config, styles },
        ),
        (Startup::LoadingStyles { .. }, Event::StylesFailed) => (
            Startup::Failed,
            Action::Exit { code: EXIT_LOAD_FAILURE },
        ),
        (Startup::Publishing { paths, watch_fullscreen }, Event::Done) => (
            Startup::CreatingBars { paths, watch_fullscreen },
            Action::CreateBars,
        ),
        (Startup::CreatingBars { paths, watch_fullscreen }, Event::Done) => (
            Startup::Running,
            Action::StartSupervisor { paths, watch_fullscreen },
        ),
        (s, _) => (s, Action::Wait),
    }
}

impl Startup {
    /// The initial state for the override paths given at invocation.
    pub fn new(config_override: Option<String>, styles_override: Option<String>) -> (r: Startup)
        ensures
            r == (Startup::Begin { config_override, styles_override }),
    {
        Startup::Begin { config_override, styles_override }
    }

    /// Whether startup is over, by success or by failure.
    pub fn is_finished(&self) -> (r: bool)
        ensures
            r == (self is Running || self is Failed),
    {
        match self {
            Startup::Running | Startup::Failed => true,
            _ => false,
        }
    }

    fn begin_styles(config_path: String, styles_override: Option<String>) -> (r: (Startup, Action))
        ensures
            r == begin_styles(config_path, styles_override),
    {
        match styles_override {
            Some(p) => {
                let q = p.clone();
                (
                    Startup::CheckingStyles { config_path, path: p },
                    Action::CheckExists { kind: FileKind::Styles, path: q },
                )
            },
            None => (
                Startup::DefaultStyles { config_path },
                Action::LookupDefault { kind: FileKind::Styles, ignored: None },
            ),
        }
    }

    /// Advances the sequence by one event: returns the next state and the
    /// action the caller must perform.
    pub fn step(self, e: Event) -> (r: (Startup, Action))
        ensures
            r == next(self, e),
    {
        match (self, e) {
            (Startup::Begin { config_override, styles_override }, Event::Start) => match config_override {
                Some(p) => {
                    let q = p.clone();
                    (
                        Startup::CheckingConfig { path: p, styles_override },
                        Action::CheckExists { kind: FileKind::Config, path: q },
                    )
                },
                None => (
                    Startup::DefaultConfig { styles_override },
                    Action::LookupDefault { kind: FileKind::Config, ignored: None },
                ),
            },
            (Startup::CheckingConfig { path, styles_override }, Event::OverrideExists(exists)) => {
                if exists {
                    Startup::begin_styles(path, styles_override)
                } else {
                    (
                        Startup::DefaultConfig { styles_override },
                        Action::LookupDefault { kind: FileKind::Config, ignored: Some(path) },
                    )
                }
            },
            (Startup::DefaultConfig { styles_override }, Event::DefaultPath(d)) => {
                Startup::begin_styles(d, styles_override)
            },
            (Startup::CheckingStyles { config_path, path }, Event::OverrideExists(exists)) => {
                if exists {
                    (
                        Startup::InstallingHandler { paths: ResolvedPaths { config: config_path, styles: path } },
                        Action::InstallSignalHandler,
                    )
                } else {
                    (
                        Startup::DefaultStyles { config_path },
                        Action::LookupDefault { kind: FileKind::Styles, ignored: Some(path) },
                    )
                }
            },
            (Startup::DefaultStyles { config_path }, Event::DefaultPath(d)) => (
                Startup::InstallingHandler { paths: ResolvedPaths { config: config_path, styles: d } },
                Action::InstallSignalHandler,
            ),
            (Startup::InstallingHandler { paths }, Event::Done) => {
                let path = paths.config.clone();
                (Startup::LoadingConfig { paths }, Action::LoadConfig { path })
            },
            (Startup::LoadingConfig { paths }, Event::ConfigLoaded(config)) => {
                let path = paths.styles.clone();
                (Startup::LoadingStyles { paths, config }, Action::LoadStyles { path })
            },
            (Startup::LoadingConfig { .. }, Event::ConfigFailed) => (
                Startup::Failed,
                Action::Exit { code: EXIT_LOAD_FAILURE },
            ),
            (Startup::LoadingStyles { paths, config }, Event::StylesLoaded(styles)) => {
                let watch_fullscreen = config.any_always_on_top();
                (Startup::Publishing { paths, watch_fullscreen }, Action::Publish { config, styles })
            },
            (Startup::LoadingStyles { .. }, Event::StylesFailed) => (
                Startup::Failed,
                Action::Exit { code: EXIT_LOAD_FAILURE },
            ),
            (Startup::Publishing { paths, watch_fullscreen }, Event::Done) => (
                Startup::CreatingBars { paths, watch_fullscreen },
                Action::CreateBars,
            ),
            (Startup::CreatingBars { paths, watch_fullscreen }, Event::Done) => (
                Startup::Running,
                Action::StartSupervisor { paths, watch_fullscreen },
            ),
            (s, _) => (s, Action::Wait),
        }
    }
}

/// The state reached and the actions issued when the events are fed in order.
pub open spec fn run(s: Startup, evs: Seq<Event>) -> (Startup, Seq<Action>)
    decreases evs.len(),
{
    if evs.len() == 0 {
        (s, Seq::empty())
    } else {
        let (s1, a) = next(s, evs[0]);
        let (s2, acts) = run(s1, evs.drop_first());
        (s2, seq![a] + acts)
    }
}

/// Startup has not yet reached publication: paths are being resolved, files
/// are loading, or the sequence failed.
pub open spec fn before_publish(s: Startup) -> bool {
    match s {
        Startup::Publishing { .. } | Startup::CreatingBars { .. } | Startup::Running => false,
        _ => true,
    }
}

proof fn lemma_run_cons(s: Startup, e: Event, evs: Seq<Event>)
    ensures
        run(s, seq![e] + evs) == ({
            let (s1, a) = next(s, e);
            let (s2, acts) = run(s1, evs);
            (s2, seq![a] + acts)
        }),
{
    let all = seq![e] + evs;
    assert(all.drop_first() =~= evs);
    assert(all[0] == e);
}

proof fn lemma_finished_absorbs(s: Startup, evs: Seq<Event>)
    requires
        s is Running || s is Failed,
    ensures
        run(s, evs).0 == s,
        run(s, evs).1.len() == evs.len(),
        forall|i: int| 0 <= i < evs.len() ==> #[trigger] run(s, evs).1[i] is Wait,
    decreases evs.len(),
{
    if evs.len() > 0 {
        lemma_finished_absorbs(s, evs.drop_first());
    }
}

proof fn lemma_no_exit_after_publish(s: Startup, evs: Seq<Event>)
    requires
        !before_publish(s),
    ensures
        forall|i: int| 0 <= i < run(s, evs).1.len() ==> !(#[trigger] run(s, evs).1[i] is Exit),
    decreases evs.len(),
{
    if evs.len() > 0 {
        let s1 = next(s, evs[0]).0;
        lemma_no_exit_after_publish(s1, evs.drop_first());
    }
}

/// Whenever startup ends in an exit, no bar was created along the way: a run
/// that starts before publication and issues an `Exit` issues no
/// `CreateBars`, and every `Exit` it issues carries status 1.
pub proof fn lemma_exit_means_no_bars(s: Startup, evs: Seq<Event>)
    requires
        before_publish(s),
    ensures
        (exists|i: int| 0 <= i < run(s, evs).1.len() && #[trigger] run(s, evs).1[i] is Exit) ==>
            forall|j: int| 0 <= j < run(s, evs).1.len() ==> !(#[trigger] run(s, evs).1[j] is CreateBars),
        forall|i: int| 0 <= i < run(s, evs).1.len() && #[trigger] run(s, evs).1[i] is Exit ==>
            run(s, evs).1[i] == (Action::Exit { code: 1 }),
    decreases evs.len(),
{
    if evs.len() > 0 {
        let (s1, a) = next(s, evs[0]);
        let rest = evs.drop_first();
        let acts = run(s, evs).1;
        let tail = run(s1, rest).1;
        assert(acts =~= seq![a] + tail);
        if s1 is Failed {
            lemma_finished_absorbs(s1, rest);
        } else if before_publish(s1) {
            lemma_exit_means_no_bars(s1, rest);
        } else {
            lemma_no_exit_after_publish(s1, rest);
        }
        assert forall|j: int| 0 <= j < acts.len() && #[trigger] acts[j] is Exit implies
            acts[j] == (Action::Exit { code: 1 }) by {
            if j > 0 {
                assert(acts[j] == tail[j - 1]);
            }
        }
        if exists|i: int| 0 <= i < acts.len() && #[trigger] acts[i] is Exit {
            let i = choose|i: int| 0 <= i < acts.len() && #[trigger] acts[i] is Exit;
            assert forall|j: int| 0 <= j < acts.len() implies !(#[trigger] acts[j] is CreateBars) by {
                if j > 0 {
                    assert(acts[j] == tail[j - 1]);
                }
                if i > 0 {
                    assert(acts[i] == tail[i - 1]);
                }
            }
        }
    }
}

/// A configuration or stylesheet that fails to load ends startup at once with
/// exit status 1, and no bar is created by any events that follow.
pub proof fn lemma_load_failure_is_fatal(paths: ResolvedPaths, config: RuntimeConfig, evs: Seq<Event>)
    ensures
        ({
            let (end, acts) = run(Startup::LoadingConfig { paths }, seq![Event::ConfigFailed] + evs);
            &&& end is Failed
            &&& acts[0] == (Action::Exit { code: 1 })
            &&& forall|j: int| 0 <= j < acts.len() ==> !(#[trigger] acts[j] is CreateBars)
        }),
        ({
            let (end, acts) = run(Startup::LoadingStyles { paths, config }, seq![Event::StylesFailed] + evs);
            &&& end is Failed
            &&& acts[0] == (Action::Exit { code: 1 })
            &&& forall|j: int| 0 <= j < acts.len() ==> !(#[trigger] acts[j] is CreateBars)
        }),
{
    lemma_run_cons(Startup::LoadingConfig { paths }, Event::ConfigFailed, evs);
    lemma_run_cons(Startup::LoadingStyles { paths, config }, Event::StylesFailed, evs);
    lemma_finished_absorbs(Startup::Failed, evs);
    lemma_exit_means_no_bars(Startup::LoadingConfig { paths }, seq![Event::ConfigFailed] + evs);
    lemma_exit_means_no_bars(Startup::LoadingStyles { paths, config }, seq![Event::StylesFailed] + evs);
    let a1 = run(Startup::LoadingConfig { paths }, seq![Event::ConfigFailed] + evs).1;
    assert(a1[0] is Exit);
    let a2 = run(Startup::LoadingStyles { paths, config }, seq![Event::StylesFailed] + evs).1;
    assert(a2[0] is Exit);
}

/// The action asks the caller to warn that an override path is ignored.
pub open spec fn warns(a: Action) -> bool {
    match a {
        Action::LookupDefault { ignored: Some(_), .. } => true,
        _ => false,
    }
}

proof fn lemma_run_one(s: Startup, e: Event)
    ensures
        run(s, seq![e]) == (next(s, e).0, seq![next(s, e).1]),
{
    lemma_run_cons(s, e, Seq::empty());
    assert(seq![e] + Seq::<Event>::empty() =~= seq![e]);
    assert(seq![next(s, e).1] + Seq::<Action>::empty() =~= seq![next(s, e).1]);
}

proof fn lemma_run_two(s: Startup, e1: Event, e2: Event)
    ensures
        run(s, seq![e1, e2]) == ({
            let (s1, a1) = next(s, e1);
            let (s2, a2) = next(s1, e2);
            (s2, seq![a1, a2])
        }),
{
    lemma_run_cons(s, e1, seq![e2]);
    assert(seq![e1] + seq![e2] =~= seq![e1, e2]);
    lemma_run_one(next(s, e1).0, e2);
    assert(seq![next(s, e1).1] + seq![next(next(s, e1).0, e2).1] =~= seq![
        next(s, e1).1,
        next(next(s, e1).0, e2).1,
    ]);
}

proof fn lemma_run_three(s: Startup, e1: Event, e2: Event, e3: Event)
    ensures
        run(s, seq![e1, e2, e3]) == ({
            let (s1, a1) = next(s, e1);
            let (s2, a2) = next(s1, e2);
            let (s3, a3) = next(s2, e3);
            (s3, seq![a1, a2, a3])
        }),
{
    lemma_run_cons(s, e1, seq![e2, e3]);
    assert(seq![e1] + seq![e2, e3] =~= seq![e1, e2, e3]);
    let s1 = next(s, e1).0;
    lemma_run_two(s1, e2, e3);
    let s2 = next(s1, e2).0;
    assert(seq![next(s, e1).1] + seq![next(s1, e2).1, next(s2, e3).1] =~= seq![
        next(s, e1).1,
        next(s1, e2).1,
        next(s2, e3).1,
    ]);
}

/// A configuration override that exists is used as given, with no warning.
/// One that does not exist draws exactly one warning, naming it, and the
/// default location is looked up and used instead.
pub proof fn lemma_config_override(p: String, styles_override: Option<String>, d: String)
    ensures
        run(
            Startup::Begin { config_override: Some(p), styles_override },
            seq![Event::Start, Event::OverrideExists(true)],
        ) == (
            begin_styles(p, styles_override).0,
            seq![Action::CheckExists { kind: FileKind::Config, path: p }, begin_styles(p, styles_override).1],
        ),
        !warns(begin_styles(p, styles_override).1),
        run(
            Startup::Begin { config_override: Some(p), styles_override },
            seq![Event::Start, Event::OverrideExists(false), Event::DefaultPath(d)],
        ) == (
            begin_styles(d, styles_override).0,
            seq![
                Action::CheckExists { kind: FileKind::Config, path: p },
                Action::LookupDefault { kind: FileKind::Config, ignored: Some(p) },
                begin_styles(d, styles_override).1,
            ],
        ),
        !warns(begin_styles(d, styles_override).1),
{
    let b = Startup::Begin { config_override: Some(p), styles_override };
    lemma_run_two(b, Event::Start, Event::OverrideExists(true));
    lemma_run_three(b, Event::Start, Event::OverrideExists(false), Event::DefaultPath(d));
}

/// A stylesheet override that exists is used as given, with no warning. One
/// that does not exist draws exactly one warning, naming it, and the default
/// location is looked up and used instead.
pub proof fn lemma_styles_override(config_path: String, p: String, d: String)
    ensures
        begin_styles(config_path, Some(p)) == (
            Startup::CheckingStyles { config_path, path: p },
            Action::CheckExists { kind: FileKind::Styles, path: p },
        ),
        run(Startup::CheckingStyles { config_path, path: p }, seq![Event::OverrideExists(true)]) == (
            Startup::InstallingHandler { paths: ResolvedPaths { config: config_path, styles: p } },
            seq![Action::InstallSignalHandler],
        ),
        run(
            Startup::CheckingStyles { config_path, path: p },
            seq![Event::OverrideExists(false), Event::DefaultPath(d)],
        ) == (
            Startup::InstallingHandler { paths: ResolvedPaths { config: config_path, styles: d } },
            seq![
                Action::LookupDefault { kind: FileKind::Styles, ignored: Some(p) },
                Action::InstallSignalHandler,
            ],
        ),
{
    let c = Startup::CheckingStyles { config_path, path: p };
    lemma_run_one(c, Event::OverrideExists(true));
    lemma_run_two(c, Event::OverrideExists(false), Event::DefaultPath(d));
}

/// Without an override no existence check is asked for: the default location
/// is looked up at once, with no warning, and used.
pub proof fn lemma_no_override(styles_override: Option<String>, config_path: String, d: String)
    ensures
        run(
            Startup::Begin { config_override: None, styles_override },
            seq![Event::Start, Event::DefaultPath(d)],
        ) == (
            begin_styles(d, styles_override).0,
            seq![
                Action::LookupDefault { kind: FileKind::Config, ignored: None },
                begin_styles(d, styles_override).1,
            ],
        ),
        begin_styles(config_path, None) == (
            Startup::DefaultStyles { config_path },
            Action::LookupDefault { kind: FileKind::Styles, ignored: None },
        ),
        run(Startup::DefaultStyles { config_path }, seq![Event::DefaultPath(d)]) == (
            Startup::InstallingHandler { paths: ResolvedPaths { config: config_path, styles: d } },
            seq![Action::InstallSignalHandler],
        ),
{
    lemma_run_two(Startup::Begin { config_override: None, styles_override }, Event::Start, Event::DefaultPath(d));
    lemma_run_one(Startup::DefaultStyles { config_path }, Event::DefaultPath(d));
}

/// Whatever the events, the background supervisor is started at most once.
pub proof fn lemma_supervisor_starts_at_most_once(s: Startup, evs: Seq<Event>)
    ensures
        forall|i: int, j: int|
            0 <= i < run(s, evs).1.len() && 0 <= j < run(s, evs).1.len()
                && #[trigger] run(s, evs).1[i] is StartSupervisor
                && #[trigger] run(s, evs).1[j] is StartSupervisor ==> i == j,
    decreases evs.len(),
{
    if evs.len() > 0 {
        let (s1, a) = next(s, evs[0]);
        let rest = evs.drop_first();
        let acts = run(s, evs).1;
        let tail = run(s1, rest).1;
        assert(acts =~= seq![a] + tail);
        if a is StartSupervisor {
            assert(s1 is Running);
            lemma_finished_absorbs(s1, rest);
        } else {
            lemma_supervisor_starts_at_most_once(s1, rest);
        }
        assert forall|i: int, j: int|
            0 <= i < acts.len() && 0 <= j < acts.len() && #[trigger] acts[i] is StartSupervisor
                && #[trigger] acts[j] is StartSupervisor implies i == j by {
            if i > 0 {
                assert(acts[i] == tail[i - 1]);
            }
            if j > 0 {
                assert(acts[j] == tail[j - 1]);
            }
        }
    }
}

/// Once the stylesheet loads, configuration and stylesheet are published
/// together, the bars are created, and the supervisor is started exactly once,
/// with the fullscreen watcher requested exactly when some bar is always on
/// top.
pub proof fn lemma_fullscreen_watch(
    paths: ResolvedPaths,
    config: RuntimeConfig,
    styles: String,
    evs: Seq<Event>,
)
    ensures
        ({
            let acts = run(
                Startup::LoadingStyles { paths, config },
                seq![Event::StylesLoaded(styles), Event::Done, Event::Done] + evs,
            ).1;
            &&& acts[0] == (Action::Publish { config, styles })
            &&& acts[1] is CreateBars
            &&& acts[2] == (Action::StartSupervisor {
                paths,
                watch_fullscreen: config.wants_fullscreen_watch(),
            })
            &&& forall|i: int| 0 <= i < acts.len() && #[trigger] acts[i] is StartSupervisor ==> i == 2
        }),
{
    let s = Startup::LoadingStyles { paths, config };
    let e = seq![Event::StylesLoaded(styles), Event::Done, Event::Done];
    let all = e + evs;
    let s1 = next(s, Event::StylesLoaded(styles)).0;
    let s2 = next(s1, Event::Done).0;
    assert(all =~= seq![Event::StylesLoaded(styles)] + (seq![Event::Done] + (seq![Event::Done] + evs)));
    lemma_run_cons(s, Event::StylesLoaded(styles), seq![Event::Done] + (seq![Event::Done] + evs));
    lemma_run_cons(s1, Event::Done, seq![Event::Done] + evs);
    lemma_run_cons(s2, Event::Done, evs);
    lemma_supervisor_starts_at_most_once(s, all);
    let acts = run(s, all).1;
    assert(acts[2] is StartSupervisor);
}

} // verus!
