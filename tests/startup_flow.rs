use yasb_core::config::{BarSettings, RuntimeConfig};
use yasb_core::startup::{Action, Event, FileKind, Startup, EXIT_LOAD_FAILURE};

fn bar(id: &str, always_on_top: Option<bool>) -> BarSettings {
    BarSettings { id: id.to_string(), always_on_top }
}

fn config_with(bars: Vec<BarSettings>) -> RuntimeConfig {
    RuntimeConfig { bars }
}

fn some(s: &str) -> Option<String> {
    Some(s.to_string())
}

#[test]
fn existing_config_override_is_used_without_warning() {
    let s = Startup::new(some("/tmp/my.yaml"), None);
    let (s, a) = s.step(Event::Start);
    assert!(matches!(a, Action::CheckExists { kind: FileKind::Config, ref path } if path == "/tmp/my.yaml"));
    let (s, a) = s.step(Event::OverrideExists(true));
    assert!(matches!(a, Action::LookupDefault { kind: FileKind::Styles, ignored: None }));
    let (s, a) = s.step(Event::DefaultPath("/home/u/.yasb/styles.css".to_string()));
    assert!(matches!(a, Action::InstallSignalHandler));
    let (_, a) = s.step(Event::Done);
    assert!(matches!(a, Action::LoadConfig { ref path } if path == "/tmp/my.yaml"));
}

#[test]
fn missing_config_override_warns_once_and_uses_default() {
    let s = Startup::new(some("/nope/config.yaml"), None);
    let (s, a) = s.step(Event::Start);
    assert!(matches!(a, Action::CheckExists { kind: FileKind::Config, .. }));
    let (s, a) = s.step(Event::OverrideExists(false));
    assert!(matches!(a, Action::LookupDefault { kind: FileKind::Config, ignored: Some(ref p) } if p == "/nope/config.yaml"));
    let (s, a) = s.step(Event::DefaultPath("/home/u/.yasb/config.yaml".to_string()));
    assert!(matches!(a, Action::LookupDefault { kind: FileKind::Styles, ignored: None }));
    let (s, a) = s.step(Event::DefaultPath("/home/u/.yasb/styles.css".to_string()));
    assert!(matches!(a, Action::InstallSignalHandler));
    let (s, a) = s.step(Event::Done);
    assert!(matches!(a, Action::LoadConfig { ref path } if path == "/home/u/.yasb/config.yaml"));
    let (s, a) = s.step(Event::ConfigLoaded(config_with(vec![bar("main", None)])));
    assert!(matches!(a, Action::LoadStyles { ref path } if path == "/home/u/.yasb/styles.css"));
    let (s, a) = s.step(Event::StylesLoaded("* {}".to_string()));
    assert!(matches!(a, Action::Publish { ref styles, .. } if styles == "* {}"));
    let (s, a) = s.step(Event::Done);
    assert!(matches!(a, Action::CreateBars));
    let (s, a) = s.step(Event::Done);
    assert!(matches!(a, Action::StartSupervisor { watch_fullscreen: false, .. }));
    assert!(s.is_finished());
}

#[test]
fn missing_styles_override_warns_once() {
    let s = Startup::new(None, some("/nope/styles.css"));
    let (s, a) = s.step(Event::Start);
    assert!(matches!(a, Action::LookupDefault { kind: FileKind::Config, ignored: None }));
    let (s, a) = s.step(Event::DefaultPath("/d/config.yaml".to_string()));
    assert!(matches!(a, Action::CheckExists { kind: FileKind::Styles, ref path } if path == "/nope/styles.css"));
    let (s, a) = s.step(Event::OverrideExists(false));
    assert!(matches!(a, Action::LookupDefault { kind: FileKind::Styles, ignored: Some(ref p) } if p == "/nope/styles.css"));
    let (s, a) = s.step(Event::DefaultPath("/d/styles.css".to_string()));
    assert!(matches!(a, Action::InstallSignalHandler));
    let (_, a) = s.step(Event::Done);
    assert!(matches!(a, Action::LoadConfig { ref path } if path == "/d/config.yaml"));
}

#[test]
fn absent_overrides_go_straight_to_default() {
    let s = Startup::new(None, None);
    let (s, a) = s.step(Event::Start);
    assert!(matches!(a, Action::LookupDefault { kind: FileKind::Config, ignored: None }));
    let (_, a) = s.step(Event::DefaultPath("/d/config.yaml".to_string()));
    assert!(matches!(a, Action::LookupDefault { kind: FileKind::Styles, ignored: None }));
}

fn loading_config() -> Startup {
    let s = Startup::new(None, None);
    let (s, _) = s.step(Event::Start);
    let (s, _) = s.step(Event::DefaultPath("/d/config.yaml".to_string()));
    let (s, _) = s.step(Event::DefaultPath("/d/styles.css".to_string()));
    let (s, _) = s.step(Event::Done);
    s
}

#[test]
fn config_failure_exits_with_one() {
    let (s, a) = loading_config().step(Event::ConfigFailed);
    assert!(matches!(a, Action::Exit { code: 1 }));
    assert_eq!(EXIT_LOAD_FAILURE, 1);
    assert!(s.is_finished());
    let (s, a) = s.step(Event::Done);
    assert!(matches!(a, Action::Wait));
    let (_, a) = s.step(Event::StylesLoaded("x".to_string()));
    assert!(matches!(a, Action::Wait));
}

#[test]
fn invalid_stylesheet_exits_and_never_creates_bars() {
    let (s, a) = loading_config().step(Event::ConfigLoaded(config_with(vec![bar("main", Some(true))])));
    assert!(matches!(a, Action::LoadStyles { .. }));
    let (s, a) = s.step(Event::StylesFailed);
    assert!(matches!(a, Action::Exit { code: 1 }));
    let mut s = s;
    for _ in 0..3 {
        let (next, a) = s.step(Event::Done);
        assert!(!matches!(a, Action::CreateBars | Action::Publish { .. } | Action::StartSupervisor { .. }));
        s = next;
    }
}

fn run_to_supervisor(config: RuntimeConfig) -> (Vec<Action>, Startup) {
    let (s, _) = loading_config().step(Event::ConfigLoaded(config));
    let mut actions = Vec::new();
    let (s, a) = s.step(Event::StylesLoaded("css".to_string()));
    actions.push(a);
    let (s, a) = s.step(Event::Done);
    actions.push(a);
    let (s, a) = s.step(Event::Done);
    actions.push(a);
    let (s, a) = s.step(Event::Done);
    actions.push(a);
    (actions, s)
}

fn count_supervisors(actions: &[Action]) -> usize {
    actions.iter().filter(|a| matches!(a, Action::StartSupervisor { .. })).count()
}

#[test]
fn no_always_on_top_bar_means_no_fullscreen_watch() {
    let (actions, _) = run_to_supervisor(config_with(vec![bar("a", None), bar("b", Some(false))]));
    assert_eq!(count_supervisors(&actions), 1);
    assert!(matches!(actions[2], Action::StartSupervisor { watch_fullscreen: false, .. }));
    let (actions, _) = run_to_supervisor(config_with(vec![]));
    assert!(matches!(actions[2], Action::StartSupervisor { watch_fullscreen: false, .. }));
}

#[test]
fn one_always_on_top_bar_starts_fullscreen_watch_once() {
    let (actions, _) = run_to_supervisor(config_with(vec![bar("a", None), bar("b", Some(true))]));
    assert_eq!(count_supervisors(&actions), 1);
    assert!(matches!(&actions[2], Action::StartSupervisor { watch_fullscreen: true, paths }
        if paths.config == "/d/config.yaml" && paths.styles == "/d/styles.css"));
    assert!(matches!(actions[3], Action::Wait));
}

#[test]
fn unexpected_events_change_nothing() {
    let s = Startup::new(None, None);
    let (s, a) = s.step(Event::Done);
    assert!(matches!(a, Action::Wait));
    assert!(matches!(s, Startup::Begin { config_override: None, styles_override: None }));
    assert!(!s.is_finished());
}

#[test]
fn any_always_on_top_detects_set_flag() {
    assert!(!config_with(vec![]).any_always_on_top());
    assert!(!config_with(vec![bar("a", Some(false)), bar("b", None)]).any_always_on_top());
    assert!(config_with(vec![bar("a", Some(false)), bar("b", Some(true))]).any_always_on_top());
}
