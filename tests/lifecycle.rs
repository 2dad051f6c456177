use yasb_core::args::parse_cmd_args;
use yasb_core::config::{BarSettings, RuntimeConfig};
use yasb_core::fullscreen::{FullscreenWatch, VisibilityChange};
use yasb_core::shutdown::{Shutdown, ShutdownAction, ShutdownEvent, EXIT_INTERRUPTED};
use yasb_core::store::ConfigStore;

fn strings(v: &[&str]) -> Vec<String> {
    v.iter().map(|s| s.to_string()).collect()
}

#[test]
fn interrupt_removes_bars_once_then_exits_zero() {
    for removed in [true, false] {
        let (s, a) = Shutdown::Armed.step(ShutdownEvent::Interrupt);
        assert_eq!(a, ShutdownAction::RemoveBars);
        let (s, a) = s.step(ShutdownEvent::Interrupt);
        assert_eq!(a, ShutdownAction::Nothing);
        let (s, a) = s.step(ShutdownEvent::RemovalFinished(removed));
        assert_eq!(a, ShutdownAction::Exit { code: 0 });
        assert_eq!(s, Shutdown::Exited);
        let (_, a) = s.step(ShutdownEvent::Interrupt);
        assert_eq!(a, ShutdownAction::Nothing);
    }
    assert_eq!(EXIT_INTERRUPTED, 0);
}

#[test]
fn removal_report_before_interrupt_is_ignored() {
    let (s, a) = Shutdown::Armed.step(ShutdownEvent::RemovalFinished(true));
    assert_eq!(a, ShutdownAction::Nothing);
    assert_eq!(s, Shutdown::Armed);
}

fn sample_config() -> RuntimeConfig {
    RuntimeConfig { bars: vec![BarSettings { id: "main".to_string(), always_on_top: Some(true) }] }
}

#[test]
fn store_publishes_config_and_styles_together() {
    let mut store = ConfigStore::new();
    assert!(!store.is_published());
    assert!(store.snapshot().is_none());
    assert!(!store.replace_styles("x".to_string()));
    assert!(!store.replace_config(sample_config()));
    assert!(store.snapshot().is_none());
    store.publish(sample_config(), "a {}".to_string());
    assert!(store.is_published());
    let snap = store.snapshot().unwrap();
    assert_eq!(snap.styles, "a {}");
    assert_eq!(snap.config.bars[0].id, "main");
}

#[test]
fn store_reload_replaces_one_part_wholesale() {
    let mut store = ConfigStore::new();
    store.publish(sample_config(), "a {}".to_string());
    assert!(store.replace_styles("b {}".to_string()));
    assert_eq!(store.snapshot().unwrap().styles, "b {}");
    assert_eq!(store.snapshot().unwrap().config.bars.len(), 1);
    assert!(store.replace_config(RuntimeConfig { bars: vec![] }));
    assert_eq!(store.snapshot().unwrap().config.bars.len(), 0);
    assert_eq!(store.snapshot().unwrap().styles, "b {}");
}

#[test]
fn fullscreen_hides_and_restores() {
    let mut w = FullscreenWatch::new();
    assert_eq!(w.observe(false), VisibilityChange::Keep);
    assert_eq!(w.observe(true), VisibilityChange::Hide);
    assert!(w.hidden);
    assert_eq!(w.observe(true), VisibilityChange::Keep);
    assert_eq!(w.observe(false), VisibilityChange::Restore);
    assert!(!w.hidden);
}

#[test]
fn args_empty_are_unset() {
    let inv = parse_cmd_args(&vec![]);
    assert!(!inv.verbose);
    assert_eq!(inv.config_override, None);
    assert_eq!(inv.styles_override, None);
}

#[test]
fn args_long_and_short_flags() {
    let inv = parse_cmd_args(&strings(&["--config", "/a.yaml", "-s", "/b.css", "-v"]));
    assert!(inv.verbose);
    assert_eq!(inv.config_override.as_deref(), Some("/a.yaml"));
    assert_eq!(inv.styles_override.as_deref(), Some("/b.css"));
    let inv = parse_cmd_args(&strings(&["--verbose", "-c", "/x.yaml", "--styles", "/y.css"]));
    assert!(inv.verbose);
    assert_eq!(inv.config_override.as_deref(), Some("/x.yaml"));
    assert_eq!(inv.styles_override.as_deref(), Some("/y.css"));
}

#[test]
fn args_last_flag_wins_and_dangling_flag_is_ignored() {
    let inv = parse_cmd_args(&strings(&["-c", "/first", "--config", "/second", "--styles"]));
    assert!(!inv.verbose);
    assert_eq!(inv.config_override.as_deref(), Some("/second"));
    assert_eq!(inv.styles_override, None);
    let inv = parse_cmd_args(&strings(&["--bogus", "value", "--verbosity"]));
    assert!(!inv.verbose);
    assert_eq!(inv.config_override, None);
}
