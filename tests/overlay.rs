use lxd_bench::berbalang_config::{Arch, Mode, RoperConfig};
use lxd_bench::overlay::{apply_timeout, overlay_config, ConfigError};

const BASE: &str = "job = \"Hello\"\ntimeout = \"5m\"\npop_size = 10\n\n[observer]\nwindow_size = 3\ndump_soup = false\n";

fn table(text: &str) -> toml::Table {
    toml::from_str::<toml::Table>(text).unwrap()
}

#[test]
fn overlay_without_override_keeps_every_entry() {
    let out = overlay_config(BASE, &None).unwrap();
    assert_eq!(table(&out), table(BASE));
}

#[test]
fn overlay_with_override_changes_only_timeout() {
    let out = overlay_config(BASE, &Some("2h".to_string())).unwrap();
    let got = table(&out);
    let mut want = table(BASE);
    want.insert("timeout".to_string(), toml::Value::String("2h".to_string()));
    assert_eq!(got, want);
    assert_eq!(got["timeout"].as_str(), Some("2h"));
    assert_ne!(got, table(BASE));
}

#[test]
fn overlay_adds_timeout_when_base_has_none() {
    let out = overlay_config("a = 1\n", &Some("30s".to_string())).unwrap();
    let got = table(&out);
    assert_eq!(got.len(), 2);
    assert_eq!(got["a"].as_integer(), Some(1));
    assert_eq!(got["timeout"].as_str(), Some("30s"));
}

#[test]
fn overlay_of_empty_document() {
    assert_eq!(overlay_config("", &None).unwrap(), "");
}

#[test]
fn malformed_base_is_a_parse_error() {
    assert!(matches!(overlay_config("job = = 3", &None), Err(ConfigError::Parse(_))));
    assert!(matches!(overlay_config("[a\n", &Some("1".to_string())), Err(ConfigError::Parse(_))));
}

#[test]
fn apply_timeout_sets_only_timeout() {
    let mut t = table(BASE);
    apply_timeout(&mut t, &None);
    assert_eq!(t, table(BASE));
    apply_timeout(&mut t, &Some("9".to_string()));
    assert_eq!(t["timeout"].as_str(), Some("9"));
    assert_eq!(t["pop_size"].as_integer(), Some(10));
    assert_eq!(t.len(), table(BASE).len());
}

#[test]
fn roper_defaults() {
    let r = RoperConfig::default();
    assert_eq!(r.arch, Arch::X86);
    assert_eq!(r.mode, Mode::MODE_64);
    assert_eq!(r.num_workers, 8);
    assert_eq!(r.num_emulators, 8);
    assert_eq!(r.wait_limit, 500);
    assert_eq!(r.max_emu_steps, Some(0x10_000));
    assert_eq!(r.millisecond_timeout, Some(500));
    assert_eq!(r.emulator_stack_size, 0x1000);
    assert_eq!(r.binary_path, "/bin/sh");
    assert!(r.output_registers.is_empty() && r.bad_bytes.is_none() && !r.use_push);
}

#[test]
fn enum_defaults() {
    assert_eq!(Arch::default(), Arch::X86);
    assert_eq!(Mode::default(), Mode::MODE_32);
}
