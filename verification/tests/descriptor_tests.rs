use dotaudit::Descriptor;
use dotaudit::FilterConfig;
use dotaudit::build_descriptor;
use dotaudit::report_line;
use dotaudit::ExistenceProbeOutcome;
use dotaudit::ResolvedPath;

fn entry_a() -> Descriptor {
    Descriptor {
        name: "A".to_string(),
        raw_path: "/does/not/exist".to_string(),
        movable: false,
        help: "h".to_string(),
    }
}


fn resolved_absent() -> ResolvedPath {
    ResolvedPath::from_probe("/does/not/exist".to_string(), ExistenceProbeOutcome::Absent)
}

fn resolved_present() -> ResolvedPath {
    ResolvedPath::from_probe("/does/not/exist".to_string(), ExistenceProbeOutcome::Exists)
}

#[test]
fn build_descriptor_without_path_yields_nothing() {
    let r = build_descriptor(
        Some("A".to_string()),
        None,
        Some(true),
        Some("h".to_string()),
    );
    assert!(r.is_none());
}

#[test]
fn build_descriptor_defaults() {
    let d = build_descriptor(None, Some("/p".to_string()), None, None).unwrap();
    assert_eq!(d.name, "Unknown");
    assert_eq!(d.raw_path, "/p");
    assert!(!d.movable);
    assert_eq!(d.help, "No help available");
}

#[test]
fn build_descriptor_keeps_given_fields() {
    let d = build_descriptor(
        Some("A".to_string()),
        Some("/p".to_string()),
        Some(true),
        Some("h".to_string()),
    )
    .unwrap();
    assert_eq!(d.name, "A");
    assert_eq!(d.raw_path, "/p");
    assert!(d.movable);
    assert_eq!(d.help, "h");
}

#[test]
fn missing_entry_hidden_without_skip_ok_then_shown_with_it() {
    let d = entry_a();
    let quiet = FilterConfig { skip_ok: false, skip_unsupported: false };
    assert!(report_line(&d, &resolved_absent(), quiet).is_none());

    let verbose = FilterConfig { skip_ok: true, skip_unsupported: false };
    let line = report_line(&d, &resolved_absent(), verbose).unwrap();
    assert_eq!(line, "[A] /does/not/exist\n\nh\n\n");
}

#[test]
fn present_unmovable_entry_follows_skip_unsupported() {
    let d = entry_a();
    let showing = FilterConfig { skip_ok: false, skip_unsupported: false };
    let line = report_line(&d, &resolved_present(), showing).unwrap();
    assert_eq!(line, "[A] /does/not/exist\n\nh\n\n");

    let suppressing = FilterConfig { skip_ok: false, skip_unsupported: true };
    assert!(report_line(&d, &resolved_present(), suppressing).is_none());
}

#[test]
fn present_movable_entry_always_reported() {
    let mut d = entry_a();
    d.movable = true;
    for &skip_ok in &[false, true] {
        for &skip_unsupported in &[false, true] {
            let cfg = FilterConfig { skip_ok, skip_unsupported };
            let line = report_line(&d, &resolved_present(), cfg).unwrap();
            assert_eq!(line, "[A] /does/not/exist\n\nh\n\n");
        }
    }
}

#[test]
fn undetermined_probe_counts_as_absent() {
    let d = entry_a();
    let undetermined = ResolvedPath::from_probe(
        "/does/not/exist".to_string(),
        ExistenceProbeOutcome::Undetermined,
    );
    assert!(!undetermined.exists);
    let quiet = FilterConfig { skip_ok: false, skip_unsupported: false };
    assert!(report_line(&d, &undetermined, quiet).is_none());
    let verbose = FilterConfig { skip_ok: true, skip_unsupported: false };
    assert!(report_line(&d, &undetermined, verbose).is_some());
}
