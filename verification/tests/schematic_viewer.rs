use konnect::text::stem_of;
use konnect::viewer::{
    after_read, check_launch, detect_kicad, detect_kicad_cli, load_script, svg_file_name,
    window_title, CliRun, RenderJob, RenderStep, ViewerState,
};
use konnect::watcher::{
    parent_or_here, watch_dir, watch_report, ChangeFilter, ChangeKind, WatchReport,
};

fn viewer() -> ViewerState {
    ViewerState::new("kicad-cli".to_string())
}

#[test]
fn first_installed_tool_is_chosen() {
    assert_eq!(detect_kicad_cli([true, true]), "C:\\KiCad\\10.0\\bin\\kicad-cli.exe");
    assert_eq!(detect_kicad_cli([true, false]), "C:\\KiCad\\10.0\\bin\\kicad-cli.exe");
    assert_eq!(
        detect_kicad_cli([false, true]),
        "C:\\Program Files\\KiCad\\10.0\\bin\\kicad-cli.exe"
    );
    assert_eq!(detect_kicad_cli([false, false]), "kicad-cli");
    assert_eq!(detect_kicad([true, false]), "C:\\KiCad\\10.0\\bin\\kicad.exe");
    assert_eq!(detect_kicad([false, true]), "C:\\Program Files\\KiCad\\10.0\\bin\\kicad.exe");
    assert_eq!(detect_kicad([false, false]), "kicad");
}

#[test]
fn nothing_is_shown_before_a_schematic_is_opened() {
    let v = viewer();
    assert_eq!(v.refresh().err().unwrap(), "No schematic loaded");
    assert_eq!(v.open_in_kicad([true, true]).err().unwrap(), "No schematic loaded");
}

#[test]
fn missing_file_leaves_the_viewer_alone() {
    let mut v = viewer();
    let opened = v.open_schematic("a/b.kicad_sch".to_string(), false);
    assert_eq!(opened.err().unwrap(), "File not found: a/b.kicad_sch");
    assert!(v.schematic_path.is_none());

    assert!(v.open_schematic("a/b.kicad_sch".to_string(), true).is_ok());
    assert!(v.open_schematic("c.kicad_sch".to_string(), false).is_err());
    assert_eq!(v.schematic_path.as_deref(), Some("a/b.kicad_sch"));
}

#[test]
fn opened_schematic_is_rendered_again() {
    let mut v = viewer();
    let job = v.open_schematic("a/b.kicad_sch".to_string(), true).ok().unwrap();
    assert_eq!(job.cli, "kicad-cli");
    assert_eq!(job.schematic, "a/b.kicad_sch");
    let again = v.refresh().ok().unwrap();
    assert_eq!(again.cli, "kicad-cli");
    assert_eq!(again.schematic, "a/b.kicad_sch");
    let launch = v.open_in_kicad([false, false]).ok().unwrap();
    assert_eq!(launch.program, "kicad");
    assert_eq!(launch.argument, "a/b.kicad_sch");
}

#[test]
fn rendering_goes_step_by_step() {
    let job = RenderJob { cli: "kicad-cli".to_string(), schematic: "x/amp.kicad_sch".to_string() };
    match job.after_prepare("/tmp/konnect-viewer", Ok(())) {
        RenderStep::Run(args) => assert_eq!(
            args,
            ["sch", "export", "svg", "--output", "/tmp/konnect-viewer", "x/amp.kicad_sch"]
        ),
        _ => panic!("the tool has to run"),
    }
    let run = CliRun { success: true, stderr: b"warning".to_vec() };
    match job.after_run(Ok(run)) {
        RenderStep::Read(name) => assert_eq!(name, "amp.svg"),
        _ => panic!("the file has to be read"),
    }
    match after_read(Ok("<svg/>".to_string())) {
        RenderStep::Done(Ok(svg)) => assert_eq!(svg, "<svg/>"),
        _ => panic!("the file has been read"),
    }
}

fn failure(step: RenderStep) -> String {
    match step {
        RenderStep::Done(Err(message)) => message,
        _ => panic!("rendering has to fail"),
    }
}

#[test]
fn rendering_reports_what_failed() {
    let job = RenderJob { cli: "kicad-cli".to_string(), schematic: "amp.kicad_sch".to_string() };
    assert_eq!(failure(job.after_prepare("/t", Err("denied".to_string()))), "denied");
    assert_eq!(
        failure(job.after_run(Err("not found".to_string()))),
        "Failed to run kicad-cli: not found"
    );
    let run = CliRun { success: false, stderr: "caf\u{e9}: no sheet".as_bytes().to_vec() };
    assert_eq!(failure(job.after_run(Ok(run))), "kicad-cli failed: caf\u{e9}: no sheet");
    let run = CliRun { success: false, stderr: vec![b'a', 0xff, b'b'] };
    assert_eq!(failure(job.after_run(Ok(run))), "kicad-cli failed: a\u{fffd}b");
    assert_eq!(
        failure(after_read(Err("gone".to_string()))),
        "Failed to read SVG: gone"
    );
    assert_eq!(check_launch(Err("gone".to_string())).err().unwrap(), "Failed to launch KiCAD: gone");
    assert!(check_launch(Ok(())).is_ok());
}

#[test]
fn svg_file_is_named_after_the_schematic() {
    assert_eq!(svg_file_name(Some("amp.kicad_sch".to_string())), "amp.svg");
    assert_eq!(svg_file_name(None), ".svg");
    for name in ["amp.kicad_sch", "a.b.c", "noext", ".hidden", ".hidden.txt", "x.", "\u{e9}.\u{e8}", "a", "..a"] {
        let stem = std::path::Path::new(name).file_stem().unwrap().to_str().unwrap();
        assert_eq!(stem_of(name), stem);
    }
    assert_eq!(stem_of(""), "");
}

#[test]
fn rendered_schematic_gets_a_title() {
    assert_eq!(window_title(Some("amp.kicad_sch".to_string())), "amp.kicad_sch \u{2014} Schematic Viewer");
    assert_eq!(window_title(None), " \u{2014} Schematic Viewer");
    let job = RenderJob { cli: "c".to_string(), schematic: "/x y/amp.kicad_sch".to_string() };
    let opened = job.finish_open(Ok("<svg/>".to_string())).ok().unwrap();
    assert_eq!(opened.svg, "<svg/>");
    assert_eq!(opened.title, "amp.kicad_sch \u{2014} Schematic Viewer");
    assert_eq!(job.finish_open(Err("no".to_string())).err().unwrap(), "no");
}

#[test]
fn load_script_quotes_the_path() {
    assert_eq!(
        load_script("a.kicad_sch"),
        "if(window.loadSchematic) window.loadSchematic(\"a.kicad_sch\");"
    );
    assert_eq!(
        load_script("C:\\x\\\"y\".kicad_sch"),
        "if(window.loadSchematic) window.loadSchematic(\"C:\\\\x\\\\\\\"y\\\".kicad_sch\");"
    );
    assert_eq!(
        load_script("\u{8}\t\n\u{c}\r\u{0}\u{1f}\u{1a}\u{7f}\u{e9}\u{1f600}/"),
        "if(window.loadSchematic) window.loadSchematic(\"\\b\\t\\n\\f\\r\\u0000\\u001f\\u001a\u{7f}\u{e9}\u{1f600}/\");"
    );
}

#[test]
fn quoted_paths_stay_on_one_line_and_differ() {
    let mut scripts = Vec::new();
    for c in 0u32..0x80 {
        let path = char::from_u32(c).unwrap().to_string();
        let script = load_script(&path);
        assert!(script.chars().all(|c| c >= ' '));
        assert!(!scripts.contains(&script));
        let quoted = &script["if(window.loadSchematic) window.loadSchematic(".len()..script.len() - 2];
        assert_eq!(serde_json::from_str::<String>(quoted).unwrap(), path);
        scripts.push(script);
    }
}

const MS: u64 = 1_000_000;

fn names(list: &[Option<&str>]) -> Vec<Option<String>> {
    list.iter().map(|n| n.map(|s| s.to_string())).collect()
}

#[test]
fn changes_are_debounced() {
    let mut filter = ChangeFilter::new("x/a.kicad_sch", 0);
    let ours = names(&[Some("a.kicad_sch")]);
    assert!(!filter.accept(ChangeKind::Modified, &ours, 499 * MS));
    assert!(!filter.accept(ChangeKind::Modified, &ours, 500 * MS - 1));
    assert!(filter.accept(ChangeKind::Modified, &ours, 500 * MS));
    assert_eq!(filter.last_event, 500 * MS);
    assert!(!filter.accept(ChangeKind::Created, &ours, 999 * MS));
    assert!(filter.accept(ChangeKind::Created, &ours, 1000 * MS));
    assert!(!filter.accept(ChangeKind::Created, &ours, 0));
    assert!(filter.accept(ChangeKind::Modified, &ours, u64::MAX));
}

#[test]
fn other_changes_are_ignored() {
    let mut filter = ChangeFilter::new("x/a.kicad_sch", 0);
    assert!(!filter.accept(ChangeKind::Other, &names(&[Some("a.kicad_sch")]), 900 * MS));
    assert!(!filter.accept(ChangeKind::Modified, &names(&[]), 900 * MS));
    assert!(!filter.accept(ChangeKind::Modified, &names(&[None, Some("b.kicad_sch")]), 900 * MS));
    assert_eq!(filter.last_event, 0);
    assert!(filter.accept(ChangeKind::Modified, &names(&[None, Some("b"), Some("a.kicad_sch")]), 900 * MS));
    let mut unnamed = ChangeFilter::for_name(None, 0);
    assert!(!unnamed.accept(ChangeKind::Modified, &names(&[None]), 900 * MS));
    assert_eq!(unnamed.target_name, "");
}

#[test]
fn changed_paths_are_told_by_their_names() {
    let mut filter = ChangeFilter::new("x/a.kicad_sch", 0);
    let paths = |list: &[&str]| -> Vec<String> { list.iter().map(|s| s.to_string()).collect() };
    assert!(!filter.accept_paths(ChangeKind::Modified, &paths(&[]), 900 * MS));
    assert!(!filter.accept_paths(ChangeKind::Modified, &paths(&["x/b", "a.kicad_sch/.."]), 900 * MS));
    assert!(!filter.accept_paths(ChangeKind::Other, &paths(&["x/a.kicad_sch"]), 900 * MS));
    assert_eq!(filter.last_event, 0);
    assert!(filter.accept_paths(ChangeKind::Created, &paths(&["x/b", "/y/a.kicad_sch"]), 900 * MS));
    assert_eq!(filter.last_event, 900 * MS);
    assert!(!filter.accept_paths(ChangeKind::Modified, &paths(&["x/a.kicad_sch"]), 1399 * MS));
    assert!(filter.accept_paths(ChangeKind::Modified, &paths(&["x/a.kicad_sch"]), 1400 * MS));
}

#[test]
fn ignored_changes_leave_no_trace() {
    let ours = names(&[Some("a")]);
    let other = names(&[Some("b")]);
    let mut plain = ChangeFilter::new("a", 0);
    let mut noisy = ChangeFilter::new("a", 0);
    for t in [100u64, 600, 700, 1200, 1650, 1700, 5000] {
        assert!(!noisy.accept(ChangeKind::Other, &ours, (t - 1) * MS));
        assert!(!noisy.accept(ChangeKind::Modified, &other, (t - 1) * MS));
        let rendered = plain.accept(ChangeKind::Modified, &ours, t * MS);
        assert_eq!(rendered, noisy.accept(ChangeKind::Modified, &ours, t * MS));
        assert_eq!(rendered, [600, 1200, 1700, 5000].contains(&t));
    }
    assert_eq!(plain.last_event, noisy.last_event);
}

#[test]
fn last_found_schematic_is_rendered() {
    let mut v = viewer();
    assert!(v.open_schematic("a".to_string(), false).is_err());
    assert_eq!(v.refresh().err().unwrap(), "No schematic loaded");
    assert!(v.open_schematic("b".to_string(), true).is_ok());
    assert!(v.open_schematic("c".to_string(), true).is_ok());
    assert!(v.open_schematic("d".to_string(), false).is_err());
    let job = v.refresh().ok().unwrap();
    assert_eq!(job.schematic, "c");
    assert_eq!(job.cli, "kicad-cli");
}

#[test]
fn schematics_are_watched_where_they_are() {
    assert_eq!(ChangeFilter::new("/home/me/a.kicad_sch", 3).target_name, "a.kicad_sch");
    assert_eq!(ChangeFilter::new("a.kicad_sch", 3).target_name, "a.kicad_sch");
    assert_eq!(ChangeFilter::new("a/..", 3).target_name, "");
    assert_eq!(watch_dir("/home/me/a.kicad_sch"), "/home/me");
    assert_eq!(watch_dir("x/../y/a.kicad_sch"), "x/../y");
    assert_eq!(watch_dir("a.kicad_sch"), "");
    for (path, name, dir) in [
        ("./x", "x", "."),
        ("../x", "x", ".."),
        ("a/../x", "x", "a/.."),
        ("a./x", "x", "a."),
        ("/x", "x", "/"),
        ("/x/", "x", "/"),
        ("a/b/./", "b", "a"),
        ("x/", "x", ""),
        ("x/.//", "x", ""),
        ("a/b:c", "b:c", "a"),
        ("ab:c", "ab:c", ""),
        ("ab:/x", "x", "ab:"),
        ("/.hidden", ".hidden", "/"),
        ("\u{e9}/\u{e8}", "\u{e8}", "\u{e9}"),
    ] {
        assert_eq!(ChangeFilter::new(path, 0).target_name, name, "{}", path);
        assert_eq!(watch_dir(path), dir, "{}", path);
    }
    for path in ["", "/", ".", "..", "a/..", "/..", "../.."] {
        assert_eq!(ChangeFilter::new(path, 0).target_name, "", "{}", path);
    }
    assert_eq!(watch_dir(""), ".");
    assert_eq!(watch_dir("/"), ".");
    for (path, names, dirs) in [
        ("a\\x", ["x", "a\\x"], ["a", ""]),
        ("b/a\\x", ["x", "a\\x"], ["b/a", "b"]),
        ("/a\\x/", ["x", "a\\x"], ["/a", "/"]),
        ("\\a\\x", ["x", "\\a\\x"], ["\\a", ""]),
    ] {
        assert!(names.contains(&ChangeFilter::new(path, 0).target_name.as_str()), "{}", path);
        assert!(dirs.contains(&watch_dir(path).as_str()), "{}", path);
    }
    let drive = ChangeFilter::new("c:x", 0).target_name;
    assert!(drive == "x" || drive == "c:x");
    assert_eq!(parent_or_here(None), ".");
    assert_eq!(parent_or_here(Some("d".to_string())), "d");
}

#[test]
fn new_renderings_are_reported() {
    match watch_report(Ok("<svg/>".to_string())) {
        WatchReport::Emit(svg) => assert_eq!(svg, "<svg/>"),
        WatchReport::Log(_) => panic!("there is something to show"),
    }
    match watch_report(Err("no".to_string())) {
        WatchReport::Log(line) => assert_eq!(line, "[Viewer] Render error: no"),
        WatchReport::Emit(_) => panic!("there is nothing to show"),
    }
}
