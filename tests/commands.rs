use winstyles_bridge::{
    build_args, diff_args, export_args, import_args, inspect_args, is_blank, is_white_space,
    scan_args, split_list, trim_text, Request,
};

fn strs(v: &[&str]) -> Vec<String> {
    v.iter().map(|s| s.to_string()).collect()
}

#[test]
fn scan_without_options() {
    assert_eq!(scan_args(&None, &None, None), strs(&["-m", "winstyles", "scan"]));
}

#[test]
fn scan_empty_category_list_adds_nothing() {
    assert_eq!(scan_args(&Some(vec![]), &None, Some(false)), strs(&["-m", "winstyles", "scan"]));
}

#[test]
fn scan_keeps_category_order() {
    let cats = strs(&["taskbar", "explorer", "taskbar"]);
    assert_eq!(
        scan_args(&Some(cats), &Some("json".to_string()), Some(true)),
        strs(&[
            "-m", "winstyles", "scan", "-c", "taskbar", "-c", "explorer", "-c", "taskbar", "-f",
            "json", "--modified-only"
        ])
    );
}

#[test]
fn export_trims_and_drops_blank_categories() {
    assert_eq!(
        export_args(&"out.json".to_string(), &Some("a, ,b".to_string()), None),
        Ok(strs(&["-m", "winstyles", "export", "out.json", "-c", "a", "-c", "b"]))
    );
}

#[test]
fn export_with_defaults() {
    assert_eq!(
        export_args(&"o.json".to_string(), &None, Some(true)),
        Ok(strs(&["-m", "winstyles", "export", "o.json", "--include-defaults"]))
    );
    assert_eq!(
        export_args(&"o.json".to_string(), &Some(" , ".to_string()), Some(false)),
        Ok(strs(&["-m", "winstyles", "export", "o.json"]))
    );
}

#[test]
fn import_flags() {
    let p = "cfg.json".to_string();
    assert_eq!(
        import_args(&p, Some(true), Some(true)),
        Ok(strs(&["-m", "winstyles", "import", "cfg.json", "--dry-run", "--skip-restore-point"]))
    );
    assert_eq!(
        import_args(&p, None, Some(true)),
        Ok(strs(&["-m", "winstyles", "import", "cfg.json", "--skip-restore-point"]))
    );
    assert_eq!(
        import_args(&p, Some(false), Some(false)),
        import_args(&p, None, None)
    );
}

#[test]
fn false_flags_equal_absent_ones() {
    assert_eq!(scan_args(&None, &None, Some(false)), scan_args(&None, &None, None));
    let a = "A.reg".to_string();
    let b = "B.reg".to_string();
    assert_eq!(diff_args(&a, &b, Some(false)), diff_args(&a, &b, None));
    assert_eq!(
        diff_args(&a, &b, None),
        Ok(strs(&["-m", "winstyles", "diff", "A.reg", "B.reg", "-f", "json"]))
    );
}

#[test]
fn blank_paths_are_refused() {
    let msg = Err("path is required".to_string());
    assert_eq!(export_args(&"".to_string(), &None, None), msg);
    assert_eq!(export_args(&"   ".to_string(), &Some("a".to_string()), Some(true)), msg);
    assert_eq!(import_args(&"\t\n".to_string(), Some(true), None), msg);
    assert_eq!(inspect_args(&" ".to_string()), msg);
    assert_eq!(diff_args(&"A.reg".to_string(), &"\u{3000}".to_string(), None), msg);
    assert_eq!(diff_args(&"".to_string(), &"B.reg".to_string(), None), msg);
}

#[test]
fn inspect_always_asks_for_json() {
    assert_eq!(
        inspect_args(&"theme.reg".to_string()),
        Ok(strs(&["-m", "winstyles", "inspect", "theme.reg", "-f", "json"]))
    );
}

#[test]
fn diff_with_all() {
    assert_eq!(
        diff_args(&"A.reg".to_string(), &"B.reg".to_string(), Some(true)),
        Ok(strs(&["-m", "winstyles", "diff", "A.reg", "B.reg", "-f", "json", "--all"]))
    );
}

#[test]
fn paths_keep_their_spaces() {
    assert_eq!(
        inspect_args(&" my file.reg ".to_string()),
        Ok(strs(&["-m", "winstyles", "inspect", " my file.reg ", "-f", "json"]))
    );
}

#[test]
fn build_args_per_request() {
    let scan = Request::Scan {
        categories: Some(strs(&["x"])),
        format: None,
        modified_only: None,
    };
    assert_eq!(build_args(&scan), Ok(strs(&["-m", "winstyles", "scan", "-c", "x"])));
    let export = Request::Export {
        path: "e.json".to_string(),
        categories: Some("x,y".to_string()),
        include_defaults: None,
    };
    assert_eq!(
        build_args(&export),
        Ok(strs(&["-m", "winstyles", "export", "e.json", "-c", "x", "-c", "y"]))
    );
    let import = Request::Import { path: " ".to_string(), dry_run: None, skip_restore: None };
    assert_eq!(build_args(&import), Err("path is required".to_string()));
    let inspect = Request::Inspect { path: "i.reg".to_string() };
    assert_eq!(
        build_args(&inspect),
        Ok(strs(&["-m", "winstyles", "inspect", "i.reg", "-f", "json"]))
    );
    let diff = Request::Diff {
        path_a: "a".to_string(),
        path_b: "b".to_string(),
        show_all: Some(true),
    };
    assert_eq!(
        build_args(&diff),
        Ok(strs(&["-m", "winstyles", "diff", "a", "b", "-f", "json", "--all"]))
    );
}

#[test]
fn split_list_entries() {
    assert_eq!(split_list(" x ,y,, z "), strs(&["x", "y", "z"]));
    assert_eq!(split_list(""), Vec::<String>::new());
    assert_eq!(split_list(",,"), Vec::<String>::new());
    assert_eq!(split_list("a b"), strs(&["a b"]));
}

#[test]
fn trimming_and_blanks() {
    assert_eq!(trim_text("\u{a0} a b \t"), "a b".to_string());
    assert_eq!(trim_text("   "), "".to_string());
    assert!(is_blank(&"\u{2028}\r\n".to_string()));
    assert!(!is_blank(&" x ".to_string()));
    assert!(is_white_space('\u{85}'));
    assert!(!is_white_space('\u{200b}'));
    assert!(!is_white_space('a'));
}
