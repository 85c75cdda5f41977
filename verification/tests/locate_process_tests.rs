use matan_bridge::config::render_config;
use matan_bridge::errors::Error;
use matan_bridge::errors::IoOp;
use matan_bridge::locate::binary_candidates;
use matan_bridge::locate::choose_binary;
use matan_bridge::locate::exe_name;
use matan_bridge::locate::override_var;
use matan_bridge::process::classify_exit;
use matan_bridge::task::TaskParams;
use matan_bridge::text::u64_string;

#[test]
fn candidate_order_unix() {
    let over = "over/matan_app".to_string();
    let res = "res".to_string();
    let cwd = "cur".to_string();
    let cands = binary_candidates(Some(&over), Some(&res), Some(&cwd), false);
    let got: Vec<&str> = cands.iter().map(|s| s.as_str()).collect();
    assert_eq!(
        got,
        vec![
            "over/matan_app",
            "res/bin/matan_app",
            "res/dist/bin/matan_app",
            "res/_up_/dist/bin/matan_app",
            "res/_up_/_up_/dist/bin/matan_app",
            "res/_up_/_up_/_up_/dist/bin/matan_app",
            "cur/dist/bin/matan_app",
            "cur/../dist/bin/matan_app",
            "cur/../../dist/bin/matan_app",
            "cur/build/matan_app",
            "cur/../build/matan_app",
            "cur/../../build/matan_app",
            "cur/../core/build/matan_app",
            "cur/../../core/build/matan_app",
        ]
    );
}

#[test]
fn candidate_windows_extension() {
    assert_eq!(exe_name(true), "matan_app.exe");
    assert_eq!(exe_name(false), "matan_app");
    let res = "res".to_string();
    let cands = binary_candidates(None, Some(&res), None, true);
    assert_eq!(cands[0], "res/bin/matan_app.exe");
    assert_eq!(cands.len(), 5);
}

#[test]
fn override_variable_name() {
    assert_eq!(override_var(), "MATAN_APP_PATH");
}

#[test]
fn override_bypasses_other_candidates() {
    let over = "over/matan_app".to_string();
    let res = "res".to_string();
    let cands = binary_candidates(Some(&over), Some(&res), None, false);
    // both the override and the first resource candidate exist: the
    // override must win even though a later probe also hits
    let exists = vec![true, true, false, false, false, false];
    let picked = choose_binary(&cands, &exists).expect("a candidate exists");
    assert_eq!(picked, 0);
    assert_eq!(cands[picked], "over/matan_app");
}

#[test]
fn first_existing_candidate_wins() {
    let res = "res".to_string();
    let cands = binary_candidates(None, Some(&res), None, false);
    let exists = vec![false, false, true, true, false];
    assert_eq!(choose_binary(&cands, &exists), Some(2));
    assert_eq!(cands[2], "res/_up_/dist/bin/matan_app");
}

#[test]
fn no_candidate_found() {
    let cands = binary_candidates(None, None, None, false);
    assert!(cands.is_empty());
    assert_eq!(choose_binary(&cands, &Vec::new()), None);
    let msg = Error::NotFound { exe_name: exe_name(false).to_string() }.message();
    assert_eq!(
        msg,
        "matan_app not found. Set MATAN_APP_PATH or place it in dist/bin or resources/bin/matan_app"
    );
}

#[test]
fn zero_exit_succeeds() {
    assert!(classify_exit(Some(0), String::new(), String::new()).is_ok());
}

#[test]
fn nonzero_exit_carries_output() {
    let err = classify_exit(Some(2), "captured out".to_string(), "captured err".to_string())
        .unwrap_err();
    match err {
        Error::Process { code, ref stdout, ref stderr } => {
            assert_eq!(code, Some(2));
            assert_eq!(stdout, "captured out");
            assert_eq!(stderr, "captured err");
        }
        other => panic!("wrong error: {}", other.message()),
    }
    assert_eq!(
        err.message(),
        "matan_app failed (code Some(2)). stdout: captured out stderr: captured err"
    );
}

#[test]
fn signal_termination_has_no_code() {
    let err = classify_exit(None, "o".to_string(), "e".to_string()).unwrap_err();
    assert_eq!(err.message(), "matan_app failed (code None). stdout: o stderr: e");
}

#[test]
fn negative_exit_code_rendered() {
    let err = classify_exit(Some(-11), String::new(), String::new()).unwrap_err();
    assert_eq!(err.message(), "matan_app failed (code Some(-11)). stdout:  stderr: ");
}

#[test]
fn decimal_rendering() {
    assert_eq!(u64_string(0), "0");
    assert_eq!(u64_string(7), "7");
    assert_eq!(u64_string(10), "10");
    assert_eq!(u64_string(90210), "90210");
    assert_eq!(u64_string(u64::MAX), "18446744073709551615");
}

#[test]
fn config_text_is_deterministic() {
    let p = TaskParams {
        task: "task2".to_string(),
        func: "sin(x)".to_string(),
        a: "-1".to_string(),
        b: "2.5".to_string(),
        task1_method: "Parabolic".to_string(),
        eps: "0.001".to_string(),
        h: "0.05".to_string(),
        rmse_sweep: true,
    };
    let text = render_config(&p, "/tmp/run/data");
    let expected = "[general]\ntask = task2\nfunc = sin(x)\na = -1\nb = 2.5\n\n\
        [task1]\nmethod = Parabolic\neps = 0.001\n\n\
        [task2]\nh = 0.05\nrmse_sweep = true\n\n\
        [output]\ndata_dir = /tmp/run/data\n";
    assert_eq!(text, expected);
    assert_eq!(text, render_config(&p, "/tmp/run/data"));
}

#[test]
fn io_error_messages() {
    let e = Error::Io { op: IoOp::CreateDataDir, detail: "denied".to_string() };
    assert_eq!(e.message(), "Failed to create data directory: denied");
    let e = Error::Io { op: IoOp::WriteConfig, detail: "full".to_string() };
    assert_eq!(e.message(), "Failed to write config: full");
    let e = Error::Io {
        op: IoOp::ReadFile { path: "/d/t.dat".to_string() },
        detail: "gone".to_string(),
    };
    assert_eq!(e.message(), "Failed to read /d/t.dat: gone");
    let e = Error::PathResolution { detail: "no home".to_string() };
    assert_eq!(e.message(), "Failed to resolve app data dir: no home");
    let e = Error::Spawn { detail: "not executable".to_string() };
    assert_eq!(e.message(), "Failed to run matan_app: not executable");
}
