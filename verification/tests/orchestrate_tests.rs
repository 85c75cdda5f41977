use matan_bridge::errors::Error;
use matan_bridge::orchestrate::plan_run;
use matan_bridge::orchestrate::FileKind;
use matan_bridge::task::normalize_task;
use matan_bridge::task::TaskKind;
use matan_bridge::task::TaskParams;

fn params(task: &str, rmse_sweep: bool) -> TaskParams {
    TaskParams {
        task: task.to_string(),
        func: "f1".to_string(),
        a: "0".to_string(),
        b: "1".to_string(),
        task1_method: "Golden".to_string(),
        eps: "1e-6".to_string(),
        h: "0.1".to_string(),
        rmse_sweep,
    }
}

#[test]
fn minimize_aliases_normalize() {
    for sel in ["minimize", "minimization", "task1", "1", "MINIMIZE", "Task1", "MiniMization"] {
        let r = normalize_task(&sel.to_string());
        assert!(matches!(r, Some(TaskKind::Minimize)), "{sel}");
    }
}

#[test]
fn differentiate_aliases_normalize() {
    for sel in
        ["differentiate", "differentiation", "task2", "2", "diff", "derivative", "DIFF", "Task2"]
    {
        let r = normalize_task(&sel.to_string());
        assert!(matches!(r, Some(TaskKind::Differentiate)), "{sel}");
    }
}

#[test]
fn unknown_selectors_rejected() {
    for sel in ["", "task3", "minimise", "3", "min", "der", " minimize"] {
        assert!(normalize_task(&sel.to_string()).is_none(), "{sel}");
    }
}

#[test]
fn unknown_task_fails_before_any_plan() {
    let err = plan_run(&params("task3", false), "/base").unwrap_err();
    assert!(matches!(err, Error::InvalidArgument));
    assert_eq!(err.message(), "Unknown task value");
}

#[test]
fn plan_resolves_run_paths() {
    let plan = plan_run(&params("minimize", false), "/base").expect("plan should succeed");
    assert!(matches!(plan.kind, TaskKind::Minimize));
    assert_eq!(plan.run_dir, "/base/matan");
    assert_eq!(plan.data_dir, "/base/matan/data");
    assert_eq!(plan.config_path, "/base/matan/config.ini");
}

#[test]
fn plan_lowercases_method() {
    let plan = plan_run(&params("1", false), "/base").expect("plan should succeed");
    assert_eq!(plan.method, "golden");
}

#[test]
fn plan_renders_config_text() {
    let plan = plan_run(&params("minimize", false), "/base").expect("plan should succeed");
    let expected = "[general]\ntask = minimize\nfunc = f1\na = 0\nb = 1\n\n\
        [task1]\nmethod = Golden\neps = 1e-6\n\n\
        [task2]\nh = 0.1\nrmse_sweep = false\n\n\
        [output]\ndata_dir = /base/matan/data\n";
    assert_eq!(plan.config_text, expected);
}

#[test]
fn plan_renders_rmse_flag_true() {
    let plan = plan_run(&params("2", true), "/base").expect("plan should succeed");
    assert!(plan.config_text.contains("rmse_sweep = true\n"));
}

#[test]
fn minimize_reads_four_files() {
    let plan = plan_run(&params("minimize", false), "/base").expect("plan should succeed");
    let files = plan.output_files();
    let paths: Vec<&str> = files.iter().map(|f| f.path.as_str()).collect();
    assert_eq!(
        paths,
        vec![
            "/base/matan/data/task1_func.dat",
            "/base/matan/data/task1_golden_points.dat",
            "/base/matan/data/task1_golden_interval.dat",
            "/base/matan/data/task1_summary.dat",
        ]
    );
    assert!(matches!(files[0].kind, FileKind::Table { arity: 2 }));
    assert!(matches!(files[1].kind, FileKind::Table { arity: 3 }));
    assert!(matches!(files[2].kind, FileKind::Table { arity: 4 }));
    assert!(matches!(files[3].kind, FileKind::Summary));
}

#[test]
fn differentiate_skips_rmse_file_when_not_requested() {
    let plan = plan_run(&params("differentiate", false), "/base").expect("plan should succeed");
    let files = plan.output_files();
    assert_eq!(files.len(), 1);
    assert_eq!(files[0].path, "/base/matan/data/task2_all.dat");
    assert!(matches!(files[0].kind, FileKind::Table { arity: 6 }));
}

#[test]
fn differentiate_reads_rmse_file_when_requested() {
    let plan = plan_run(&params("differentiate", true), "/base").expect("plan should succeed");
    let files = plan.output_files();
    assert_eq!(files.len(), 2);
    assert_eq!(files[1].path, "/base/matan/data/task2_rmse.dat");
    assert!(matches!(files[1].kind, FileKind::Table { arity: 4 }));
}

#[test]
fn decode_minimize_assembles_task1() {
    let plan = plan_run(&params("MINIMIZE", false), "/base").expect("plan should succeed");
    let contents = vec![
        "0.0 1.0\n0.5 0.25\n".to_string(),
        "1 0.1 0.2\n2 0.3 0.4\n".to_string(),
        "0 1 0.2 0.8\n".to_string(),
        "0.5 -0.25\n".to_string(),
    ];
    let resp = plan.decode_outputs(&contents).expect("decode should succeed");
    assert_eq!(resp.task, "minimize");
    assert!(resp.task2.is_none());
    let d = resp.task1.expect("task1 payload expected");
    assert_eq!(d.func.len(), 2);
    assert_eq!(d.points.len(), 2);
    assert_eq!(d.intervals.len(), 1);
    assert_eq!(d.intervals[0], vec!["0", "1", "0.2", "0.8"]);
    assert_eq!(d.x_min, "0.5");
    assert_eq!(d.f_min, "-0.25");
}

#[test]
fn decode_minimize_reports_failing_file() {
    let plan = plan_run(&params("minimize", false), "/base").expect("plan should succeed");
    let contents = vec![
        "0.0 1.0\n".to_string(),
        "1 0.1\n".to_string(),
        "0 1 0.2 0.8\n".to_string(),
        "0.5 -0.25\n".to_string(),
    ];
    let msg = plan.decode_outputs(&contents).unwrap_err().message();
    assert_eq!(msg, "Too few columns in /base/matan/data/task1_golden_points.dat line 1");
}

#[test]
fn decode_differentiate_without_sweep_leaves_rmse_empty() {
    let plan = plan_run(&params("task2", false), "/base").expect("plan should succeed");
    let contents = vec!["0 1 2 3 4 5\n0.1 1 2 3 4 5\n".to_string()];
    let resp = plan.decode_outputs(&contents).expect("decode should succeed");
    assert_eq!(resp.task, "differentiate");
    assert!(resp.task1.is_none());
    let d = resp.task2.expect("task2 payload expected");
    assert_eq!(d.combined.len(), 2);
    assert!(d.rmse.is_empty());
}

#[test]
fn decode_differentiate_with_sweep_reads_rmse() {
    let plan = plan_run(&params("derivative", true), "/base").expect("plan should succeed");
    let contents = vec![
        "0 1 2 3 4 5\n".to_string(),
        "0.1 0.01 0.001 0.0001\n0.2 0.02 0.002 0.0002\n".to_string(),
    ];
    let resp = plan.decode_outputs(&contents).expect("decode should succeed");
    let d = resp.task2.expect("task2 payload expected");
    assert_eq!(d.rmse.len(), 2);
    assert_eq!(d.rmse[1], vec!["0.2", "0.02", "0.002", "0.0002"]);
}
