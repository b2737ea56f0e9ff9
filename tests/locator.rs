use bridge_shell::locator::{interpreter_candidates, join_path, select_interpreter};

fn probe(exe_dir: Option<&str>, cwd: &str, found: &[usize]) -> String {
    let cands = interpreter_candidates(&exe_dir.map(|s| s.to_string()), cwd);
    let exists: Vec<bool> = (0..cands.len()).map(|i| found.contains(&i)).collect();
    select_interpreter(&cands, &exists)
}

#[test]
fn join_adds_one_separator() {
    assert_eq!(join_path("/opt/app", "venv/bin/python3"), "/opt/app/venv/bin/python3");
    assert_eq!(join_path("/opt/app/", "venv/bin/python3"), "/opt/app/venv/bin/python3");
    assert_eq!(join_path("C:\\app\\", "venv/Scripts/python.exe"), "C:\\app\\venv/Scripts/python.exe");
    assert_eq!(join_path("", ".venv/bin/python3"), ".venv/bin/python3");
}

#[test]
fn candidates_in_probing_order() {
    let c = interpreter_candidates(&Some("/opt/app".to_string()), "/home/u/proj");
    assert_eq!(
        c,
        vec![
            "/opt/app/.venv/bin/python3",
            "/opt/app/venv/bin/python3",
            "/opt/app/.venv/Scripts/python.exe",
            "/opt/app/venv/Scripts/python.exe",
            "/home/u/proj/.venv/bin/python3",
            "/home/u/proj/venv/bin/python3",
            "/home/u/proj/.venv/Scripts/python.exe",
            "/home/u/proj/venv/Scripts/python.exe",
        ]
    );
}

#[test]
fn candidates_without_executable_dir() {
    let c = interpreter_candidates(&None, "");
    assert_eq!(
        c,
        vec![
            ".venv/bin/python3",
            "venv/bin/python3",
            ".venv/Scripts/python.exe",
            "venv/Scripts/python.exe",
        ]
    );
}

#[test]
fn each_candidate_wins_when_first_to_exist() {
    let all = interpreter_candidates(&Some("/opt/app".to_string()), "/w");
    for i in 0..all.len() {
        let found: Vec<usize> = (i..all.len()).collect();
        assert_eq!(probe(Some("/opt/app"), "/w", &found), all[i]);
    }
}

#[test]
fn executable_dir_beats_working_dir() {
    assert_eq!(probe(Some("/opt/app"), "/w", &[3, 4]), "/opt/app/venv/Scripts/python.exe");
    assert_eq!(probe(Some("/opt/app"), "/w", &[5, 6]), "/w/venv/bin/python3");
}

#[test]
fn hidden_unix_beats_plain_and_windows() {
    assert_eq!(probe(Some("/a"), "/w", &[0, 1, 2, 3]), "/a/.venv/bin/python3");
    assert_eq!(probe(Some("/a"), "/w", &[2, 3]), "/a/.venv/Scripts/python.exe");
}

#[test]
fn fallback_when_nothing_exists() {
    assert_eq!(probe(Some("/opt/app"), "/w", &[]), "python3");
    assert_eq!(probe(None, "/w", &[]), "python3");
    assert_eq!(select_interpreter(&vec![], &vec![]), "python3");
}
