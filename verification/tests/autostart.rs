use cliplink::autostart::{
    apply, disable_is_noop, enable_data, plan, query_command, reg_command, RUN_KEY, RUN_VALUE,
};

#[test]
fn add_command_writes_quoted_exe_with_minimized() {
    let a = reg_command(true, r"C:\Program Files\ClipLink\cliplink.exe");
    assert_eq!(a[0], "add");
    assert!(a.contains(&RUN_KEY.to_string()));
    assert_eq!(
        a[a.len() - 2],
        r#""C:\Program Files\ClipLink\cliplink.exe" --minimized"#
    );
    assert_eq!(*a.last().unwrap(), "/f");
    assert!(a.contains(&"/t".to_string()));
}

#[test]
fn delete_command_has_no_data() {
    let a = reg_command(false, r"C:\ClipLink.exe");
    assert_eq!(a[0], "delete");
    assert!(a.contains(&"/v".to_string()));
    assert!(a.contains(&RUN_VALUE.to_string()));
    assert!(!a.iter().any(|x| x.contains("--minimized")));
    assert!(!a.iter().any(|x| x.contains("Program Files")));
}

#[test]
fn query_command_shape() {
    let a = query_command();
    assert_eq!(a[0], "query");
    assert!(a.contains(&RUN_KEY.to_string()));
    assert!(a.contains(&RUN_VALUE.to_string()));
}

#[test]
fn disable_when_entry_missing_is_idempotent_ok() {
    assert!(disable_is_noop(false));
    assert!(!disable_is_noop(true));
}

#[test]
fn portable_move_rewrites_old_exe_path() {
    let old_exe = r"D:\Old\ClipLink\cliplink.exe";
    let new_exe = r"E:\New Folder\ClipLink\cliplink.exe";
    let old_data = enable_data(old_exe);
    assert!(old_data.contains("D:\\Old\\ClipLink"));
    let a = reg_command(true, new_exe);
    let data = a[a.len() - 2].clone();
    assert!(data.contains(r"E:\New Folder\ClipLink\cliplink.exe"));
    assert!(!data.contains("D:\\Old\\ClipLink"));
    assert!(data.ends_with(" --minimized"));
}

#[test]
fn key_and_whole_commands_are_exact() {
    assert_eq!(RUN_KEY, r"HKCU\Software\Microsoft\Windows\CurrentVersion\Run");
    assert_eq!(
        reg_command(true, "x.exe"),
        vec!["add", RUN_KEY, "/v", "ClipLink", "/t", "REG_SZ", "/d", "\"x.exe\" --minimized", "/f"]
    );
    assert_eq!(
        reg_command(false, "x.exe"),
        vec!["delete", RUN_KEY, "/v", "ClipLink", "/f"]
    );
}

#[test]
fn removing_a_missing_entry_runs_nothing() {
    assert!(plan(false, false, "x").is_none());
    assert_eq!(plan(false, true, "x").unwrap()[0], "delete");
    assert_eq!(plan(true, false, "x").unwrap()[0], "add");
    assert_eq!(plan(true, true, "x").unwrap()[0], "add");
}

#[test]
fn failure_reports_error_output_first() {
    assert_eq!(apply(true, "", "ignored"), Ok(()));
    assert_eq!(
        apply(false, " out ", " err\r\n"),
        Err("reg.exe 退出码非零: err".to_string())
    );
    assert_eq!(
        apply(false, " out ", " \r\n"),
        Err("reg.exe 退出码非零: out".to_string())
    );
}
