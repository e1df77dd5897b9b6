use whatmedoin::control::StartPlan;
use whatmedoin::windows::{
    is_running, launch_command, plan_start, log_path_parts, process_query_command, shortcut_path_parts,
    shortcut_script, startup_error_message, stop_command, StartupError,
};

const APP_NAME: &str = "wmd";

#[test]
fn query_command_matches_format() {
    let pid = 5150u32;
    let expected = format!(
        "Get-Process | Where-Object {{ $_.ProcessName -eq '{}' -and $_.Id -ne {} }} | Select-Object -First 1",
        APP_NAME, pid
    );
    assert_eq!(process_query_command(pid), expected);
}

#[test]
fn stop_command_matches_format() {
    let pid = 0u32;
    let expected = format!(
        "Get-Process | Where-Object {{ $_.ProcessName -eq '{}' -and $_.Id -ne {} }} | Stop-Process -Force",
        APP_NAME, pid
    );
    assert_eq!(stop_command(pid), expected);
}

#[test]
fn launch_command_matches_format() {
    let exe = "C:\\Tools\\wmd.exe";
    let expected = format!(
        "$proc = Start-Process '{}' -ArgumentList run -WindowStyle Hidden -PassThru; \
         $null = [System.Runtime.Interopservices.Marshal]::ReleaseComObject($proc)",
        exe
    );
    assert_eq!(launch_command(exe), expected);
}

#[test]
fn shortcut_script_matches_format() {
    let shortcut = "C:\\Users\\me\\AppData\\Roaming\\Microsoft\\Windows\\Start Menu\\Programs\\Startup\\wmd.lnk";
    let exe = "C:\\Tools\\wmd.exe";
    let expected = format!(
        "$WS = New-Object -ComObject WScript.Shell; \
         $SC = $WS.CreateShortcut('{}'); \
         $SC.TargetPath = 'powershell.exe'; \
         $SC.Arguments = '-WindowStyle Hidden -Command \"\"\"$proc = Start-Process \"\"\"{}\"\"\" -ArgumentList run -WindowStyle Hidden -PassThru; $null = [System.Runtime.Interopservices.Marshal]::ReleaseComObject($proc)\"\"\"'; \
         $SC.Save()",
        shortcut, exe
    );
    assert_eq!(shortcut_script(shortcut, exe), expected);
}

#[test]
fn running_iff_output() {
    assert!(is_running(b"\r\nHandles  NPM(K) ...\r\n"));
    assert!(!is_running(b""));
}

#[test]
fn log_path_defaults_to_temp() {
    assert_eq!(log_path_parts(None), vec!["C:\\Temp".to_string(), "wmd".to_string(), "wmd.log".to_string()]);
    assert_eq!(
        log_path_parts(Some("C:\\Users\\me\\AppData\\Local")),
        vec!["C:\\Users\\me\\AppData\\Local".to_string(), "wmd".to_string(), "wmd.log".to_string()]
    );
}

#[test]
fn shortcut_path_needs_app_data() {
    assert_eq!(shortcut_path_parts(None), Err(StartupError::AppDataMissing));
    assert_eq!(startup_error_message(StartupError::AppDataMissing), "Could not find AppData directory");
    assert_eq!(
        shortcut_path_parts(Some("C:\\Roaming")),
        Ok(vec![
            "C:\\Roaming".to_string(),
            "Microsoft\\Windows\\Start Menu\\Programs\\Startup".to_string(),
            "wmd.lnk".to_string()
        ])
    );
}

#[test]
fn windows_start_plan() {
    assert_eq!(plan_start(Some(b"Handles ...")), StartPlan::AlreadyRunning);
    assert_eq!(plan_start(Some(b"")), StartPlan::Launch);
    assert_eq!(plan_start(None), StartPlan::Launch);
}
