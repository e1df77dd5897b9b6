//! The Windows build: the PowerShell commands it runs to find, start, stop
//! and install the monitor, and where it keeps its log and its shortcut.

use crate::text::{decimal, decimal_string, ends_with, lemma_decimal_injective, lemma_middle, starts_with};
use vstd::prelude::*;

verus! {

/// The monitor's program name, under which PowerShell lists its process.
pub open spec fn app_name() -> Seq<char> {
    "wmd"@
}

/// The filter that picks the monitor's processes other than `pid`.
pub open spec fn process_filter(pid: u32) -> Seq<char> {
    "Get-Process | Where-Object { $_.ProcessName -eq '"@ + app_name() + "' -and $_.Id -ne "@
        + decimal(pid as nat) + " }"@
}

/// The PowerShell command that lists another running monitor, if any.
pub open spec fn spec_process_query_command(pid: u32) -> Seq<char> {
    process_filter(pid) + " | Select-Object -First 1"@
}

/// The PowerShell command that ends every other running monitor.
pub open spec fn spec_stop_command(pid: u32) -> Seq<char> {
    process_filter(pid) + " | Stop-Process -Force"@
}

fn process_filter_string(pid: u32) -> (r: String)
    ensures
        r@ == process_filter(pid),
{
    let mut s = String::from_str("Get-Process | Where-Object { $_.ProcessName -eq '");
    s.append("wmd");
    s.append("' -and $_.Id -ne ");
    s.append(decimal_string(pid).as_str());
    s.append(" }");
    s
}

/// The PowerShell command that lists another running monitor than the
/// process `pid` (the one asking), if any.
pub fn process_query_command(pid: u32) -> (r: String)
    ensures
        r@ == spec_process_query_command(pid),
{
    let mut s = process_filter_string(pid);
    s.append(" | Select-Object -First 1");
    s
}

/// The PowerShell command that ends every running monitor but the process
/// `pid` (the one asking).
pub fn stop_command(pid: u32) -> (r: String)
    ensures
        r@ == spec_stop_command(pid),
{
    let mut s = process_filter_string(pid);
    s.append(" | Stop-Process -Force");
    s
}

/// Another monitor runs exactly when the process query printed anything.
pub fn is_running(query_output: &[u8]) -> (r: bool)
    ensures
        r == (query_output@.len() > 0),
{
    query_output.len() > 0
}

/// What `start` does, given the output of the process query, or `None`
/// where the query could not be run: it starts the monitor unless the query
/// shows one running.
pub fn plan_start(query_output: Option<&[u8]>) -> (r: crate::control::StartPlan)
    ensures
        r == match query_output {
            Some(o) => if o@.len() > 0 {
                crate::control::StartPlan::AlreadyRunning
            } else {
                crate::control::StartPlan::Launch
            },
            None => crate::control::StartPlan::Launch,
        },
{
    match query_output {
        Some(o) => if is_running(o) {
            crate::control::StartPlan::AlreadyRunning
        } else {
            crate::control::StartPlan::Launch
        },
        None => crate::control::StartPlan::Launch,
    }
}

/// The PowerShell command that starts the program `exe` hidden, with the
/// `run` subcommand.
pub open spec fn spec_launch_command(exe: Seq<char>) -> Seq<char> {
    "$proc = Start-Process '"@ + exe
        + "' -ArgumentList run -WindowStyle Hidden -PassThru; $null = [System.Runtime.Interopservices.Marshal]::ReleaseComObject($proc)"@
}

/// The PowerShell command that starts the program `exe` hidden, with the
/// `run` subcommand.
pub fn launch_command(exe: &str) -> (r: String)
    ensures
        r@ == spec_launch_command(exe@),
{
    let mut s = String::from_str("$proc = Start-Process '");
    s.append(exe);
    s.append(
        "' -ArgumentList run -WindowStyle Hidden -PassThru; $null = [System.Runtime.Interopservices.Marshal]::ReleaseComObject($proc)",
    );
    s
}

/// The PowerShell script that creates the shortcut `shortcut`, which starts
/// the program `exe` hidden with the `run` subcommand through PowerShell.
pub open spec fn spec_shortcut_script(shortcut: Seq<char>, exe: Seq<char>) -> Seq<char> {
    "$WS = New-Object -ComObject WScript.Shell; $SC = $WS.CreateShortcut('"@ + shortcut
        + "'); $SC.TargetPath = 'powershell.exe'; $SC.Arguments = '-WindowStyle Hidden -Command \"\"\"$proc = Start-Process \"\"\""@
        + exe
        + "\"\"\" -ArgumentList run -WindowStyle Hidden -PassThru; $null = [System.Runtime.Interopservices.Marshal]::ReleaseComObject($proc)\"\"\"'; $SC.Save()"@
}

/// The PowerShell script that creates the shortcut `shortcut`, which starts
/// the program `exe` hidden with the `run` subcommand through PowerShell.
pub fn shortcut_script(shortcut: &str, exe: &str) -> (r: String)
    ensures
        r@ == spec_shortcut_script(shortcut@, exe@),
{
    let mut s = String::from_str(
        "$WS = New-Object -ComObject WScript.Shell; $SC = $WS.CreateShortcut('",
    );
    s.append(shortcut);
    s.append(
        "'); $SC.TargetPath = 'powershell.exe'; $SC.Arguments = '-WindowStyle Hidden -Command \"\"\"$proc = Start-Process \"\"\"",
    );
    s.append(exe);
    s.append(
        "\"\"\" -ArgumentList run -WindowStyle Hidden -PassThru; $null = [System.Runtime.Interopservices.Marshal]::ReleaseComObject($proc)\"\"\"'; $SC.Save()",
    );
    s
}

/// Where the log lies, as the parts of a path to join: the local application
/// data folder (or `C:\Temp` where it is not set), the program's folder, and
/// the log file.
pub open spec fn spec_log_path_parts(local_app_data: Option<Seq<char>>) -> Seq<Seq<char>> {
    seq![
        match local_app_data {
            Some(d) => d,
            None => "C:\\Temp"@,
        },
        app_name(),
        "wmd.log"@,
    ]
}

/// Where the log lies, as the parts of a path to join.
pub fn log_path_parts(local_app_data: Option<&str>) -> (r: Vec<String>)
    ensures
        r@.len() == 3,
        forall|i: int|
            0 <= i < 3 ==> #[trigger] r@[i]@ == spec_log_path_parts(
                match local_app_data {
                    Some(d) => Some(d@),
                    None => None,
                },
            )[i],
{
    let base = match local_app_data {
        Some(d) => String::from_str(d),
        None => String::from_str("C:\\Temp"),
    };
    let mut r: Vec<String> = Vec::new();
    r.push(base);
    r.push(String::from_str("wmd"));
    r.push(String::from_str("wmd.log"));
    r
}

/// Why the startup shortcut has no place.
#[derive(Debug, Clone, Copy, PartialEq, Eq, Structural)]
pub enum StartupError {
    /// The roaming application data folder is not set.
    AppDataMissing,
}

/// The message of a `StartupError`.
pub fn startup_error_message(e: StartupError) -> (r: &'static str)
    ensures
        r@ == "Could not find AppData directory"@,
{
    match e {
        StartupError::AppDataMissing => "Could not find AppData directory",
    }
}

/// Where the startup shortcut lies, as the parts of a path to join: the
/// roaming application data folder, its startup folder, and the shortcut.
pub open spec fn spec_shortcut_path_parts(app_data: Seq<char>) -> Seq<Seq<char>> {
    seq![app_data, "Microsoft\\Windows\\Start Menu\\Programs\\Startup"@, "wmd.lnk"@]
}

/// Where the startup shortcut lies, as the parts of a path to join; there is
/// no such place where the roaming application data folder is not set.
pub fn shortcut_path_parts(app_data: Option<&str>) -> (r: Result<Vec<String>, StartupError>)
    ensures
        app_data is None <==> r == Err::<Vec<String>, StartupError>(StartupError::AppDataMissing),
        app_data matches Some(d) ==> r matches Ok(v) && v@.len() == 3 && forall|i: int|
            0 <= i < 3 ==> #[trigger] v@[i]@ == spec_shortcut_path_parts(d@)[i],
{
    match app_data {
        None => Err(StartupError::AppDataMissing),
        Some(d) => {
            let mut r: Vec<String> = Vec::new();
            r.push(String::from_str(d));
            r.push(String::from_str("Microsoft\\Windows\\Start Menu\\Programs\\Startup"));
            r.push(String::from_str("wmd.lnk"));
            Ok(r)
        },
    }
}

/// Two texts made of the same frame around decimal numbers are equal only
/// where the numbers are.
proof fn lemma_framed_number_injective(pre: Seq<char>, post: Seq<char>, a: nat, b: nat)
    requires
        pre + decimal(a) + post == pre + decimal(b) + post,
    ensures
        a == b,
{
    lemma_middle(pre, decimal(a), post);
    lemma_middle(pre, decimal(b), post);
    assert(decimal(a).len() == decimal(b).len());
    lemma_decimal_injective(a, b);
}

/// The stop command ends every monitor named `wmd` but the asking process:
/// it names that process's id, in decimal, as the one to spare, so
/// different asking processes get different commands.
pub proof fn lemma_stop_command_spares_asker(pid: u32, other: u32)
    ensures
        starts_with(
            spec_stop_command(pid),
            "Get-Process | Where-Object { $_.ProcessName -eq '"@ + "wmd"@ + "' -and $_.Id -ne "@,
        ),
        ends_with(spec_stop_command(pid), decimal(pid as nat) + " }"@ + " | Stop-Process -Force"@),
        spec_stop_command(pid) == spec_stop_command(other) ==> pid == other,
{
    let pre = "Get-Process | Where-Object { $_.ProcessName -eq '"@ + "wmd"@ + "' -and $_.Id -ne "@;
    let post = " }"@ + " | Stop-Process -Force"@;
    assert(spec_stop_command(pid) =~= pre + decimal(pid as nat) + post);
    assert(spec_stop_command(other) =~= pre + decimal(other as nat) + post);
    lemma_middle(pre, decimal(pid as nat), post);
    let tail = decimal(pid as nat) + " }"@ + " | Stop-Process -Force"@;
    assert(tail =~= decimal(pid as nat) + post);
    assert(spec_stop_command(pid).subrange(
        spec_stop_command(pid).len() - tail.len(),
        spec_stop_command(pid).len() as int,
    ) =~= tail);
    if spec_stop_command(pid) == spec_stop_command(other) {
        lemma_framed_number_injective(pre, post, pid as nat, other as nat);
    }
}

/// The process query lists monitors named `wmd` other than the asking
/// process: it names that process's id, in decimal, as the one to leave out,
/// so different asking processes get different queries.
pub proof fn lemma_query_command_leaves_out_asker(pid: u32, other: u32)
    ensures
        starts_with(
            spec_process_query_command(pid),
            "Get-Process | Where-Object { $_.ProcessName -eq '"@ + "wmd"@ + "' -and $_.Id -ne "@,
        ),
        ends_with(
            spec_process_query_command(pid),
            decimal(pid as nat) + " }"@ + " | Select-Object -First 1"@,
        ),
        spec_process_query_command(pid) == spec_process_query_command(other) ==> pid == other,
{
    let pre = "Get-Process | Where-Object { $_.ProcessName -eq '"@ + "wmd"@ + "' -and $_.Id -ne "@;
    let post = " }"@ + " | Select-Object -First 1"@;
    assert(spec_process_query_command(pid) =~= pre + decimal(pid as nat) + post);
    assert(spec_process_query_command(other) =~= pre + decimal(other as nat) + post);
    lemma_middle(pre, decimal(pid as nat), post);
    let tail = decimal(pid as nat) + " }"@ + " | Select-Object -First 1"@;
    assert(tail =~= decimal(pid as nat) + post);
    assert(spec_process_query_command(pid).subrange(
        spec_process_query_command(pid).len() - tail.len(),
        spec_process_query_command(pid).len() as int,
    ) =~= tail);
    if spec_process_query_command(pid) == spec_process_query_command(other) {
        lemma_framed_number_injective(pre, post, pid as nat, other as nat);
    }
}

} // verus!
