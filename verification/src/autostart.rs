//! Launch-at-login registration on three platforms: what to do on the host to
//! enable, disable and query it, what each step's report means, and a model
//! of the host against which the three operations agree.

use vstd::prelude::*;
use vstd::string::*;
use crate::text::{join_path, joined_path, texts};

verus! {

/// A host platform with a registration mechanism of its own.
#[derive(Clone, Copy, Debug, PartialEq, Eq, Structural)]
pub enum Platform {
    /// A login-item descriptor file, registered with `launchctl`.
    MacOs,
    /// A value under the per-user autorun registry key.
    Windows,
    /// A desktop entry in the per-user autostart folder.
    Linux,
}

/// The path that could not be resolved.
#[derive(Clone, Copy, Debug, PartialEq, Eq, Structural)]
pub enum PathSubject {
    Executable,
    HomeDirectory,
}

/// Why a registration operation failed.
#[derive(Clone, Debug, PartialEq, Eq)]
pub enum AutostartError {
    /// The running executable or the home directory is unknown.
    PathResolution { subject: PathSubject, message: String },
    /// A file could not be created, written or removed.
    Persistence { message: String },
    /// A native command could not be started, or ended in failure; `detail`
    /// is the launch error or what the command wrote to its error stream.
    PlatformCommand { detail: String },
    /// The host is none of the three platforms.
    UnsupportedPlatform,
}

/// An [`AutostartError`] over sequences of characters.
pub enum AutostartErrorView {
    PathResolution { subject: PathSubject, message: Seq<char> },
    Persistence { message: Seq<char> },
    PlatformCommand { detail: Seq<char> },
    UnsupportedPlatform,
}

impl View for AutostartError {
    type V = AutostartErrorView;

    open spec fn view(&self) -> AutostartErrorView {
        match self {
            AutostartError::PathResolution { subject, message } => {
                AutostartErrorView::PathResolution { subject: *subject, message: message@ }
            },
            AutostartError::Persistence { message } => AutostartErrorView::Persistence {
                message: message@,
            },
            AutostartError::PlatformCommand { detail } => AutostartErrorView::PlatformCommand {
                detail: detail@,
            },
            AutostartError::UnsupportedPlatform => AutostartErrorView::UnsupportedPlatform,
        }
    }
}

/// One change to make on the host.
#[derive(Clone, Debug, PartialEq, Eq)]
pub enum Step {
    /// Create the directory and its parents, if they are not there.
    CreateDirectory { path: String },
    /// Write the file, replacing what was there.
    WriteFile { path: String, content: String },
    /// Remove the file.
    RemoveFile { path: String },
    /// Register the login item described by the file; this must succeed.
    Register { descriptor: String },
    /// Unregister the login item described by the file; how the command ends
    /// does not matter.
    Unregister { descriptor: String },
    /// Set the autorun value; this must succeed.
    SetRunValue { name: String, value: String },
    /// Delete the autorun value; this must succeed.
    DeleteRunValue { name: String },
}

/// A [`Step`] over sequences of characters.
pub enum StepView {
    CreateDirectory { path: Seq<char> },
    WriteFile { path: Seq<char>, content: Seq<char> },
    RemoveFile { path: Seq<char> },
    Register { descriptor: Seq<char> },
    Unregister { descriptor: Seq<char> },
    SetRunValue { name: Seq<char>, value: Seq<char> },
    DeleteRunValue { name: Seq<char> },
}

impl View for Step {
    type V = StepView;

    open spec fn view(&self) -> StepView {
        match self {
            Step::CreateDirectory { path } => StepView::CreateDirectory { path: path@ },
            Step::WriteFile { path, content } => StepView::WriteFile {
                path: path@,
                content: content@,
            },
            Step::RemoveFile { path } => StepView::RemoveFile { path: path@ },
            Step::Register { descriptor } => StepView::Register { descriptor: descriptor@ },
            Step::Unregister { descriptor } => StepView::Unregister { descriptor: descriptor@ },
            Step::SetRunValue { name, value } => StepView::SetRunValue {
                name: name@,
                value: value@,
            },
            Step::DeleteRunValue { name } => StepView::DeleteRunValue { name: name@ },
        }
    }
}

/// A question to the host whose answer is the registration's state. It is an
/// existence check: nothing is read, nothing is changed.
#[derive(Clone, Debug, PartialEq, Eq)]
pub enum Probe {
    FileExists { path: String },
    RunValueExists { name: String },
}

/// A [`Probe`] over sequences of characters.
pub enum ProbeView {
    FileExists { path: Seq<char> },
    RunValueExists { name: Seq<char> },
}

impl View for Probe {
    type V = ProbeView;

    open spec fn view(&self) -> ProbeView {
        match self {
            Probe::FileExists { path } => ProbeView::FileExists { path: path@ },
            Probe::RunValueExists { name } => ProbeView::RunValueExists { name: name@ },
        }
    }
}

/// Steps to run in order, stopping at the first that fails. Where there is a
/// guard, the steps are run only if the guard's probe finds its subject.
#[derive(Clone, Debug, PartialEq, Eq)]
pub struct Plan {
    pub guard: Option<Probe>,
    pub steps: Vec<Step>,
}

/// A [`Plan`] over sequences.
pub struct PlanView {
    pub guard: Option<ProbeView>,
    pub steps: Seq<StepView>,
}

/// The steps of a list, each by its view.
pub open spec fn step_views(steps: Seq<Step>) -> Seq<StepView> {
    Seq::new(steps.len(), |i: int| steps[i]@)
}

impl View for Plan {
    type V = PlanView;

    open spec fn view(&self) -> PlanView {
        PlanView {
            guard: match self.guard {
                Some(p) => Some(p@),
                None => None,
            },
            steps: step_views(self.steps@),
        }
    }
}

/// A native command: the program and its arguments.
#[derive(Clone, Debug, PartialEq, Eq)]
pub struct CommandLine {
    pub program: String,
    pub arguments: Vec<String>,
}

/// A [`CommandLine`] over sequences of characters.
pub struct CommandLineView {
    pub program: Seq<char>,
    pub arguments: Seq<Seq<char>>,
}

impl View for CommandLine {
    type V = CommandLineView;

    open spec fn view(&self) -> CommandLineView {
        CommandLineView { program: self.program@, arguments: texts(self.arguments@) }
    }
}

/// How a step went on the host.
#[derive(Clone, Debug, PartialEq, Eq)]
pub enum StepReport {
    /// A file operation succeeded.
    Done,
    /// A file operation failed, or a command could not be started.
    IoFailed { message: String },
    /// A command ran and ended; `stderr` is what it wrote to its error
    /// stream.
    Exited { success: bool, stderr: String },
}

/// A [`StepReport`] over sequences of characters.
pub enum StepReportView {
    Done,
    IoFailed { message: Seq<char> },
    Exited { success: bool, stderr: Seq<char> },
}

impl View for StepReport {
    type V = StepReportView;

    open spec fn view(&self) -> StepReportView {
        match self {
            StepReport::Done => StepReportView::Done,
            StepReport::IoFailed { message } => StepReportView::IoFailed { message: message@ },
            StepReport::Exited { success, stderr } => StepReportView::Exited {
                success: *success,
                stderr: stderr@,
            },
        }
    }
}

/// How a probe went on the host.
#[derive(Clone, Debug, PartialEq, Eq)]
pub enum ProbeReport {
    /// The file system said whether the file exists.
    Found { present: bool },
    /// The query command could not be started.
    IoFailed { message: String },
    /// The query command ran and ended.
    Exited { success: bool },
}

/// A [`ProbeReport`] over sequences of characters.
pub enum ProbeReportView {
    Found { present: bool },
    IoFailed { message: Seq<char> },
    Exited { success: bool },
}

impl View for ProbeReport {
    type V = ProbeReportView;

    open spec fn view(&self) -> ProbeReportView {
        match self {
            ProbeReport::Found { present } => ProbeReportView::Found { present: *present },
            ProbeReport::IoFailed { message } => ProbeReportView::IoFailed { message: message@ },
            ProbeReport::Exited { success } => ProbeReportView::Exited { success: *success },
        }
    }
}

/// The reports of a list, each by its view.
pub open spec fn report_views(reports: Seq<StepReport>) -> Seq<StepReportView> {
    Seq::new(reports.len(), |i: int| reports[i]@)
}

/// What an error says to the user.
pub open spec fn error_text(error: AutostartErrorView) -> Seq<char> {
    match error {
        AutostartErrorView::PathResolution { subject: PathSubject::Executable, message } => {
            "Failed to get current executable path: "@ + message
        },
        AutostartErrorView::PathResolution { subject: PathSubject::HomeDirectory, message } => {
            "Failed to get home directory: "@ + message
        },
        AutostartErrorView::Persistence { message } => {
            "Failed to store autostart registration: "@ + message
        },
        AutostartErrorView::PlatformCommand { detail } => "Autostart command failed: "@ + detail,
        AutostartErrorView::UnsupportedPlatform => "Unsupported operating system"@,
    }
}

impl AutostartError {
    /// A short account of the error for the user.
    pub fn message(&self) -> (text: String)
        ensures
            text@ == error_text(self@),
    {
        match self {
            AutostartError::PathResolution { subject, message } => {
                let mut text = match subject {
                    PathSubject::Executable => "Failed to get current executable path: ".to_owned(),
                    PathSubject::HomeDirectory => "Failed to get home directory: ".to_owned(),
                };
                text.append(message.as_str());
                text
            },
            AutostartError::Persistence { message } => {
                let mut text = "Failed to store autostart registration: ".to_owned();
                text.append(message.as_str());
                text
            },
            AutostartError::PlatformCommand { detail } => {
                let mut text = "Autostart command failed: ".to_owned();
                text.append(detail.as_str());
                text
            },
            AutostartError::UnsupportedPlatform => "Unsupported operating system".to_owned(),
        }
    }
}

/// The platform that goes by the operating system name `name`, if any.
pub open spec fn platform_named(name: Seq<char>) -> Option<Platform> {
    if name == "macos"@ {
        Some(Platform::MacOs)
    } else if name == "windows"@ {
        Some(Platform::Windows)
    } else if name == "linux"@ {
        Some(Platform::Linux)
    } else {
        None
    }
}

impl Platform {
    /// Identifies the host from its operating system name. Any other name
    /// than the three known ones is refused: no mechanism is guessed.
    pub fn detect(os_name: &str) -> (result: Result<Platform, AutostartError>)
        ensures
            match platform_named(os_name@) {
                Some(p) => result matches Ok(q) && q == p,
                None => result matches Err(e) && e@ == AutostartErrorView::UnsupportedPlatform,
            },
    {
        let name = os_name.to_owned();
        if name == "macos".to_owned() {
            Ok(Platform::MacOs)
        } else if name == "windows".to_owned() {
            Ok(Platform::Windows)
        } else if name == "linux".to_owned() {
            Ok(Platform::Linux)
        } else {
            Err(AutostartError::UnsupportedPlatform)
        }
    }

    /// Whether the platform keeps its registration under the home directory.
    pub open spec fn spec_needs_home(self) -> bool {
        self != Platform::Windows
    }

    /// Whether the platform keeps its registration under the home directory.
    #[verifier::when_used_as_spec(spec_needs_home)]
    pub fn needs_home(self) -> (yes: bool)
        ensures
            yes == self.spec_needs_home(),
    {
        match self {
            Platform::Windows => false,
            _ => true,
        }
    }
}

/// The name of the autorun value.
pub open spec fn run_value_name() -> Seq<char> {
    "ClipPrompt"@
}

/// The directory of login-item descriptors under `home`.
pub open spec fn launch_agents_directory(home: Seq<char>) -> Seq<char> {
    joined_path(home, "Library/LaunchAgents"@)
}

/// The login-item descriptor file under `home`.
pub open spec fn launch_agent_path(home: Seq<char>) -> Seq<char> {
    joined_path(launch_agents_directory(home), "com.clip-prompt.clip-prompt.plist"@)
}

/// The autostart folder under `home`.
pub open spec fn autostart_directory(home: Seq<char>) -> Seq<char> {
    joined_path(home, ".config/autostart"@)
}

/// The desktop entry file under `home`.
pub open spec fn desktop_entry_path(home: Seq<char>) -> Seq<char> {
    joined_path(autostart_directory(home), "clip-prompt.desktop"@)
}

/// The login-item descriptor that starts `executable`.
pub open spec fn launch_agent_descriptor(executable: Seq<char>) -> Seq<char> {
    r#"<?xml version="1.0" encoding="UTF-8"?>
<!DOCTYPE plist PUBLIC "-//Apple//DTD PLIST 1.0//EN" "http://www.apple.com/DTDs/PropertyList-1.0.dtd">
<plist version="1.0">
<dict>
    <key>Label</key>
    <string>com.clip-prompt.clip-prompt</string>
    <key>ProgramArguments</key>
    <array>
        <string>"#@
        + executable + r#"</string>
    </array>
    <key>RunAtLoad</key>
    <true/>
    <key>KeepAlive</key>
    <false/>
</dict>
</plist>"#@
}

/// The desktop entry that starts `executable`.
pub open spec fn desktop_entry(executable: Seq<char>) -> Seq<char> {
    r#"[Desktop Entry]
Type=Application
Name=Clip Prompt
Exec="#@
        + executable + r#"
Hidden=false
NoDisplay=false
X-GNOME-Autostart-enabled=true"#@
}

/// Renders the login-item descriptor for `executable`.
pub fn render_launch_agent(executable: &str) -> (content: String)
    ensures
        content@ == launch_agent_descriptor(executable@),
{
    let mut content =
        r#"<?xml version="1.0" encoding="UTF-8"?>
<!DOCTYPE plist PUBLIC "-//Apple//DTD PLIST 1.0//EN" "http://www.apple.com/DTDs/PropertyList-1.0.dtd">
<plist version="1.0">
<dict>
    <key>Label</key>
    <string>com.clip-prompt.clip-prompt</string>
    <key>ProgramArguments</key>
    <array>
        <string>"#.to_owned();
    content.append(executable);
    content.append(
        r#"</string>
    </array>
    <key>RunAtLoad</key>
    <true/>
    <key>KeepAlive</key>
    <false/>
</dict>
</plist>"#,
    );
    content
}

/// Renders the desktop entry for `executable`.
pub fn render_desktop_entry(executable: &str) -> (content: String)
    ensures
        content@ == desktop_entry(executable@),
{
    let mut content = r#"[Desktop Entry]
Type=Application
Name=Clip Prompt
Exec="#.to_owned();
    content.append(executable);
    content.append(r#"
Hidden=false
NoDisplay=false
X-GNOME-Autostart-enabled=true"#);
    content
}

/// The probe whose answer is the registration's state on `platform`.
pub open spec fn probe_for(platform: Platform, home: Seq<char>) -> ProbeView {
    match platform {
        Platform::MacOs => ProbeView::FileExists { path: launch_agent_path(home) },
        Platform::Windows => ProbeView::RunValueExists { name: run_value_name() },
        Platform::Linux => ProbeView::FileExists { path: desktop_entry_path(home) },
    }
}

/// The plan that registers `executable` on `platform`. Every step replaces
/// what an earlier registration left.
pub open spec fn enable_steps(platform: Platform, executable: Seq<char>, home: Seq<char>) -> PlanView {
    PlanView {
        guard: None,
        steps: match platform {
            Platform::MacOs => seq![
                StepView::CreateDirectory { path: launch_agents_directory(home) },
                StepView::WriteFile {
                    path: launch_agent_path(home),
                    content: launch_agent_descriptor(executable),
                },
                StepView::Register { descriptor: launch_agent_path(home) },
            ],
            Platform::Windows => seq![
                StepView::SetRunValue { name: run_value_name(), value: executable },
            ],
            Platform::Linux => seq![
                StepView::CreateDirectory { path: autostart_directory(home) },
                StepView::WriteFile {
                    path: desktop_entry_path(home),
                    content: desktop_entry(executable),
                },
            ],
        },
    }
}

/// The plan that removes the registration on `platform`. On every platform
/// the steps are guarded by the query's own probe: where nothing is
/// registered, nothing is done.
pub open spec fn disable_steps(platform: Platform, home: Seq<char>) -> PlanView {
    PlanView {
        guard: Some(probe_for(platform, home)),
        steps: match platform {
            Platform::MacOs => seq![
                StepView::Unregister { descriptor: launch_agent_path(home) },
                StepView::RemoveFile { path: launch_agent_path(home) },
            ],
            Platform::Windows => seq![StepView::DeleteRunValue { name: run_value_name() }],
            Platform::Linux => seq![StepView::RemoveFile { path: desktop_entry_path(home) }],
        },
    }
}

/// The error for a path that could not be resolved, the executable's first.
pub open spec fn resolution_failure(
    platform: Platform,
    executable: Option<Result<Seq<char>, Seq<char>>>,
    home: Result<Seq<char>, Seq<char>>,
) -> Option<AutostartErrorView> {
    match executable {
        Some(Err(message)) => Some(
            AutostartErrorView::PathResolution { subject: PathSubject::Executable, message },
        ),
        _ => match home {
            Err(message) => if platform.spec_needs_home() {
                Some(
                    AutostartErrorView::PathResolution {
                        subject: PathSubject::HomeDirectory,
                        message,
                    },
                )
            } else {
                None
            },
            Ok(_) => None,
        },
    }
}

/// A resolved path, or the empty path where it is unknown.
pub open spec fn path_or_empty(path: Result<Seq<char>, Seq<char>>) -> Seq<char> {
    match path {
        Ok(p) => p,
        Err(_) => Seq::<char>::empty(),
    }
}

/// A resolved path by its characters.
pub open spec fn path_view(path: Result<String, String>) -> Result<Seq<char>, Seq<char>> {
    match path {
        Ok(p) => Ok(p@),
        Err(m) => Err(m@),
    }
}

fn launch_agent_file(home: &str) -> (path: String)
    ensures
        path@ == launch_agent_path(home@),
{
    let directory = join_path(home, "Library/LaunchAgents");
    join_path(directory.as_str(), "com.clip-prompt.clip-prompt.plist")
}

fn desktop_entry_file(home: &str) -> (path: String)
    ensures
        path@ == desktop_entry_path(home@),
{
    let directory = join_path(home, ".config/autostart");
    join_path(directory.as_str(), "clip-prompt.desktop")
}

fn resolve_home(platform: Platform, home: Result<String, String>) -> (result: Result<
    String,
    AutostartError,
>)
    ensures
        match resolution_failure(platform, None, path_view(home)) {
            Some(error) => result matches Err(e) && e@ == error,
            None => result matches Ok(path) && path@ == path_or_empty(path_view(home)),
        },
{
    match home {
        Ok(path) => Ok(path),
        Err(message) => if platform.needs_home() {
            Err(AutostartError::PathResolution { subject: PathSubject::HomeDirectory, message })
        } else {
            Ok(String::new())
        },
    }
}

fn probe_on(platform: Platform, home: &str) -> (probe: Probe)
    ensures
        probe@ == probe_for(platform, home@),
{
    match platform {
        Platform::MacOs => Probe::FileExists { path: launch_agent_file(home) },
        Platform::Windows => Probe::RunValueExists { name: "ClipPrompt".to_owned() },
        Platform::Linux => Probe::FileExists { path: desktop_entry_file(home) },
    }
}

/// Plans the registration of `executable` on `platform`. `executable` and
/// `home` are the resolved paths, or the reason why one is unknown. An
/// unknown executable is an error on every platform, an unknown home
/// directory where the registration lives under it.
pub fn enable_plan(
    platform: Platform,
    executable: Result<String, String>,
    home: Result<String, String>,
) -> (result: Result<Plan, AutostartError>)
    ensures
        match resolution_failure(platform, Some(path_view(executable)), path_view(home)) {
            Some(error) => result matches Err(e) && e@ == error,
            None => result matches Ok(plan) && plan@ == enable_steps(
                platform,
                path_or_empty(path_view(executable)),
                path_or_empty(path_view(home)),
            ),
        },
{
    let executable = match executable {
        Ok(path) => path,
        Err(message) => {
            return Err(
                AutostartError::PathResolution { subject: PathSubject::Executable, message },
            );
        },
    };
    let home = match resolve_home(platform, home) {
        Ok(path) => path,
        Err(error) => {
            return Err(error);
        },
    };
    let mut steps: Vec<Step> = Vec::new();
    match platform {
        Platform::MacOs => {
            steps.push(
                Step::CreateDirectory { path: join_path(home.as_str(), "Library/LaunchAgents") },
            );
            steps.push(
                Step::WriteFile {
                    path: launch_agent_file(home.as_str()),
                    content: render_launch_agent(executable.as_str()),
                },
            );
            steps.push(Step::Register { descriptor: launch_agent_file(home.as_str()) });
        },
        Platform::Windows => {
            steps.push(Step::SetRunValue { name: "ClipPrompt".to_owned(), value: executable });
        },
        Platform::Linux => {
            steps.push(
                Step::CreateDirectory { path: join_path(home.as_str(), ".config/autostart") },
            );
            steps.push(
                Step::WriteFile {
                    path: desktop_entry_file(home.as_str()),
                    content: render_desktop_entry(executable.as_str()),
                },
            );
        },
    }
    let plan = Plan { guard: None, steps };
    assert(plan@.steps =~= enable_steps(platform, executable@, home@).steps);
    Ok(plan)
}

/// Plans the removal of the registration on `platform`.
pub fn disable_plan(platform: Platform, home: Result<String, String>) -> (result: Result<
    Plan,
    AutostartError,
>)
    ensures
        match resolution_failure(platform, None, path_view(home)) {
            Some(error) => result matches Err(e) && e@ == error,
            None => result matches Ok(plan) && plan@ == disable_steps(
                platform,
                path_or_empty(path_view(home)),
            ),
        },
{
    let home = match resolve_home(platform, home) {
        Ok(path) => path,
        Err(error) => {
            return Err(error);
        },
    };
    let mut steps: Vec<Step> = Vec::new();
    match platform {
        Platform::MacOs => {
            steps.push(Step::Unregister { descriptor: launch_agent_file(home.as_str()) });
            steps.push(Step::RemoveFile { path: launch_agent_file(home.as_str()) });
        },
        Platform::Windows => {
            steps.push(Step::DeleteRunValue { name: "ClipPrompt".to_owned() });
        },
        Platform::Linux => {
            steps.push(Step::RemoveFile { path: desktop_entry_file(home.as_str()) });
        },
    }
    let plan = Plan { guard: Some(probe_on(platform, home.as_str())), steps };
    assert(plan@.steps =~= disable_steps(platform, home@).steps);
    Ok(plan)
}

/// Plans the query for the registration on `platform`.
pub fn query_probe(platform: Platform, home: Result<String, String>) -> (result: Result<
    Probe,
    AutostartError,
>)
    ensures
        match resolution_failure(platform, None, path_view(home)) {
            Some(error) => result matches Err(e) && e@ == error,
            None => result matches Ok(probe) && probe@ == probe_for(
                platform,
                path_or_empty(path_view(home)),
            ),
        },
{
    let home = match resolve_home(platform, home) {
        Ok(path) => path,
        Err(error) => {
            return Err(error);
        },
    };
    Ok(probe_on(platform, home.as_str()))
}

/// The registry key that holds the per-user autorun values.
pub open spec fn run_key() -> Seq<char> {
    r#"HKCU:\Software\Microsoft\Windows\CurrentVersion\Run"#@
}

/// The shell command that sets the autorun value `name` to `value`.
pub open spec fn set_value_script(name: Seq<char>, value: Seq<char>) -> Seq<char> {
    r#"New-ItemProperty -Path ""#@ + run_key() + r#"" -Name ""#@ + name + r#"" -Value ""#@ + value
        + r#"" -PropertyType String -Force"#@
}

/// The shell command that deletes the autorun value `name`.
pub open spec fn delete_value_script(name: Seq<char>) -> Seq<char> {
    r#"Remove-ItemProperty -Path ""#@ + run_key() + r#"" -Name ""#@ + name + r#"" -Force"#@
}

/// The shell command that succeeds exactly if the autorun value `name` is
/// there.
pub open spec fn query_value_script(name: Seq<char>) -> Seq<char> {
    r#"Get-ItemProperty -Path ""#@ + run_key() + r#"" -Name ""#@ + name
        + r#"" -ErrorAction SilentlyContinue"#@
}

/// The command line of `program` with two arguments.
pub open spec fn command_of(program: Seq<char>, first: Seq<char>, second: Seq<char>) -> CommandLineView {
    CommandLineView { program, arguments: seq![first, second] }
}

/// The native command that performs a step; `None` for a step on files,
/// which needs none.
pub open spec fn step_command(step: StepView) -> Option<CommandLineView> {
    match step {
        StepView::Register { descriptor } => Some(
            command_of("launchctl"@, "load"@, descriptor),
        ),
        StepView::Unregister { descriptor } => Some(
            command_of("launchctl"@, "unload"@, descriptor),
        ),
        StepView::SetRunValue { name, value } => Some(
            command_of("powershell"@, "-Command"@, set_value_script(name, value)),
        ),
        StepView::DeleteRunValue { name } => Some(
            command_of("powershell"@, "-Command"@, delete_value_script(name)),
        ),
        _ => None,
    }
}

/// The native command that answers a probe; `None` for a probe of the file
/// system.
pub open spec fn probe_command(probe: ProbeView) -> Option<CommandLineView> {
    match probe {
        ProbeView::RunValueExists { name } => Some(
            command_of("powershell"@, "-Command"@, query_value_script(name)),
        ),
        ProbeView::FileExists { .. } => None,
    }
}

fn command(program: &str, first: &str, second: String) -> (line: CommandLine)
    ensures
        line@ == command_of(program@, first@, second@),
{
    let mut arguments: Vec<String> = Vec::new();
    arguments.push(first.to_owned());
    arguments.push(second);
    let line = CommandLine { program: program.to_owned(), arguments };
    assert(line@.arguments =~= seq![first@, second@]);
    line
}

fn run_key_prefix(verb: &str) -> (script: String)
    ensures
        script@ == verb@ + run_key() + r#"" -Name ""#@,
{
    let mut script = verb.to_owned();
    script.append(r#"HKCU:\Software\Microsoft\Windows\CurrentVersion\Run"#);
    script.append(r#"" -Name ""#);
    script
}

impl Step {
    /// The native command that performs the step, if it needs one.
    pub fn command_line(&self) -> (line: Option<CommandLine>)
        ensures
            match step_command(self@) {
                Some(expected) => line matches Some(l) && l@ == expected,
                None => line is None,
            },
    {
        match self {
            Step::Register { descriptor } => Some(command("launchctl", "load", descriptor.clone())),
            Step::Unregister { descriptor } => Some(
                command("launchctl", "unload", descriptor.clone()),
            ),
            Step::SetRunValue { name, value } => {
                let mut script = run_key_prefix(r#"New-ItemProperty -Path ""#);
                script.append(name.as_str());
                script.append(r#"" -Value ""#);
                script.append(value.as_str());
                script.append(r#"" -PropertyType String -Force"#);
                Some(command("powershell", "-Command", script))
            },
            Step::DeleteRunValue { name } => {
                let mut script = run_key_prefix(r#"Remove-ItemProperty -Path ""#);
                script.append(name.as_str());
                script.append(r#"" -Force"#);
                Some(command("powershell", "-Command", script))
            },
            _ => None,
        }
    }

    /// Whether the step is done by a native command.
    pub open spec fn is_command(step: StepView) -> bool {
        step_command(step) is Some
    }

    /// Whether the step has to end in success. Only the unregistering of a
    /// login item may end in failure: what counts there is the removal of
    /// the descriptor file that follows it.
    pub open spec fn must_succeed(step: StepView) -> bool {
        !(step is Unregister)
    }
}

impl Probe {
    /// The native command that answers the probe, if it needs one.
    pub fn command_line(&self) -> (line: Option<CommandLine>)
        ensures
            match probe_command(self@) {
                Some(expected) => line matches Some(l) && l@ == expected,
                None => line is None,
            },
    {
        match self {
            Probe::RunValueExists { name } => {
                let mut script = run_key_prefix(r#"Get-ItemProperty -Path ""#);
                script.append(name.as_str());
                script.append(r#"" -ErrorAction SilentlyContinue"#);
                Some(command("powershell", "-Command", script))
            },
            Probe::FileExists { .. } => None,
        }
    }
}

/// What a step's report means: the error that ends the plan, or `None` where
/// the plan goes on. A step that could not be started, or that ended in
/// failure where it must succeed, is a command error where a native command
/// carries it out, and a persistence error where it is a file operation.
pub open spec fn verdict(step: StepView, report: StepReportView) -> Option<AutostartErrorView> {
    match report {
        StepReportView::Done => None,
        StepReportView::IoFailed { message } => Some(step_failure(step, message)),
        StepReportView::Exited { success, stderr } => if Step::must_succeed(step) && !success {
            Some(step_failure(step, stderr))
        } else {
            None
        },
    }
}

/// The error of a failed step, by what carries the step out.
pub open spec fn step_failure(step: StepView, detail: Seq<char>) -> AutostartErrorView {
    if Step::is_command(step) {
        AutostartErrorView::PlatformCommand { detail }
    } else {
        AutostartErrorView::Persistence { message: detail }
    }
}

fn failure_of(step: &Step, detail: String) -> (error: AutostartError)
    ensures
        error@ == step_failure(step@, detail@),
{
    match step {
        Step::Register { .. }
        | Step::Unregister { .. }
        | Step::SetRunValue { .. }
        | Step::DeleteRunValue { .. } => AutostartError::PlatformCommand { detail },
        _ => AutostartError::Persistence { message: detail },
    }
}

/// Judges the report of one step.
pub fn judge(step: &Step, report: &StepReport) -> (error: Option<AutostartError>)
    ensures
        match verdict(step@, report@) {
            Some(expected) => error matches Some(e) && e@ == expected,
            None => error is None,
        },
{
    match report {
        StepReport::Done => None,
        StepReport::IoFailed { message } => Some(failure_of(step, message.clone())),
        StepReport::Exited { success, stderr } => {
            if *success {
                None
            } else {
                match step {
                    Step::Unregister { .. } => None,
                    _ => Some(failure_of(step, stderr.clone())),
                }
            }
        },
    }
}

/// What a probe's report answers: whether the subject is there. A file is
/// there or not; a query command says so by how it ends. Only a command that
/// could not be started is an error.
pub open spec fn probe_answer(report: ProbeReportView) -> Result<bool, AutostartErrorView> {
    match report {
        ProbeReportView::Found { present } => Ok(present),
        ProbeReportView::Exited { success } => Ok(success),
        ProbeReportView::IoFailed { message } => Err(
            AutostartErrorView::PlatformCommand { detail: message },
        ),
    }
}

fn answer_of(report: &ProbeReport) -> (result: Result<bool, AutostartError>)
    ensures
        match probe_answer(report@) {
            Ok(found) => result matches Ok(b) && b == found,
            Err(error) => result matches Err(e) && e@ == error,
        },
{
    match report {
        ProbeReport::Found { present } => Ok(*present),
        ProbeReport::Exited { success } => Ok(*success),
        ProbeReport::IoFailed { message } => Err(
            AutostartError::PlatformCommand { detail: message.clone() },
        ),
    }
}

/// Concludes a query from the probe's report.
pub fn is_enabled(report: ProbeReport) -> (result: Result<bool, AutostartError>)
    ensures
        match probe_answer(report@) {
            Ok(found) => result matches Ok(enabled) && enabled == found,
            Err(error) => result matches Err(e) && e@ == error,
        },
{
    answer_of(&report)
}

/// The steps of `plan` that are due once its guard has answered `found`:
/// all of them, or none where a guard found nothing.
pub open spec fn due_steps(plan: PlanView, found: bool) -> Seq<StepView> {
    if plan.guard is Some && !found {
        Seq::<StepView>::empty()
    } else {
        plan.steps
    }
}

/// The error that ends a run of `steps` whose reports are `reports`, step
/// by step: that of the first step whose report is a failure.
pub open spec fn first_failure(steps: Seq<StepView>, reports: Seq<StepReportView>) -> Option<
    AutostartErrorView,
>
    decreases steps.len(),
{
    if steps.len() == 0 || reports.len() == 0 {
        None
    } else {
        match verdict(steps[0], reports[0]) {
            Some(error) => Some(error),
            None => first_failure(steps.drop_first(), reports.drop_first()),
        }
    }
}

/// What the guard of `plan` has answered. A plan without a guard, and a
/// guard that was not asked, hold nothing back.
pub open spec fn guard_answer(plan: PlanView, guard: Option<ProbeReportView>) -> Result<
    bool,
    AutostartErrorView,
> {
    match (plan.guard, guard) {
        (Some(_), Some(report)) => probe_answer(report),
        _ => Ok(true),
    }
}

/// How a plan ends whose guard reported `guard` and whose steps reported
/// `reports`: with the guard's error; else with the error of the first due
/// step that failed; else in success.
pub open spec fn conclusion(
    plan: PlanView,
    guard: Option<ProbeReportView>,
    reports: Seq<StepReportView>,
) -> Result<(), AutostartErrorView> {
    match guard_answer(plan, guard) {
        Err(error) => Err(error),
        Ok(found) => match first_failure(due_steps(plan, found), reports) {
            Some(error) => Err(error),
            None => Ok(()),
        },
    }
}

/// What is to happen next for a plan.
#[derive(Debug, PartialEq, Eq)]
pub enum Progress {
    /// Ask the plan's guard and report its answer.
    AskGuard,
    /// Carry out the step at `index` and add its report.
    Perform { index: usize },
    /// The plan has ended.
    Finished { result: Result<(), AutostartError> },
}

/// A [`Progress`] over sequences of characters.
pub enum ProgressView {
    AskGuard,
    Perform { index: nat },
    Finished { result: Result<(), AutostartErrorView> },
}

impl View for Progress {
    type V = ProgressView;

    open spec fn view(&self) -> ProgressView {
        match self {
            Progress::AskGuard => ProgressView::AskGuard,
            Progress::Perform { index } => ProgressView::Perform { index: *index as nat },
            Progress::Finished { result } => ProgressView::Finished {
                result: match result {
                    Ok(_) => Ok(()),
                    Err(e) => Err(e@),
                },
            },
        }
    }
}

/// What is to happen next for `plan` after its guard reported `guard` and
/// its first steps reported `reports`: the guard is asked first; the steps
/// that are due follow one by one; the plan ends as `conclusion` says, at
/// the first failure or when no due step is left.
pub open spec fn progress_of(
    plan: PlanView,
    guard: Option<ProbeReportView>,
    reports: Seq<StepReportView>,
) -> ProgressView {
    if plan.guard is Some && guard is None {
        ProgressView::AskGuard
    } else if conclusion(plan, guard, reports) is Ok && reports.len() < due_steps(
        plan,
        guard_answer(plan, guard)->Ok_0,
    ).len() {
        ProgressView::Perform { index: reports.len() }
    } else {
        ProgressView::Finished { result: conclusion(plan, guard, reports) }
    }
}

/// The view of a guard's report, where there is one.
pub open spec fn guard_view(guard: Option<ProbeReport>) -> Option<ProbeReportView> {
    match guard {
        Some(report) => Some(report@),
        None => None,
    }
}

proof fn first_failure_skips(steps: Seq<StepView>, reports: Seq<StepReportView>, i: int)
    requires
        0 <= i < steps.len(),
        i < reports.len(),
        first_failure(steps.skip(i), reports.skip(i)) == first_failure(steps, reports),
        verdict(steps[i], reports[i]) is None,
    ensures
        first_failure(steps.skip(i + 1), reports.skip(i + 1)) == first_failure(steps, reports),
{
    assert(steps.skip(i).drop_first() =~= steps.skip(i + 1));
    assert(reports.skip(i).drop_first() =~= reports.skip(i + 1));
    assert(steps.skip(i)[0] == steps[i]);
    assert(reports.skip(i)[0] == reports[i]);
}

fn failure_among(steps: &Vec<Step>, reports: &Vec<StepReport>) -> (error: Option<AutostartError>)
    ensures
        match first_failure(step_views(steps@), report_views(reports@)) {
            Some(expected) => error matches Some(e) && e@ == expected,
            None => error is None,
        },
{
    let ghost sv = step_views(steps@);
    let ghost rv = report_views(reports@);
    let mut i: usize = 0;
    proof {
        assert(sv.skip(0) =~= sv);
        assert(rv.skip(0) =~= rv);
    }
    while i < steps.len() && i < reports.len()
        invariant
            i <= steps.len(),
            i <= reports.len(),
            sv == step_views(steps@),
            rv == report_views(reports@),
            first_failure(sv.skip(i as int), rv.skip(i as int)) == first_failure(sv, rv),
        decreases steps.len() - i,
    {
        proof {
            assert(sv.skip(i as int)[0] == sv[i as int]);
            assert(rv.skip(i as int)[0] == rv[i as int]);
        }
        match judge(&steps[i], &reports[i]) {
            Some(error) => {
                return Some(error);
            },
            None => {
                proof {
                    first_failure_skips(sv, rv, i as int);
                }
            },
        }
        i += 1;
    }
    proof {
        assert(sv.skip(i as int).len() == 0 || rv.skip(i as int).len() == 0);
    }
    None
}

/// Concludes a plan from what its guard and its steps reported.
pub fn conclude(plan: &Plan, guard: Option<ProbeReport>, reports: Vec<StepReport>) -> (r: Result<
    (),
    AutostartError,
>)
    ensures
        match conclusion(plan@, guard_view(guard), report_views(reports@)) {
            Ok(_) => r is Ok,
            Err(error) => r matches Err(e) && e@ == error,
        },
{
    let found = match (&plan.guard, &guard) {
        (Some(_), Some(report)) => match answer_of(report) {
            Ok(found) => found,
            Err(error) => {
                return Err(error);
            },
        },
        _ => true,
    };
    if plan.guard.is_some() && !found {
        proof {
            reveal_with_fuel(first_failure, 1);
        }
        return Ok(());
    }
    match failure_among(&plan.steps, &reports) {
        Some(error) => Err(error),
        None => Ok(()),
    }
}

/// Says what is to happen next for `plan`, given what its guard and its
/// steps have reported so far.
pub fn progress(plan: &Plan, guard: &Option<ProbeReport>, reports: &Vec<StepReport>) -> (next: Progress)
    ensures
        next@ == progress_of(plan@, guard_view(*guard), report_views(reports@)),
        next matches Progress::Perform { index } ==> index < plan.steps.len(),
{
    let found = match (&plan.guard, guard) {
        (Some(_), None) => {
            return Progress::AskGuard;
        },
        (Some(_), Some(report)) => match answer_of(report) {
            Ok(found) => found,
            Err(error) => {
                return Progress::Finished { result: Err(error) };
            },
        },
        (None, _) => true,
    };
    if plan.guard.is_some() && !found {
        proof {
            reveal_with_fuel(first_failure, 1);
        }
        return Progress::Finished { result: Ok(()) };
    }
    match failure_among(&plan.steps, reports) {
        Some(error) => Progress::Finished { result: Err(error) },
        None => if reports.len() < plan.steps.len() {
            Progress::Perform { index: reports.len() }
        } else {
            Progress::Finished { result: Ok(()) }
        },
    }
}

/// What the registration mechanisms see of a host: its directories, its
/// files with their content, the login items that are registered by their
/// descriptor file, and the autorun values.
pub struct Host {
    pub directories: Set<Seq<char>>,
    pub files: Map<Seq<char>, Seq<char>>,
    pub login_items: Set<Seq<char>>,
    pub run_values: Map<Seq<char>, Seq<char>>,
}

/// The host after `step` was carried out on it and took effect.
pub open spec fn effect(step: StepView, host: Host) -> Host {
    match step {
        StepView::CreateDirectory { path } => Host {
            directories: host.directories.insert(path),
            ..host
        },
        StepView::WriteFile { path, content } => Host {
            files: host.files.insert(path, content),
            ..host
        },
        StepView::RemoveFile { path } => Host { files: host.files.remove(path), ..host },
        StepView::Register { descriptor } => Host {
            login_items: host.login_items.insert(descriptor),
            ..host
        },
        StepView::Unregister { descriptor } => Host {
            login_items: host.login_items.remove(descriptor),
            ..host
        },
        StepView::SetRunValue { name, value } => Host {
            run_values: host.run_values.insert(name, value),
            ..host
        },
        StepView::DeleteRunValue { name } => Host {
            run_values: host.run_values.remove(name),
            ..host
        },
    }
}

/// Whether `probe` finds its subject on `host`.
pub open spec fn holds(probe: ProbeView, host: Host) -> bool {
    match probe {
        ProbeView::FileExists { path } => host.files.contains_key(path),
        ProbeView::RunValueExists { name } => host.run_values.contains_key(name),
    }
}

/// What the guard of `plan` finds on `host`; a plan without a guard holds
/// nothing back.
pub open spec fn guard_holds(plan: PlanView, host: Host) -> bool {
    match plan.guard {
        Some(probe) => holds(probe, host),
        None => true,
    }
}

/// The host after all of `steps` took effect in order.
pub open spec fn run_steps(steps: Seq<StepView>, host: Host) -> Host
    decreases steps.len(),
{
    if steps.len() == 0 {
        host
    } else {
        run_steps(steps.drop_first(), effect(steps[0], host))
    }
}

/// The host after `plan` was carried out on it: its guard answered by the
/// host, and every step that was due took effect.
pub open spec fn run_plan(plan: PlanView, host: Host) -> Host {
    run_steps(due_steps(plan, guard_holds(plan, host)), host)
}

proof fn run_steps_unfolded(steps: Seq<StepView>, host: Host)
    ensures
        steps.len() == 0 ==> run_steps(steps, host) == host,
        steps.len() == 1 ==> run_steps(steps, host) == effect(steps[0], host),
        steps.len() == 2 ==> run_steps(steps, host) == effect(steps[1], effect(steps[0], host)),
        steps.len() == 3 ==> run_steps(steps, host) == effect(
            steps[2],
            effect(steps[1], effect(steps[0], host)),
        ),
{
    reveal_with_fuel(run_steps, 4);
    if steps.len() >= 2 {
        assert(steps.drop_first()[0] == steps[1]);
    }
    if steps.len() == 3 {
        assert(steps.drop_first().drop_first()[0] == steps[2]);
    }
}

/// On a host on which every step of the plan took effect: after the
/// registration was enabled, the query finds it, whatever the host held
/// before; and what it finds starts `executable`.
pub proof fn enabled_after_enable(
    platform: Platform,
    executable: Seq<char>,
    home: Seq<char>,
    host: Host,
)
    ensures
        holds(probe_for(platform, home), run_plan(enable_steps(platform, executable, home), host)),
        platform == Platform::MacOs ==> run_plan(
            enable_steps(platform, executable, home),
            host,
        ).files[launch_agent_path(home)] == launch_agent_descriptor(executable),
        platform == Platform::Windows ==> run_plan(
            enable_steps(platform, executable, home),
            host,
        ).run_values[run_value_name()] == executable,
        platform == Platform::Linux ==> run_plan(
            enable_steps(platform, executable, home),
            host,
        ).files[desktop_entry_path(home)] == desktop_entry(executable),
{
    run_steps_unfolded(enable_steps(platform, executable, home).steps, host);
}

/// On a host on which every step that was due took effect: after the
/// registration was disabled, the query does not find it, whatever the host
/// held before. What holds of a host on which steps may have failed is
/// `query_misses_what_disable_reported`.
pub proof fn disabled_after_disable(platform: Platform, home: Seq<char>, host: Host)
    ensures
        !holds(probe_for(platform, home), run_plan(disable_steps(platform, home), host)),
{
    let plan = disable_steps(platform, home);
    run_steps_unfolded(due_steps(plan, guard_holds(plan, host)), host);
}

/// Enabling twice leaves the host as enabling once does.
pub proof fn enable_is_idempotent(
    platform: Platform,
    executable: Seq<char>,
    home: Seq<char>,
    host: Host,
)
    ensures
        run_plan(
            enable_steps(platform, executable, home),
            run_plan(enable_steps(platform, executable, home), host),
        ) == run_plan(enable_steps(platform, executable, home), host),
{
    let plan = enable_steps(platform, executable, home);
    let once = run_plan(plan, host);
    let twice = run_plan(plan, once);
    run_steps_unfolded(plan.steps, host);
    run_steps_unfolded(plan.steps, once);
    assert(twice.directories =~= once.directories);
    assert(twice.files =~= once.files);
    assert(twice.login_items =~= once.login_items);
    assert(twice.run_values =~= once.run_values);
}

/// Disabling twice leaves the host as disabling once does.
pub proof fn disable_is_idempotent(platform: Platform, home: Seq<char>, host: Host)
    ensures
        run_plan(disable_steps(platform, home), run_plan(disable_steps(platform, home), host))
            == run_plan(disable_steps(platform, home), host),
{
    let plan = disable_steps(platform, home);
    let once = run_plan(plan, host);
    disabled_after_disable(platform, home, host);
    run_steps_unfolded(due_steps(plan, guard_holds(plan, once)), once);
}

/// Disabling a registration that is not there succeeds, whatever the steps
/// might report, and changes nothing, provided that the guard could be
/// asked and answered as the host is.
pub proof fn disable_of_absent_registration_succeeds(
    platform: Platform,
    home: Seq<char>,
    host: Host,
    guard: ProbeReportView,
    reports: Seq<StepReportView>,
)
    requires
        !holds(probe_for(platform, home), host),
        probe_answer(guard) == Ok::<bool, AutostartErrorView>(
            holds(probe_for(platform, home), host),
        ),
    ensures
        conclusion(disable_steps(platform, home), Some(guard), reports) is Ok,
        progress_of(disable_steps(platform, home), Some(guard), reports) == (
        ProgressView::Finished { result: Ok(()) }),
        run_plan(disable_steps(platform, home), host) == host,
{
    reveal_with_fuel(first_failure, 1);
    reveal_with_fuel(run_steps, 1);
}

/// Whether a step with this report took effect on the host.
pub open spec fn took_effect(report: StepReportView) -> bool {
    report is Done || (report matches StepReportView::Exited { success, .. } && success)
}

/// The host after `steps` were carried out as far as `reports` say: a step
/// reported done or ended in success took effect; a step that was let off
/// its failure changed nothing; the first failure ended the run.
pub open spec fn host_after(steps: Seq<StepView>, reports: Seq<StepReportView>, host: Host) -> Host
    decreases steps.len(),
{
    if steps.len() == 0 || reports.len() == 0 || verdict(steps[0], reports[0]) is Some {
        host
    } else {
        host_after(
            steps.drop_first(),
            reports.drop_first(),
            if took_effect(reports[0]) {
                effect(steps[0], host)
            } else {
                host
            },
        )
    }
}

/// Enable that ended in success is found by the query: whatever the host
/// held before, once every step has reported and the plan has concluded in
/// success, the probe finds the registration on the host that the reports
/// describe.
pub proof fn query_finds_what_enable_reported(
    platform: Platform,
    executable: Seq<char>,
    home: Seq<char>,
    host: Host,
    reports: Seq<StepReportView>,
)
    requires
        reports.len() == enable_steps(platform, executable, home).steps.len(),
        conclusion(enable_steps(platform, executable, home), None, reports) is Ok,
    ensures
        holds(
            probe_for(platform, home),
            host_after(enable_steps(platform, executable, home).steps, reports, host),
        ),
{
    let steps = enable_steps(platform, executable, home).steps;
    reveal_with_fuel(first_failure, 4);
    reveal_with_fuel(host_after, 4);
    if steps.len() >= 2 {
        assert(steps.drop_first()[0] == steps[1]);
        assert(reports.drop_first()[0] == reports[1]);
    }
    if steps.len() == 3 {
        assert(steps.drop_first().drop_first()[0] == steps[2]);
        assert(reports.drop_first().drop_first()[0] == reports[2]);
    }
}

/// Disable that ended in success is not found by the query: whatever the
/// host held before, once the guard has answered as the host is, every due
/// step has reported and the plan has concluded in success, the probe does
/// not find the registration on the host that the reports describe.
pub proof fn query_misses_what_disable_reported(
    platform: Platform,
    home: Seq<char>,
    host: Host,
    guard: ProbeReportView,
    reports: Seq<StepReportView>,
)
    requires
        probe_answer(guard) == Ok::<bool, AutostartErrorView>(
            holds(probe_for(platform, home), host),
        ),
        reports.len() == due_steps(
            disable_steps(platform, home),
            holds(probe_for(platform, home), host),
        ).len(),
        conclusion(disable_steps(platform, home), Some(guard), reports) is Ok,
    ensures
        !holds(
            probe_for(platform, home),
            host_after(
                due_steps(disable_steps(platform, home), holds(probe_for(platform, home), host)),
                reports,
                host,
            ),
        ),
{
    let steps = due_steps(disable_steps(platform, home), holds(probe_for(platform, home), host));
    reveal_with_fuel(first_failure, 3);
    reveal_with_fuel(host_after, 3);
    if steps.len() == 2 {
        assert(steps.drop_first()[0] == steps[1]);
        assert(reports.drop_first()[0] == reports[1]);
    }
}

/// A run of steps that ended in success had no failed step among those that
/// reported.
pub proof fn success_means_no_step_failed(
    steps: Seq<StepView>,
    reports: Seq<StepReportView>,
    i: int,
)
    requires
        first_failure(steps, reports) is None,
        0 <= i < steps.len(),
        i < reports.len(),
    ensures
        verdict(steps[i], reports[i]) is None,
    decreases steps.len(),
{
    if i > 0 {
        success_means_no_step_failed(steps.drop_first(), reports.drop_first(), i - 1);
    }
}

/// A plan is driven to its conclusion: as long as a step is asked for, it
/// is the next due step without a report and no failure has been reported;
/// and once nothing more is asked for, the result is the plan's conclusion.
pub proof fn progress_ends_in_conclusion(
    plan: PlanView,
    guard: Option<ProbeReportView>,
    reports: Seq<StepReportView>,
)
    ensures
        match progress_of(plan, guard, reports) {
            ProgressView::AskGuard => plan.guard is Some && guard is None,
            ProgressView::Perform { index } => {
                &&& index == reports.len()
                &&& index < plan.steps.len()
                &&& conclusion(plan, guard, reports) is Ok
            },
            ProgressView::Finished { result } => result == conclusion(plan, guard, reports),
        },
{
}

} // verus!
