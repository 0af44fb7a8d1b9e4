use clip_prompt::autostart::{
    conclude, disable_plan, enable_plan, is_enabled, judge, progress, query_probe,
    render_desktop_entry, render_launch_agent, AutostartError, CommandLine, PathSubject, Plan,
    Platform, Probe, ProbeReport, Progress, Step, StepReport,
};
use std::collections::{BTreeMap, BTreeSet};

const PLIST: &str = "/Users/ada/Library/LaunchAgents/com.clip-prompt.clip-prompt.plist";
const DESKTOP: &str = "/home/ada/.config/autostart/clip-prompt.desktop";

fn ok(path: &str) -> Result<String, String> {
    Ok(path.to_string())
}

fn unknown(why: &str) -> Result<String, String> {
    Err(why.to_string())
}

/// A host in memory, on which every step succeeds.
#[derive(Clone, Debug, PartialEq, Eq, Default)]
struct Host {
    directories: BTreeSet<String>,
    files: BTreeMap<String, String>,
    login_items: BTreeSet<String>,
    run_values: BTreeMap<String, String>,
}

impl Host {
    fn perform(&mut self, step: &Step) -> StepReport {
        match step {
            Step::CreateDirectory { path } => {
                self.directories.insert(path.clone());
                StepReport::Done
            }
            Step::WriteFile { path, content } => {
                self.files.insert(path.clone(), content.clone());
                StepReport::Done
            }
            Step::RemoveFile { path } => match self.files.remove(path) {
                Some(_) => StepReport::Done,
                None => StepReport::IoFailed { message: "No such file or directory".to_string() },
            },
            Step::Register { descriptor } => {
                self.login_items.insert(descriptor.clone());
                StepReport::Exited { success: true, stderr: String::new() }
            }
            Step::Unregister { descriptor } => {
                let was = self.login_items.remove(descriptor);
                StepReport::Exited { success: was, stderr: String::new() }
            }
            Step::SetRunValue { name, value } => {
                self.run_values.insert(name.clone(), value.clone());
                StepReport::Exited { success: true, stderr: String::new() }
            }
            Step::DeleteRunValue { name } => {
                let was = self.run_values.remove(name).is_some();
                StepReport::Exited { success: was, stderr: "Property ClipPrompt does not exist".to_string() }
            }
        }
    }

    fn ask(&self, probe: &Probe) -> ProbeReport {
        match probe {
            Probe::FileExists { path } => ProbeReport::Found { present: self.files.contains_key(path) },
            Probe::RunValueExists { name } => {
                ProbeReport::Exited { success: self.run_values.contains_key(name) }
            }
        }
    }

    fn run(&mut self, plan: &Plan) -> Result<(), AutostartError> {
        let mut guard: Option<ProbeReport> = None;
        let mut reports: Vec<StepReport> = Vec::new();
        loop {
            match progress(plan, &guard, &reports) {
                Progress::AskGuard => guard = plan.guard.as_ref().map(|probe| self.ask(probe)),
                Progress::Perform { index } => {
                    let report = self.perform(&plan.steps[index]);
                    reports.push(report);
                }
                Progress::Finished { result } => {
                    assert_eq!(conclude(plan, guard, reports), result);
                    return result;
                }
            }
        }
    }
}

fn home_of(platform: Platform) -> Result<String, String> {
    match platform {
        Platform::MacOs => ok("/Users/ada"),
        Platform::Windows => unknown("HOME is not set"),
        Platform::Linux => ok("/home/ada"),
    }
}

fn enable(host: &mut Host, platform: Platform) -> Result<(), AutostartError> {
    let plan = enable_plan(platform, ok("/opt/clip/clip-prompt"), home_of(platform))?;
    host.run(&plan)
}

fn disable(host: &mut Host, platform: Platform) -> Result<(), AutostartError> {
    let plan = disable_plan(platform, home_of(platform))?;
    host.run(&plan)
}

fn query(host: &Host, platform: Platform) -> Result<bool, AutostartError> {
    let probe = query_probe(platform, home_of(platform))?;
    is_enabled(host.ask(&probe))
}

const PLATFORMS: [Platform; 3] = [Platform::MacOs, Platform::Windows, Platform::Linux];

#[test]
fn the_three_platforms_are_detected_by_name() {
    assert_eq!(Platform::detect("macos"), Ok(Platform::MacOs));
    assert_eq!(Platform::detect("windows"), Ok(Platform::Windows));
    assert_eq!(Platform::detect("linux"), Ok(Platform::Linux));
}

#[test]
fn other_hosts_are_unsupported() {
    assert_eq!(Platform::detect("freebsd"), Err(AutostartError::UnsupportedPlatform));
    assert_eq!(Platform::detect("android"), Err(AutostartError::UnsupportedPlatform));
    assert_eq!(Platform::detect(""), Err(AutostartError::UnsupportedPlatform));
    assert_eq!(Platform::detect("Linux"), Err(AutostartError::UnsupportedPlatform));
}

#[test]
fn only_windows_does_without_the_home_directory() {
    assert!(Platform::MacOs.needs_home());
    assert!(Platform::Linux.needs_home());
    assert!(!Platform::Windows.needs_home());
}

#[test]
fn launch_agent_embeds_identifier_and_executable() {
    let expected = "<?xml version=\"1.0\" encoding=\"UTF-8\"?>\n\
<!DOCTYPE plist PUBLIC \"-//Apple//DTD PLIST 1.0//EN\" \"http://www.apple.com/DTDs/PropertyList-1.0.dtd\">\n\
<plist version=\"1.0\">\n\
<dict>\n    <key>Label</key>\n    <string>com.clip-prompt.clip-prompt</string>\n    \
<key>ProgramArguments</key>\n    <array>\n        <string>/Applications/Clip Prompt.app/Contents/MacOS/clip-prompt</string>\n    \
</array>\n    <key>RunAtLoad</key>\n    <true/>\n    <key>KeepAlive</key>\n    <false/>\n</dict>\n</plist>";
    assert_eq!(
        render_launch_agent("/Applications/Clip Prompt.app/Contents/MacOS/clip-prompt"),
        expected
    );
}

#[test]
fn desktop_entry_embeds_name_and_executable() {
    let expected = "[Desktop Entry]\nType=Application\nName=Clip Prompt\nExec=/usr/bin/clip-prompt\n\
Hidden=false\nNoDisplay=false\nX-GNOME-Autostart-enabled=true";
    assert_eq!(render_desktop_entry("/usr/bin/clip-prompt"), expected);
}

#[test]
fn enable_on_macos_writes_and_registers_the_descriptor() {
    let plan = enable_plan(Platform::MacOs, ok("/opt/clip/clip-prompt"), ok("/Users/ada")).unwrap();
    assert_eq!(plan.guard, None);
    assert_eq!(
        plan.steps,
        vec![
            Step::CreateDirectory { path: "/Users/ada/Library/LaunchAgents".to_string() },
            Step::WriteFile {
                path: PLIST.to_string(),
                content: render_launch_agent("/opt/clip/clip-prompt"),
            },
            Step::Register { descriptor: PLIST.to_string() },
        ]
    );
}

#[test]
fn enable_on_windows_sets_the_run_value() {
    let plan = enable_plan(
        Platform::Windows,
        ok("C:\\Program Files\\Clip Prompt\\clip-prompt.exe"),
        unknown("HOME is not set"),
    )
    .unwrap();
    assert_eq!(plan.guard, None);
    assert_eq!(
        plan.steps,
        vec![Step::SetRunValue {
            name: "ClipPrompt".to_string(),
            value: "C:\\Program Files\\Clip Prompt\\clip-prompt.exe".to_string(),
        }]
    );
}

#[test]
fn enable_on_linux_writes_the_desktop_entry() {
    let plan = enable_plan(Platform::Linux, ok("/usr/bin/clip-prompt"), ok("/home/ada")).unwrap();
    assert_eq!(plan.guard, None);
    assert_eq!(
        plan.steps,
        vec![
            Step::CreateDirectory { path: "/home/ada/.config/autostart".to_string() },
            Step::WriteFile {
                path: DESKTOP.to_string(),
                content: render_desktop_entry("/usr/bin/clip-prompt"),
            },
        ]
    );
}

#[test]
fn unknown_executable_fails_enable_everywhere() {
    for platform in PLATFORMS {
        assert_eq!(
            enable_plan(platform, unknown("no such process"), ok("/home/ada")),
            Err(AutostartError::PathResolution {
                subject: PathSubject::Executable,
                message: "no such process".to_string(),
            })
        );
    }
}

#[test]
fn unknown_executable_is_reported_before_unknown_home() {
    assert_eq!(
        enable_plan(Platform::Linux, unknown("exe"), unknown("home")),
        Err(AutostartError::PathResolution {
            subject: PathSubject::Executable,
            message: "exe".to_string(),
        })
    );
}

#[test]
fn unknown_home_fails_where_the_registration_lives_under_it() {
    let expected = Err(AutostartError::PathResolution {
        subject: PathSubject::HomeDirectory,
        message: "HOME is not set".to_string(),
    });
    for platform in [Platform::MacOs, Platform::Linux] {
        assert_eq!(enable_plan(platform, ok("/bin/x"), unknown("HOME is not set")), expected);
        assert_eq!(disable_plan(platform, unknown("HOME is not set")), expected);
        assert_eq!(
            query_probe(platform, unknown("HOME is not set")),
            Err(AutostartError::PathResolution {
                subject: PathSubject::HomeDirectory,
                message: "HOME is not set".to_string(),
            })
        );
    }
}

#[test]
fn disable_on_macos_unregisters_then_removes_if_the_file_is_there() {
    let plan = disable_plan(Platform::MacOs, ok("/Users/ada")).unwrap();
    assert_eq!(plan.guard, Some(Probe::FileExists { path: PLIST.to_string() }));
    assert_eq!(
        plan.steps,
        vec![
            Step::Unregister { descriptor: PLIST.to_string() },
            Step::RemoveFile { path: PLIST.to_string() },
        ]
    );
}

#[test]
fn disable_on_windows_deletes_the_run_value_if_it_is_there() {
    let plan = disable_plan(Platform::Windows, unknown("HOME is not set")).unwrap();
    assert_eq!(plan.guard, Some(Probe::RunValueExists { name: "ClipPrompt".to_string() }));
    assert_eq!(plan.steps, vec![Step::DeleteRunValue { name: "ClipPrompt".to_string() }]);
}

#[test]
fn disable_on_linux_removes_the_entry_if_it_is_there() {
    let plan = disable_plan(Platform::Linux, ok("/home/ada")).unwrap();
    assert_eq!(plan.guard, Some(Probe::FileExists { path: DESKTOP.to_string() }));
    assert_eq!(plan.steps, vec![Step::RemoveFile { path: DESKTOP.to_string() }]);
}

#[test]
fn query_probes_the_registration_itself() {
    assert_eq!(
        query_probe(Platform::MacOs, ok("/Users/ada")),
        Ok(Probe::FileExists { path: PLIST.to_string() })
    );
    assert_eq!(
        query_probe(Platform::Windows, ok("C:\\Users\\ada")),
        Ok(Probe::RunValueExists { name: "ClipPrompt".to_string() })
    );
    assert_eq!(
        query_probe(Platform::Linux, ok("/home/ada")),
        Ok(Probe::FileExists { path: DESKTOP.to_string() })
    );
}

#[test]
fn file_steps_need_no_command() {
    assert_eq!(Step::CreateDirectory { path: "/d".to_string() }.command_line(), None);
    assert_eq!(
        Step::WriteFile { path: "/f".to_string(), content: "c".to_string() }.command_line(),
        None
    );
    assert_eq!(Step::RemoveFile { path: "/f".to_string() }.command_line(), None);
    assert_eq!(Probe::FileExists { path: "/f".to_string() }.command_line(), None);
}

#[test]
fn login_items_go_through_launchctl() {
    assert_eq!(
        Step::Register { descriptor: PLIST.to_string() }.command_line(),
        Some(CommandLine {
            program: "launchctl".to_string(),
            arguments: vec!["load".to_string(), PLIST.to_string()],
        })
    );
    assert_eq!(
        Step::Unregister { descriptor: PLIST.to_string() }.command_line(),
        Some(CommandLine {
            program: "launchctl".to_string(),
            arguments: vec!["unload".to_string(), PLIST.to_string()],
        })
    );
}

#[test]
fn run_values_go_through_powershell() {
    let set = Step::SetRunValue { name: "ClipPrompt".to_string(), value: "C:\\clip.exe".to_string() };
    assert_eq!(
        set.command_line(),
        Some(CommandLine {
            program: "powershell".to_string(),
            arguments: vec![
                "-Command".to_string(),
                "New-ItemProperty -Path \"HKCU:\\Software\\Microsoft\\Windows\\CurrentVersion\\Run\" -Name \"ClipPrompt\" -Value \"C:\\clip.exe\" -PropertyType String -Force".to_string(),
            ],
        })
    );
    let delete = Step::DeleteRunValue { name: "ClipPrompt".to_string() };
    assert_eq!(
        delete.command_line(),
        Some(CommandLine {
            program: "powershell".to_string(),
            arguments: vec![
                "-Command".to_string(),
                "Remove-ItemProperty -Path \"HKCU:\\Software\\Microsoft\\Windows\\CurrentVersion\\Run\" -Name \"ClipPrompt\" -Force".to_string(),
            ],
        })
    );
    let probe = Probe::RunValueExists { name: "ClipPrompt".to_string() };
    assert_eq!(
        probe.command_line(),
        Some(CommandLine {
            program: "powershell".to_string(),
            arguments: vec![
                "-Command".to_string(),
                "Get-ItemProperty -Path \"HKCU:\\Software\\Microsoft\\Windows\\CurrentVersion\\Run\" -Name \"ClipPrompt\" -ErrorAction SilentlyContinue".to_string(),
            ],
        })
    );
}

#[test]
fn a_step_that_is_done_is_no_error() {
    let steps = [
        Step::CreateDirectory { path: "/d".to_string() },
        Step::WriteFile { path: "/f".to_string(), content: "c".to_string() },
        Step::RemoveFile { path: "/f".to_string() },
        Step::Register { descriptor: "/f".to_string() },
        Step::DeleteRunValue { name: "n".to_string() },
    ];
    for step in &steps {
        assert_eq!(judge(step, &StepReport::Done), None);
        assert_eq!(judge(step, &StepReport::Exited { success: true, stderr: "warn".to_string() }), None);
    }
}

#[test]
fn failed_file_operations_are_persistence_errors() {
    let steps = [
        Step::CreateDirectory { path: "/d".to_string() },
        Step::WriteFile { path: "/f".to_string(), content: "c".to_string() },
        Step::RemoveFile { path: "/f".to_string() },
    ];
    for step in &steps {
        assert_eq!(
            judge(step, &StepReport::IoFailed { message: "Permission denied".to_string() }),
            Some(AutostartError::Persistence { message: "Permission denied".to_string() })
        );
    }
}

#[test]
fn commands_that_cannot_start_are_command_errors() {
    let steps = [
        Step::Register { descriptor: "/f".to_string() },
        Step::Unregister { descriptor: "/f".to_string() },
        Step::SetRunValue { name: "n".to_string(), value: "v".to_string() },
        Step::DeleteRunValue { name: "n".to_string() },
    ];
    for step in &steps {
        assert_eq!(
            judge(step, &StepReport::IoFailed { message: "program not found".to_string() }),
            Some(AutostartError::PlatformCommand { detail: "program not found".to_string() })
        );
    }
}

#[test]
fn commands_that_change_the_registration_must_succeed() {
    let failed = StepReport::Exited { success: false, stderr: "Load failed: 5".to_string() };
    let expected = Some(AutostartError::PlatformCommand { detail: "Load failed: 5".to_string() });
    assert_eq!(judge(&Step::Register { descriptor: "/f".to_string() }, &failed), expected);
    assert_eq!(
        judge(&Step::SetRunValue { name: "n".to_string(), value: "v".to_string() }, &failed),
        expected
    );
    assert_eq!(judge(&Step::DeleteRunValue { name: "n".to_string() }, &failed), expected);
}

#[test]
fn file_steps_that_end_in_failure_are_persistence_errors() {
    let failed = StepReport::Exited { success: false, stderr: "disk full".to_string() };
    let expected = Some(AutostartError::Persistence { message: "disk full".to_string() });
    assert_eq!(judge(&Step::CreateDirectory { path: "/d".to_string() }, &failed), expected);
    assert_eq!(
        judge(&Step::WriteFile { path: "/f".to_string(), content: "c".to_string() }, &failed),
        expected
    );
    assert_eq!(judge(&Step::RemoveFile { path: "/f".to_string() }, &failed), expected);
}

#[test]
fn only_unregistering_may_end_in_failure() {
    let failed = StepReport::Exited { success: false, stderr: "not loaded".to_string() };
    assert_eq!(judge(&Step::Unregister { descriptor: "/f".to_string() }, &failed), None);
}

#[test]
fn query_goes_by_presence_or_exit_status() {
    assert_eq!(is_enabled(ProbeReport::Found { present: true }), Ok(true));
    assert_eq!(is_enabled(ProbeReport::Found { present: false }), Ok(false));
    assert_eq!(is_enabled(ProbeReport::Exited { success: true }), Ok(true));
    assert_eq!(is_enabled(ProbeReport::Exited { success: false }), Ok(false));
    assert_eq!(
        is_enabled(ProbeReport::IoFailed { message: "program not found".to_string() }),
        Err(AutostartError::PlatformCommand { detail: "program not found".to_string() })
    );
}

#[test]
fn enable_then_query_says_enabled() {
    for platform in PLATFORMS {
        let mut host = Host::default();
        assert_eq!(query(&host, platform), Ok(false));
        assert_eq!(enable(&mut host, platform), Ok(()));
        assert_eq!(query(&host, platform), Ok(true));
        assert_eq!(enable(&mut host, platform), Ok(()));
        assert_eq!(query(&host, platform), Ok(true));
    }
}

#[test]
fn disable_then_query_says_disabled() {
    for platform in PLATFORMS {
        let mut host = Host::default();
        assert_eq!(enable(&mut host, platform), Ok(()));
        assert_eq!(disable(&mut host, platform), Ok(()));
        assert_eq!(query(&host, platform), Ok(false));
        assert_eq!(disable(&mut host, platform), Ok(()));
        assert_eq!(query(&host, platform), Ok(false));
    }
}

#[test]
fn disable_when_never_enabled_succeeds() {
    for platform in PLATFORMS {
        let mut host = Host::default();
        assert_eq!(disable(&mut host, platform), Ok(()));
        assert_eq!(host, Host::default());
    }
}

#[test]
fn enable_twice_is_enable_once() {
    for platform in PLATFORMS {
        let mut once = Host::default();
        enable(&mut once, platform).unwrap();
        let mut twice = once.clone();
        enable(&mut twice, platform).unwrap();
        assert_eq!(once, twice);
    }
}

#[test]
fn enable_replaces_an_older_registration() {
    let mut host = Host::default();
    host.files.insert(DESKTOP.to_string(), "stale".to_string());
    enable(&mut host, Platform::Linux).unwrap();
    assert_eq!(host.files.get(DESKTOP), Some(&render_desktop_entry("/opt/clip/clip-prompt")));
}

#[test]
fn failed_registration_stops_the_plan_with_what_the_command_said() {
    let plan = enable_plan(Platform::MacOs, ok("/opt/clip/clip-prompt"), ok("/Users/ada")).unwrap();
    let reports = vec![
        StepReport::Done,
        StepReport::Done,
        StepReport::Exited { success: false, stderr: "Load failed: 5: Input/output error".to_string() },
    ];
    let expected = Err(AutostartError::PlatformCommand {
        detail: "Load failed: 5: Input/output error".to_string(),
    });
    assert_eq!(progress(&plan, &None, &reports), Progress::Finished { result: expected.clone() });
    assert_eq!(conclude(&plan, None, reports), expected);
}

#[test]
fn first_failure_ends_the_plan() {
    let plan = enable_plan(Platform::MacOs, ok("/opt/clip/clip-prompt"), ok("/Users/ada")).unwrap();
    let reports = vec![
        StepReport::IoFailed { message: "Permission denied".to_string() },
        StepReport::IoFailed { message: "later".to_string() },
    ];
    let expected = Err(AutostartError::Persistence { message: "Permission denied".to_string() });
    assert_eq!(progress(&plan, &None, &reports), Progress::Finished { result: expected.clone() });
    assert_eq!(conclude(&plan, None, reports), expected);
}

#[test]
fn steps_are_asked_for_one_by_one() {
    let plan = enable_plan(Platform::MacOs, ok("/opt/clip/clip-prompt"), ok("/Users/ada")).unwrap();
    let mut reports = Vec::new();
    assert_eq!(progress(&plan, &None, &reports), Progress::Perform { index: 0 });
    reports.push(StepReport::Done);
    assert_eq!(progress(&plan, &None, &reports), Progress::Perform { index: 1 });
    reports.push(StepReport::Done);
    assert_eq!(progress(&plan, &None, &reports), Progress::Perform { index: 2 });
    reports.push(StepReport::Exited { success: true, stderr: String::new() });
    assert_eq!(progress(&plan, &None, &reports), Progress::Finished { result: Ok(()) });
    assert_eq!(conclude(&plan, None, reports), Ok(()));
}

#[test]
fn guard_is_asked_first() {
    for platform in PLATFORMS {
        let plan = disable_plan(platform, ok("/home/ada")).unwrap();
        assert_eq!(progress(&plan, &None, &Vec::new()), Progress::AskGuard);
    }
}

#[test]
fn guard_that_finds_nothing_ends_the_plan_in_success() {
    for platform in PLATFORMS {
        let plan = disable_plan(platform, ok("/home/ada")).unwrap();
        for guard in [ProbeReport::Found { present: false }, ProbeReport::Exited { success: false }] {
            assert_eq!(
                progress(&plan, &Some(guard.clone()), &Vec::new()),
                Progress::Finished { result: Ok(()) }
            );
            let stray = vec![StepReport::IoFailed { message: "never run".to_string() }];
            assert_eq!(conclude(&plan, Some(guard), stray), Ok(()));
        }
    }
}

#[test]
fn guard_that_finds_the_registration_lets_the_steps_run() {
    let plan = disable_plan(Platform::Windows, unknown("HOME is not set")).unwrap();
    let guard = Some(ProbeReport::Exited { success: true });
    assert_eq!(progress(&plan, &guard, &Vec::new()), Progress::Perform { index: 0 });
    let done = vec![StepReport::Exited { success: true, stderr: String::new() }];
    assert_eq!(progress(&plan, &guard, &done), Progress::Finished { result: Ok(()) });
    assert_eq!(conclude(&plan, guard, done), Ok(()));
}

#[test]
fn guard_that_cannot_be_asked_fails_the_plan() {
    let plan = disable_plan(Platform::Windows, unknown("HOME is not set")).unwrap();
    let guard = Some(ProbeReport::IoFailed { message: "program not found".to_string() });
    let expected = Err(AutostartError::PlatformCommand { detail: "program not found".to_string() });
    assert_eq!(progress(&plan, &guard, &Vec::new()), Progress::Finished { result: expected.clone() });
    assert_eq!(conclude(&plan, guard, Vec::new()), expected);
}

#[test]
fn failed_removal_of_a_present_run_value_fails_disable() {
    let plan = disable_plan(Platform::Windows, unknown("HOME is not set")).unwrap();
    let guard = Some(ProbeReport::Exited { success: true });
    let reports = vec![StepReport::Exited { success: false, stderr: "Access is denied".to_string() }];
    assert_eq!(
        conclude(&plan, guard, reports),
        Err(AutostartError::PlatformCommand { detail: "Access is denied".to_string() })
    );
}

#[test]
fn failed_removal_of_a_present_file_fails_disable() {
    let plan = disable_plan(Platform::Linux, ok("/home/ada")).unwrap();
    let guard = Some(ProbeReport::Found { present: true });
    let reports = vec![StepReport::IoFailed { message: "Permission denied".to_string() }];
    assert_eq!(
        conclude(&plan, guard, reports),
        Err(AutostartError::Persistence { message: "Permission denied".to_string() })
    );
}

#[test]
fn failed_unregistering_does_not_stop_the_removal() {
    let plan = disable_plan(Platform::MacOs, ok("/Users/ada")).unwrap();
    let guard = Some(ProbeReport::Found { present: true });
    let mut reports = vec![StepReport::Exited { success: false, stderr: "not loaded".to_string() }];
    assert_eq!(progress(&plan, &guard, &reports), Progress::Perform { index: 1 });
    reports.push(StepReport::Done);
    assert_eq!(conclude(&plan, guard, reports), Ok(()));
}

#[test]
fn plan_without_guard_ignores_a_guard_report() {
    let plan = enable_plan(Platform::Windows, ok("C:\\clip.exe"), unknown("HOME")).unwrap();
    let guard = Some(ProbeReport::Found { present: false });
    assert_eq!(progress(&plan, &guard, &Vec::new()), Progress::Perform { index: 0 });
    let reports = vec![StepReport::Exited { success: false, stderr: "denied".to_string() }];
    assert_eq!(
        conclude(&plan, guard, reports),
        Err(AutostartError::PlatformCommand { detail: "denied".to_string() })
    );
}
