use std::cell::RefCell;
use system_monitor::activation::{activation_chain, activation_status, ActivationStatus};
use system_monitor::command::{CommandLine, Platform, RawCommandResult, RunOutcome, Strategy};
use system_monitor::connectivity::{ping_chain, ping_strategy, probe_hosts, reachable};
use system_monitor::engine::{resolve_with, Conclusion, Failure};
use system_monitor::hostname::{hostname_chain, hostname_or_placeholder};
use system_monitor::info::{basic_system_info, or_unknown, windows_specific_info};
use system_monitor::serial::{displayed_serial, serial_chain, serial_number};
use system_monitor::text::Extraction;
use system_monitor::validity::Validity;

fn printed(stdout: &str) -> RunOutcome {
    RunOutcome::Completed(RawCommandResult {
        exit_success: true,
        stdout: stdout.to_string(),
        stderr: String::new(),
    })
}

fn failed() -> RunOutcome {
    RunOutcome::Completed(RawCommandResult {
        exit_success: false,
        stdout: String::new(),
        stderr: "failure".to_string(),
    })
}

fn strings(items: &[&str]) -> Vec<String> {
    items.iter().map(|item| item.to_string()).collect()
}

#[test]
fn serial_chain_lists_five_strategies_in_order() {
    for platform in [Platform::Windows, Platform::Other] {
        let names: Vec<String> = serial_chain(platform).into_iter().map(|s| s.name).collect();
        assert_eq!(
            names,
            strings(&["Win32_BIOS", "Win32_ComputerSystemProduct", "Win32_SystemEnclosure", "CIM", "WMIC"])
        );
    }
}

#[test]
fn serial_chain_on_windows_runs_the_legacy_tool_directly() {
    let chain = serial_chain(Platform::Windows);
    assert_eq!(
        chain[0],
        Strategy {
            name: "Win32_BIOS".to_string(),
            command: CommandLine {
                program: "powershell".to_string(),
                args: strings(&[
                    "-Command",
                    "Get-WmiObject -Class Win32_BIOS | Select-Object -ExpandProperty SerialNumber"
                ]),
                hide_window: true,
            },
            extraction: Extraction::Plain,
        }
    );
    assert_eq!(
        chain[1].command.args[1],
        "Get-WmiObject -Class Win32_ComputerSystemProduct | Select-Object -ExpandProperty IdentifyingNumber"
    );
    assert_eq!(
        chain[2].command.args[1],
        "Get-WmiObject -Class Win32_SystemEnclosure | Select-Object -ExpandProperty SerialNumber"
    );
    assert_eq!(chain[3].command.args[1], "(Get-CimInstance -ClassName Win32_BIOS).SerialNumber");
    assert_eq!(
        chain[4],
        Strategy {
            name: "WMIC".to_string(),
            command: CommandLine {
                program: "wmic".to_string(),
                args: strings(&["bios", "get", "serialnumber", "/value"]),
                hide_window: true,
            },
            extraction: Extraction::Keyed("SerialNumber".to_string()),
        }
    );
}

#[test]
fn serial_chain_elsewhere_goes_through_powershell() {
    let chain = serial_chain(Platform::Other);
    for strategy in &chain {
        assert_eq!(strategy.command.program, "powershell");
        assert_eq!(strategy.command.args[0], "-Command");
        assert!(!strategy.command.hide_window);
    }
    assert_eq!(chain[4].command.args, strings(&["-Command", "wmic bios get serialnumber /value"]));
    assert_eq!(chain[4].extraction, Extraction::Keyed("SerialNumber".to_string()));
}

#[test]
fn serial_number_falls_through_invalid_candidates() {
    let chain = serial_chain(Platform::Windows);
    let calls: RefCell<Vec<String>> = RefCell::new(Vec::new());
    let resolution = resolve_with(&chain, Validity::SerialNumber, |s: &Strategy| {
        calls.borrow_mut().push(s.name.clone());
        match s.name.as_str() {
            "Win32_BIOS" => printed("To Be Filled By O.E.M.\r\n"),
            "Win32_ComputerSystemProduct" => printed("0\r\n"),
            "Win32_SystemEnclosure" => printed("\r\n"),
            "CIM" => failed(),
            _ => printed("\r\r\nSerialNumber=PF3ABCDE\r\r\n\r\r\n"),
        }
    });
    assert_eq!(calls.borrow().len(), 5);
    assert_eq!(resolution.conclusion, Conclusion::Resolved { by: 4, value: "PF3ABCDE".to_string() });
    assert_eq!(serial_number(resolution.conclusion), "PF3ABCDE");
}

#[test]
fn serial_number_stops_at_the_first_valid_candidate() {
    let chain = serial_chain(Platform::Windows);
    let calls: RefCell<Vec<String>> = RefCell::new(Vec::new());
    let resolution = resolve_with(&chain, Validity::SerialNumber, |s: &Strategy| {
        calls.borrow_mut().push(s.name.clone());
        match s.name.as_str() {
            "Win32_BIOS" => RunOutcome::ExecutionFailure,
            "Win32_ComputerSystemProduct" => printed("  5CG9999XYZ \r\n"),
            _ => printed("OTHER"),
        }
    });
    assert_eq!(*calls.borrow(), strings(&["Win32_BIOS", "Win32_ComputerSystemProduct"]));
    assert_eq!(serial_number(resolution.conclusion), "5CG9999XYZ");
}

#[test]
fn serial_number_of_an_exhausted_chain_is_unknown() {
    let chain = serial_chain(Platform::Other);
    let resolution = resolve_with(&chain, Validity::SerialNumber, |_s: &Strategy| {
        RunOutcome::ExecutionFailure
    });
    assert_eq!(resolution.attempts.len(), 5);
    assert_eq!(resolution.conclusion, Conclusion::Exhausted(Failure::NotSpawned));
    assert_eq!(serial_number(resolution.conclusion), "Unknown");
}

#[test]
fn an_empty_serial_is_shown_as_desconocido() {
    assert_eq!(displayed_serial(String::new()), "Desconocido");
    assert_eq!(displayed_serial("Unknown".to_string()), "Unknown");
    assert_eq!(displayed_serial("PF3".to_string()), "PF3");
}

#[test]
fn hostname_chain_asks_the_tool_then_the_environment() {
    let chain = hostname_chain(Platform::Windows);
    assert_eq!(chain.len(), 2);
    assert_eq!(
        chain[0].command,
        CommandLine { program: "hostname".to_string(), args: Vec::new(), hide_window: true }
    );
    assert_eq!(
        chain[1].command,
        CommandLine {
            program: "powershell".to_string(),
            args: strings(&["-Command", "$env:COMPUTERNAME"]),
            hide_window: true,
        }
    );
    assert_eq!(chain[0].extraction, Extraction::Plain);
    assert_eq!(chain[1].extraction, Extraction::Plain);
    assert!(!hostname_chain(Platform::Other)[0].command.hide_window);
}

#[test]
fn hostname_comes_from_the_first_strategy_that_prints_one() {
    let chain = hostname_chain(Platform::Other);
    let first = resolve_with(&chain, Validity::NonEmpty, |_s: &Strategy| printed("box-01\n"));
    assert_eq!(first.attempts.len(), 1);
    assert_eq!(first.conclusion.into_result(), Ok("box-01".to_string()));
    let second = resolve_with(&chain, Validity::NonEmpty, |s: &Strategy| {
        if s.name == "hostname" {
            printed("\n")
        } else {
            printed("BOX-02\r\n")
        }
    });
    assert_eq!(second.attempts.len(), 2);
    assert_eq!(second.conclusion.into_result(), Ok("BOX-02".to_string()));
}

#[test]
fn hostname_failure_is_an_error_and_the_caller_substitutes() {
    let chain = hostname_chain(Platform::Other);
    let ran = resolve_with(&chain, Validity::NonEmpty, |_s: &Strategy| failed());
    let result = ran.conclusion.into_result();
    assert_eq!(result, Err(Failure::ExitFailure));
    assert_eq!(hostname_or_placeholder(result), "Desconocido");
    let missing = resolve_with(&chain, Validity::NonEmpty, |_s: &Strategy| {
        RunOutcome::ExecutionFailure
    });
    assert_eq!(missing.conclusion.into_result(), Err(Failure::NotSpawned));
    assert_eq!(hostname_or_placeholder(Ok("box".to_string())), "box");
}

#[test]
fn activation_codes_map_to_the_seven_statuses() {
    let table = [
        ("0", ActivationStatus::Unlicensed, "Unlicensed"),
        ("1", ActivationStatus::Licensed, "Licensed"),
        ("2", ActivationStatus::OOBGrace, "OOBGrace"),
        ("3", ActivationStatus::OOTGrace, "OOTGrace"),
        ("4", ActivationStatus::NonGenuineGrace, "NonGenuineGrace"),
        ("5", ActivationStatus::Notification, "Notification"),
        ("6", ActivationStatus::ExtendedGrace, "ExtendedGrace"),
    ];
    for (code, status, label) in table {
        assert_eq!(ActivationStatus::from_code(code), status);
        assert_eq!(status.label(), label);
    }
    for (i, (_, a, _)) in table.iter().enumerate() {
        for (j, (_, b, _)) in table.iter().enumerate() {
            assert_eq!(a == b, i == j);
        }
    }
}

#[test]
fn other_codes_map_to_unknown() {
    for code in ["", "7", "-1", "10", "01", "1 ", " 1", "one", "1\n", "٣", "1.0"] {
        assert_eq!(ActivationStatus::from_code(code), ActivationStatus::Unknown, "{:?}", code);
    }
    assert_eq!(ActivationStatus::Unknown.label(), "Unknown");
}

#[test]
fn activation_chain_has_one_query() {
    let windows = activation_chain(Platform::Windows);
    assert_eq!(windows.len(), 1);
    assert_eq!(windows[0].command.program, "powershell");
    assert_eq!(
        windows[0].command.args,
        strings(&[
            "-Command",
            "Get-WmiObject -Class SoftwareLicensingProduct | Where-Object {$_.PartialProductKey -and $_.Name -like '*Windows*'} | Select-Object -ExpandProperty LicenseStatus"
        ])
    );
    assert!(windows[0].command.hide_window);
    let other = activation_chain(Platform::Other);
    assert_eq!(
        other[0].command.args[1],
        "Get-WmiObject -Class SoftwareLicensingProduct | Where-Object {$_.PartialProductKey} | Select-Object -ExpandProperty LicenseStatus"
    );
    assert!(!other[0].command.hide_window);
}

#[test]
fn activation_status_decodes_what_the_query_printed() {
    let chain = activation_chain(Platform::Windows);
    let licensed = resolve_with(&chain, Validity::Any, |_s: &Strategy| printed("1\r\n"));
    assert_eq!(activation_status(&licensed.conclusion), ActivationStatus::Licensed);
    let odd = resolve_with(&chain, Validity::Any, |_s: &Strategy| printed("1\r\n5\r\n"));
    assert_eq!(activation_status(&odd.conclusion), ActivationStatus::Unknown);
    let empty = resolve_with(&chain, Validity::Any, |_s: &Strategy| printed(""));
    assert_eq!(activation_status(&empty.conclusion), ActivationStatus::Unknown);
    let broken = resolve_with(&chain, Validity::Any, |_s: &Strategy| failed());
    assert_eq!(activation_status(&broken.conclusion), ActivationStatus::Unknown);
    let missing = resolve_with(&chain, Validity::Any, |_s: &Strategy| RunOutcome::ExecutionFailure);
    assert_eq!(activation_status(&missing.conclusion), ActivationStatus::Unknown);
}

#[test]
fn the_three_hosts_are_probed_in_a_fixed_order() {
    assert_eq!(probe_hosts(), strings(&["8.8.8.8", "1.1.1.1", "208.67.222.222"]));
}

#[test]
fn one_packet_and_three_seconds_per_ping() {
    let windows = ping_strategy(Platform::Windows, "8.8.8.8");
    assert_eq!(windows.name, "8.8.8.8");
    assert_eq!(
        windows.command,
        CommandLine {
            program: "ping".to_string(),
            args: strings(&["-n", "1", "-w", "3000", "8.8.8.8"]),
            hide_window: true,
        }
    );
    let other = ping_strategy(Platform::Other, "1.1.1.1");
    assert_eq!(
        other.command,
        CommandLine {
            program: "ping".to_string(),
            args: strings(&["-c", "1", "-W", "3", "1.1.1.1"]),
            hide_window: false,
        }
    );
    let chain = ping_chain(Platform::Other, &probe_hosts());
    let names: Vec<String> = chain.iter().map(|s| s.name.clone()).collect();
    assert_eq!(names, probe_hosts());
    assert_eq!(chain[1], other);
}

#[test]
fn the_second_host_replies_and_the_third_is_never_reached() {
    let chain = ping_chain(Platform::Other, &probe_hosts());
    let pinged: RefCell<Vec<String>> = RefCell::new(Vec::new());
    let resolution = resolve_with(&chain, Validity::Any, |s: &Strategy| {
        pinged.borrow_mut().push(s.name.clone());
        if s.name == "1.1.1.1" {
            printed("1 packets transmitted, 1 received")
        } else {
            failed()
        }
    });
    assert!(reachable(&resolution.conclusion));
    assert_eq!(*pinged.borrow(), strings(&["8.8.8.8", "1.1.1.1"]));
}

#[test]
fn the_first_reply_settles_connectivity() {
    let chain = ping_chain(Platform::Windows, &probe_hosts());
    let pinged: RefCell<usize> = RefCell::new(0);
    let resolution = resolve_with(&chain, Validity::Any, |_s: &Strategy| {
        *pinged.borrow_mut() += 1;
        printed("")
    });
    assert!(reachable(&resolution.conclusion));
    assert_eq!(*pinged.borrow(), 1);
}

#[test]
fn no_reply_from_any_host_means_unreachable() {
    let chain = ping_chain(Platform::Other, &probe_hosts());
    let pinged: RefCell<usize> = RefCell::new(0);
    let resolution = resolve_with(&chain, Validity::Any, |s: &Strategy| {
        *pinged.borrow_mut() += 1;
        if s.name == "1.1.1.1" {
            RunOutcome::ExecutionFailure
        } else {
            failed()
        }
    });
    assert!(!reachable(&resolution.conclusion));
    assert_eq!(*pinged.borrow(), 3);
    let nothing = resolve_with(&Vec::new(), Validity::Any, |_s: &Strategy| printed(""));
    assert!(!reachable(&nothing.conclusion));
}

#[test]
fn probing_twice_gives_the_same_answer() {
    let chain = ping_chain(Platform::Other, &probe_hosts());
    let runner = |s: &Strategy| if s.name == "208.67.222.222" { printed("") } else { failed() };
    let one = resolve_with(&chain, Validity::Any, runner);
    let two = resolve_with(&chain, Validity::Any, runner);
    assert_eq!(reachable(&one.conclusion), reachable(&two.conclusion));
    assert!(reachable(&one.conclusion));
    assert_eq!(one.attempts.len(), 3);
}

#[test]
fn missing_facts_are_reported_as_unknown() {
    assert_eq!(or_unknown(None), "Unknown");
    assert_eq!(or_unknown(Some("Windows".to_string())), "Windows");
    assert_eq!(or_unknown(Some(String::new())), "");
}

#[test]
fn basic_info_substitutes_each_missing_fact() {
    let full = basic_system_info(
        Some("Windows".to_string()),
        Some("11".to_string()),
        Ok("box".to_string()),
    );
    assert_eq!(full.os_name, "Windows");
    assert_eq!(full.os_version, "11");
    assert_eq!(full.hostname, "box");
    let bare = basic_system_info(None, None, Err(Failure::NotSpawned));
    assert_eq!(bare.os_name, "Unknown");
    assert_eq!(bare.os_version, "Unknown");
    assert_eq!(bare.hostname, "Desconocido");
}

#[test]
fn platform_info_never_fails() {
    let found = windows_specific_info(
        Conclusion::Resolved { by: 0, value: "PF3".to_string() },
        &Conclusion::Resolved { by: 0, value: "1".to_string() },
    );
    assert_eq!(found.serial_number, "PF3");
    assert_eq!(found.activation_status, "Licensed");
    let lost = windows_specific_info(
        Conclusion::Exhausted(Failure::Rejected),
        &Conclusion::Exhausted(Failure::NotSpawned),
    );
    assert_eq!(lost.serial_number, "Unknown");
    assert_eq!(lost.activation_status, "Unknown");
    let empty = windows_specific_info(
        Conclusion::Resolved { by: 0, value: String::new() },
        &Conclusion::Resolved { by: 0, value: "9".to_string() },
    );
    assert_eq!(empty.serial_number, "Desconocido");
    assert_eq!(empty.activation_status, "Unknown");
}
