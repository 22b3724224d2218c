//! The serial number resolver: five strategies, from the most to the least
//! authoritative, judged by [`Validity::SerialNumber`].
//!
//! [`Validity::SerialNumber`]: crate::validity::Validity::SerialNumber

use crate::command::{
    powershell_view, CommandLine, CommandLineView, Platform, RunOutcomeView, Strategy,
    StrategyView,
};
use crate::engine::{ends_in, value_or, Conclusion, ConclusionView};
use crate::validity::{valid_serial, Validity};
use crate::text::{Extraction, ExtractionView};
use vstd::prelude::*;

verus! {

/// A strategy that hands `script` to PowerShell and takes the whole output.
pub open spec fn scripted_view(name: Seq<char>, script: Seq<char>, platform: Platform)
    -> StrategyView {
    StrategyView {
        name,
        command: powershell_view(script, platform),
        extraction: ExtractionView::Plain,
    }
}

/// The legacy management-instrumentation tool, asked for the BIOS serial in
/// `key=value` form. On Windows it is run directly; elsewhere the same
/// command text goes through PowerShell.
pub open spec fn wmic_view(platform: Platform) -> StrategyView {
    StrategyView {
        name: "WMIC"@,
        command: match platform {
            Platform::Windows => CommandLineView {
                program: "wmic"@,
                args: seq!["bios"@, "get"@, "serialnumber"@, "/value"@],
                hide_window: true,
            },
            Platform::Other => powershell_view("wmic bios get serialnumber /value"@, platform),
        },
        extraction: ExtractionView::Keyed("SerialNumber"@),
    }
}

/// The chain of the serial number resolver, in the order in which it is
/// tried: the BIOS class, the computer-system product, the system
/// enclosure, the BIOS class through the newer instance query, and the
/// legacy command-line tool.
pub open spec fn serial_chain_view(platform: Platform) -> Seq<StrategyView> {
    seq![
        scripted_view(
            "Win32_BIOS"@,
            "Get-WmiObject -Class Win32_BIOS | Select-Object -ExpandProperty SerialNumber"@,
            platform,
        ),
        scripted_view(
            "Win32_ComputerSystemProduct"@,
            "Get-WmiObject -Class Win32_ComputerSystemProduct | Select-Object -ExpandProperty IdentifyingNumber"@,
            platform,
        ),
        scripted_view(
            "Win32_SystemEnclosure"@,
            "Get-WmiObject -Class Win32_SystemEnclosure | Select-Object -ExpandProperty SerialNumber"@,
            platform,
        ),
        scripted_view("CIM"@, "(Get-CimInstance -ClassName Win32_BIOS).SerialNumber"@, platform),
        wmic_view(platform),
    ]
}

/// The serial number that a conclusion stands for: the value found, or the
/// sentinel `Unknown` when every strategy was exhausted.
pub open spec fn serial_number_of(conclusion: ConclusionView) -> Seq<char> {
    value_or(conclusion, "Unknown"@)
}

/// What is shown for a serial number: the number itself, or the placeholder
/// `Desconocido` in place of an empty one.
pub open spec fn displayed_serial_of(serial: Seq<char>) -> Seq<char> {
    if serial.len() == 0 {
        "Desconocido"@
    } else {
        serial
    }
}

/// The resolver never answers with an empty serial number: what it gives is
/// a valid serial number or the sentinel, so that the placeholder for an
/// empty one is a second line of defence that this resolver never needs.
pub proof fn law_serial_number_is_never_empty(
    chain: Seq<StrategyView>,
    outcomes: Seq<RunOutcomeView>,
    conclusion: ConclusionView,
)
    requires
        ends_in(chain, Validity::SerialNumber, outcomes, conclusion),
    ensures
        conclusion is Resolved ==> valid_serial(serial_number_of(conclusion)),
        conclusion is Exhausted ==> serial_number_of(conclusion) == "Unknown"@,
        serial_number_of(conclusion).len() > 0,
        displayed_serial_of(serial_number_of(conclusion)) == serial_number_of(conclusion),
{
    reveal_strlit("Unknown");
}

fn scripted(name: &str, script: &str, platform: Platform) -> (strategy: Strategy)
    ensures
        strategy.deep_view() == scripted_view(name@, script@, platform),
{
    Strategy {
        name: name.to_owned(),
        command: CommandLine::powershell(script, platform),
        extraction: Extraction::Plain,
    }
}

fn wmic(platform: Platform) -> (strategy: Strategy)
    ensures
        strategy.deep_view() == wmic_view(platform),
{
    let command = match platform {
        Platform::Windows => {
            let mut args: Vec<String> = Vec::new();
            args.push("bios".to_owned());
            args.push("get".to_owned());
            args.push("serialnumber".to_owned());
            args.push("/value".to_owned());
            assert(args.deep_view() =~= seq!["bios"@, "get"@, "serialnumber"@, "/value"@]);
            CommandLine { program: "wmic".to_owned(), args, hide_window: true }
        },
        Platform::Other => CommandLine::powershell("wmic bios get serialnumber /value", platform),
    };
    Strategy {
        name: "WMIC".to_owned(),
        command,
        extraction: Extraction::Keyed("SerialNumber".to_owned()),
    }
}

/// Builds the chain of the serial number resolver for `platform`.
pub fn serial_chain(platform: Platform) -> (chain: Vec<Strategy>)
    ensures
        chain.deep_view() == serial_chain_view(platform),
{
    let mut chain: Vec<Strategy> = Vec::new();
    chain.push(
        scripted(
            "Win32_BIOS",
            "Get-WmiObject -Class Win32_BIOS | Select-Object -ExpandProperty SerialNumber",
            platform,
        ),
    );
    chain.push(
        scripted(
            "Win32_ComputerSystemProduct",
            "Get-WmiObject -Class Win32_ComputerSystemProduct | Select-Object -ExpandProperty IdentifyingNumber",
            platform,
        ),
    );
    chain.push(
        scripted(
            "Win32_SystemEnclosure",
            "Get-WmiObject -Class Win32_SystemEnclosure | Select-Object -ExpandProperty SerialNumber",
            platform,
        ),
    );
    chain.push(scripted("CIM", "(Get-CimInstance -ClassName Win32_BIOS).SerialNumber", platform));
    chain.push(wmic(platform));
    assert(chain.deep_view() =~= serial_chain_view(platform));
    chain
}

/// The serial number that `conclusion` stands for. Exhaustion of the chain
/// is answered with the sentinel `Unknown`, never with an error.
pub fn serial_number(conclusion: Conclusion) -> (serial: String)
    ensures
        serial@ == serial_number_of(conclusion@),
{
    conclusion.into_value_or("Unknown")
}

/// What is shown for `serial`: a second line of defence, which puts the
/// placeholder `Desconocido` where the serial number is empty.
pub fn displayed_serial(serial: String) -> (shown: String)
    ensures
        shown@ == displayed_serial_of(serial@),
{
    if serial.as_str().is_empty() {
        "Desconocido".to_owned()
    } else {
        serial
    }
}

} // verus!
