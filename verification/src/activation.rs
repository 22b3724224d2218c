//! The activation status resolver: one licence query, whose numeric code is
//! decoded into a status. The chain has a single strategy, judged by
//! [`Validity::Any`]: every code is taken, and decoding decides.
//!
//! [`Validity::Any`]: crate::validity::Validity::Any

use crate::command::{powershell_view, CommandLine, Platform, Strategy, StrategyView};
use crate::engine::{Conclusion, ConclusionView};
use crate::text::{chars_of, Extraction, ExtractionView};
use vstd::prelude::*;

verus! {

/// The licence state of the operating system.
#[derive(Clone, Copy, Debug, PartialEq, Eq, Structural)]
pub enum ActivationStatus {
    Unlicensed,
    Licensed,
    OOBGrace,
    OOTGrace,
    NonGenuineGrace,
    Notification,
    ExtendedGrace,
    Unknown,
}

/// Whether `code` is one of the codes `0` to `6`.
pub open spec fn documented(code: Seq<char>) -> bool {
    code.len() == 1 && (code[0] == '0' || code[0] == '1' || code[0] == '2' || code[0] == '3'
        || code[0] == '4' || code[0] == '5' || code[0] == '6')
}

/// The status that `code` stands for. Every string has a status: a code
/// that is not documented stands for `Unknown`.
pub open spec fn status_of_code(code: Seq<char>) -> ActivationStatus {
    if code.len() != 1 {
        ActivationStatus::Unknown
    } else if code[0] == '0' {
        ActivationStatus::Unlicensed
    } else if code[0] == '1' {
        ActivationStatus::Licensed
    } else if code[0] == '2' {
        ActivationStatus::OOBGrace
    } else if code[0] == '3' {
        ActivationStatus::OOTGrace
    } else if code[0] == '4' {
        ActivationStatus::NonGenuineGrace
    } else if code[0] == '5' {
        ActivationStatus::Notification
    } else if code[0] == '6' {
        ActivationStatus::ExtendedGrace
    } else {
        ActivationStatus::Unknown
    }
}

/// The code of a named status; `Unknown` has none.
pub open spec fn code_of_status(status: ActivationStatus) -> Option<Seq<char>> {
    match status {
        ActivationStatus::Unlicensed => Some(seq!['0']),
        ActivationStatus::Licensed => Some(seq!['1']),
        ActivationStatus::OOBGrace => Some(seq!['2']),
        ActivationStatus::OOTGrace => Some(seq!['3']),
        ActivationStatus::NonGenuineGrace => Some(seq!['4']),
        ActivationStatus::Notification => Some(seq!['5']),
        ActivationStatus::ExtendedGrace => Some(seq!['6']),
        ActivationStatus::Unknown => None,
    }
}

/// The label under which a status is reported.
pub open spec fn label_of(status: ActivationStatus) -> Seq<char> {
    match status {
        ActivationStatus::Unlicensed => "Unlicensed"@,
        ActivationStatus::Licensed => "Licensed"@,
        ActivationStatus::OOBGrace => "OOBGrace"@,
        ActivationStatus::OOTGrace => "OOTGrace"@,
        ActivationStatus::NonGenuineGrace => "NonGenuineGrace"@,
        ActivationStatus::Notification => "Notification"@,
        ActivationStatus::ExtendedGrace => "ExtendedGrace"@,
        ActivationStatus::Unknown => "Unknown"@,
    }
}

/// The status that a conclusion stands for: the decoded code, or `Unknown`
/// when the query failed.
pub open spec fn activation_of(conclusion: ConclusionView) -> ActivationStatus {
    match conclusion {
        ConclusionView::Resolved { by, value } => status_of_code(value),
        ConclusionView::Exhausted(_) => ActivationStatus::Unknown,
    }
}

/// The licence query: the status field of the licence record that carries a
/// partial product key. On Windows the record is also required to be that of
/// Windows itself.
pub open spec fn activation_script(platform: Platform) -> Seq<char> {
    match platform {
        Platform::Windows =>
            "Get-WmiObject -Class SoftwareLicensingProduct | Where-Object {$_.PartialProductKey -and $_.Name -like '*Windows*'} | Select-Object -ExpandProperty LicenseStatus"@,
        Platform::Other =>
            "Get-WmiObject -Class SoftwareLicensingProduct | Where-Object {$_.PartialProductKey} | Select-Object -ExpandProperty LicenseStatus"@,
    }
}

/// The chain of the activation status resolver: its one strategy.
pub open spec fn activation_chain_view(platform: Platform) -> Seq<StrategyView> {
    seq![
        StrategyView {
            name: "LicenseStatus"@,
            command: powershell_view(activation_script(platform), platform),
            extraction: ExtractionView::Plain,
        },
    ]
}

/// The mapping is total, and a bijection between the documented codes and
/// the seven named statuses: a code is documented exactly when its status is
/// not `Unknown`, a documented code is the code of its status, and a named
/// status is the status of its code.
pub proof fn law_code_bijection(code: Seq<char>, status: ActivationStatus)
    ensures
        documented(code) <==> status_of_code(code) != ActivationStatus::Unknown,
        documented(code) ==> code_of_status(status_of_code(code)) == Some(code),
        status != ActivationStatus::Unknown ==> code_of_status(status) is Some && documented(
            code_of_status(status)->0,
        ) && status_of_code(code_of_status(status)->0) == status,
        status == ActivationStatus::Unknown <==> code_of_status(status) is None,
{
    if documented(code) {
        assert(code =~= seq![code[0]]);
    }
}

/// Two documented codes with the same status are the same code.
pub proof fn law_code_injective(a: Seq<char>, b: Seq<char>)
    requires
        documented(a),
        documented(b),
        status_of_code(a) == status_of_code(b),
    ensures
        a == b,
{
    law_code_bijection(a, ActivationStatus::Unknown);
    law_code_bijection(b, ActivationStatus::Unknown);
}

impl ActivationStatus {
    /// Decodes a status code. The codes `0` to `6` give the seven named
    /// statuses; any other text, the empty one too, gives `Unknown`.
    pub fn from_code(code: &str) -> (status: ActivationStatus)
        ensures
            status == status_of_code(code@),
    {
        let v = chars_of(code);
        if v.len() != 1 {
            return ActivationStatus::Unknown;
        }
        let digit = v[0];
        if digit == '0' {
            ActivationStatus::Unlicensed
        } else if digit == '1' {
            ActivationStatus::Licensed
        } else if digit == '2' {
            ActivationStatus::OOBGrace
        } else if digit == '3' {
            ActivationStatus::OOTGrace
        } else if digit == '4' {
            ActivationStatus::NonGenuineGrace
        } else if digit == '5' {
            ActivationStatus::Notification
        } else if digit == '6' {
            ActivationStatus::ExtendedGrace
        } else {
            ActivationStatus::Unknown
        }
    }

    /// The label under which the status is reported.
    pub fn label(self) -> (text: String)
        ensures
            text@ == label_of(self),
    {
        match self {
            ActivationStatus::Unlicensed => "Unlicensed".to_owned(),
            ActivationStatus::Licensed => "Licensed".to_owned(),
            ActivationStatus::OOBGrace => "OOBGrace".to_owned(),
            ActivationStatus::OOTGrace => "OOTGrace".to_owned(),
            ActivationStatus::NonGenuineGrace => "NonGenuineGrace".to_owned(),
            ActivationStatus::Notification => "Notification".to_owned(),
            ActivationStatus::ExtendedGrace => "ExtendedGrace".to_owned(),
            ActivationStatus::Unknown => "Unknown".to_owned(),
        }
    }
}

/// Builds the chain of the activation status resolver for `platform`.
pub fn activation_chain(platform: Platform) -> (chain: Vec<Strategy>)
    ensures
        chain.deep_view() == activation_chain_view(platform),
{
    let command = match platform {
        Platform::Windows => CommandLine::powershell(
            "Get-WmiObject -Class SoftwareLicensingProduct | Where-Object {$_.PartialProductKey -and $_.Name -like '*Windows*'} | Select-Object -ExpandProperty LicenseStatus",
            platform,
        ),
        Platform::Other => CommandLine::powershell(
            "Get-WmiObject -Class SoftwareLicensingProduct | Where-Object {$_.PartialProductKey} | Select-Object -ExpandProperty LicenseStatus",
            platform,
        ),
    };
    let mut chain: Vec<Strategy> = Vec::new();
    chain.push(
        Strategy { name: "LicenseStatus".to_owned(), command, extraction: Extraction::Plain },
    );
    assert(chain.deep_view() =~= activation_chain_view(platform));
    chain
}

/// The status that `conclusion` stands for. A failed query is answered with
/// `Unknown`, never with an error.
pub fn activation_status(conclusion: &Conclusion) -> (status: ActivationStatus)
    ensures
        status == activation_of(conclusion@),
{
    match conclusion {
        Conclusion::Resolved { by, value } => ActivationStatus::from_code(value.as_str()),
        Conclusion::Exhausted(_) => ActivationStatus::Unknown,
    }
}

} // verus!
