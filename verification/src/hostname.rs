//! The hostname resolver: the system's own hostname tool first, then the
//! computer name from the environment, judged by [`Validity::NonEmpty`].
//!
//! Unlike the other resolvers this one has no sentinel of its own. When both
//! strategies fail it reports the failure, and the caller decides what to
//! show in its place.
//!
//! [`Validity::NonEmpty`]: crate::validity::Validity::NonEmpty

use crate::command::{
    bare_view, powershell_view, CommandLine, Platform, RunOutcomeView, Strategy, StrategyView,
};
use crate::engine::{ends_in, ConclusionView, Failure};
use crate::validity::Validity;
use crate::text::{Extraction, ExtractionView};
use vstd::prelude::*;

verus! {

/// The chain of the hostname resolver: the bare `hostname` tool, then the
/// computer name as the shell's environment holds it.
pub open spec fn hostname_chain_view(platform: Platform) -> Seq<StrategyView> {
    seq![
        StrategyView {
            name: "hostname"@,
            command: bare_view("hostname"@, platform),
            extraction: ExtractionView::Plain,
        },
        StrategyView {
            name: "PowerShell"@,
            command: powershell_view("$env:COMPUTERNAME"@, platform),
            extraction: ExtractionView::Plain,
        },
    ]
}

/// What is shown for a hostname: the name that was resolved, or the
/// placeholder `Desconocido` after a failure.
pub open spec fn hostname_or_placeholder_of(resolved: Result<Seq<char>, Failure>) -> Seq<char> {
    match resolved {
        Ok(name) => name,
        Err(_) => "Desconocido"@,
    }
}

/// What a conclusion of the resolver gives to its caller: the name, or the
/// failure of the last strategy as an error.
pub open spec fn hostname_of(conclusion: ConclusionView) -> Result<Seq<char>, Failure> {
    match conclusion {
        ConclusionView::Resolved { by, value } => Ok(value),
        ConclusionView::Exhausted(failure) => Err(failure),
    }
}

/// A hostname that the resolver gives is never empty, and neither is what
/// the caller shows in its place after a failure. The failure tells whether
/// the last strategy could not be started or ran in vain.
pub proof fn law_hostname_is_never_empty(
    platform: Platform,
    outcomes: Seq<RunOutcomeView>,
    conclusion: ConclusionView,
)
    requires
        ends_in(hostname_chain_view(platform), Validity::NonEmpty, outcomes, conclusion),
    ensures
        hostname_of(conclusion) matches Ok(name) ==> name.len() > 0,
        hostname_of(conclusion) matches Err(failure) ==> failure != Failure::NoStrategy && (
        failure == Failure::NotSpawned <==> outcomes.last() is ExecutionFailure),
        hostname_or_placeholder_of(hostname_of(conclusion)).len() > 0,
{
    reveal_strlit("Desconocido");
}

/// Builds the chain of the hostname resolver for `platform`.
pub fn hostname_chain(platform: Platform) -> (chain: Vec<Strategy>)
    ensures
        chain.deep_view() == hostname_chain_view(platform),
{
    let mut chain: Vec<Strategy> = Vec::new();
    chain.push(
        Strategy {
            name: "hostname".to_owned(),
            command: CommandLine::bare("hostname", platform),
            extraction: Extraction::Plain,
        },
    );
    chain.push(
        Strategy {
            name: "PowerShell".to_owned(),
            command: CommandLine::powershell("$env:COMPUTERNAME", platform),
            extraction: Extraction::Plain,
        },
    );
    assert(chain.deep_view() =~= hostname_chain_view(platform));
    chain
}

/// The caller's fallback: the resolved name, or `Desconocido` in place of
/// any failure.
pub fn hostname_or_placeholder(resolved: Result<String, Failure>) -> (shown: String)
    ensures
        shown@ == hostname_or_placeholder_of(
            match resolved {
                Ok(name) => Ok(name@),
                Err(failure) => Err(failure),
            },
        ),
{
    match resolved {
        Ok(name) => name,
        Err(_) => "Desconocido".to_owned(),
    }
}

} // verus!
