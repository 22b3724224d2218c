//! The connectivity prober: one ping for each of three well-known hosts, in
//! a fixed order, judged by [`Validity::Any`]. A single reply counts as
//! "the internet is reachable"; this is a liveness heuristic, no diagnosis.
//!
//! [`Validity::Any`]: crate::validity::Validity::Any

use crate::command::{
    hides_window, CommandLine, CommandLineView, Platform, RunOutcomeView, Strategy, StrategyView,
};
use crate::engine::{conclusion_of, law_first_success, verdict, Conclusion, ConclusionView};
use crate::text::{Extraction, ExtractionView};
use crate::validity::Validity;
use vstd::prelude::*;

verus! {

/// The hosts that are probed, in the order in which they are tried.
pub open spec fn probe_hosts_view() -> Seq<Seq<char>> {
    seq!["8.8.8.8"@, "1.1.1.1"@, "208.67.222.222"@]
}

/// One ping of `host`: a single packet, with a timeout of three seconds in
/// the platform's own unit.
pub open spec fn ping_view(platform: Platform, host: Seq<char>) -> StrategyView {
    StrategyView {
        name: host,
        command: CommandLineView {
            program: "ping"@,
            args: match platform {
                Platform::Windows => seq!["-n"@, "1"@, "-w"@, "3000"@, host],
                Platform::Other => seq!["-c"@, "1"@, "-W"@, "3"@, host],
            },
            hide_window: hides_window(platform),
        },
        extraction: ExtractionView::Plain,
    }
}

/// The chain that pings `hosts` in their order.
pub open spec fn ping_chain_view(platform: Platform, hosts: Seq<Seq<char>>) -> Seq<StrategyView> {
    Seq::new(hosts.len(), |i: int| ping_view(platform, hosts[i]))
}

/// Whether `outcome` is a reply: the ping ran and exited with success.
pub open spec fn replied(outcome: RunOutcomeView) -> bool {
    outcome matches RunOutcomeView::Completed(result) && result.exit_success
}

/// What a conclusion says of connectivity: reachable exactly when some host
/// replied.
pub open spec fn reachable_of(conclusion: ConclusionView) -> bool {
    conclusion is Resolved
}

/// The prober answers `true` exactly when at least one host replies, and the
/// host that settles it is the first one that does; it answers `false` only
/// when every host fails. `outcomes[i]` is what pinging host `i` gives.
pub proof fn law_reachable_iff_some_reply(
    platform: Platform,
    hosts: Seq<Seq<char>>,
    outcomes: Seq<RunOutcomeView>,
)
    requires
        hosts.len() <= outcomes.len(),
    ensures
        reachable_of(conclusion_of(ping_chain_view(platform, hosts), Validity::Any, outcomes))
            <==> exists|i: int| 0 <= i < hosts.len() && replied(#[trigger] outcomes[i]),
        conclusion_of(ping_chain_view(platform, hosts), Validity::Any, outcomes)
            matches ConclusionView::Resolved { by, value } ==> by < hosts.len() && replied(
            outcomes[by as int],
        ) && forall|i: int| 0 <= i < by ==> !replied(#[trigger] outcomes[i]),
{
    let chain = ping_chain_view(platform, hosts);
    law_first_success(chain, Validity::Any, outcomes);
    assert forall|i: int| 0 <= i < hosts.len() implies (verdict(
        chain[i],
        Validity::Any,
        #[trigger] outcomes[i],
    ) is Ok <==> replied(outcomes[i])) by {}
    match conclusion_of(chain, Validity::Any, outcomes) {
        ConclusionView::Resolved { by, value } => {
            assert(replied(outcomes[by as int]));
            assert forall|i: int| 0 <= i < by implies !replied(#[trigger] outcomes[i]) by {
                assert(verdict(chain[i], Validity::Any, outcomes[i]) is Err);
            }
        },
        ConclusionView::Exhausted(_) => {
            assert forall|i: int| 0 <= i < hosts.len() implies !replied(#[trigger] outcomes[i]) by {
                assert(verdict(chain[i], Validity::Any, outcomes[i]) is Err);
            }
        },
    }
}

/// The hosts that are probed: three public name servers.
pub fn probe_hosts() -> (hosts: Vec<String>)
    ensures
        hosts.deep_view() == probe_hosts_view(),
{
    let mut hosts: Vec<String> = Vec::new();
    hosts.push("8.8.8.8".to_owned());
    hosts.push("1.1.1.1".to_owned());
    hosts.push("208.67.222.222".to_owned());
    assert(hosts.deep_view() =~= probe_hosts_view());
    hosts
}

/// The strategy that pings `host` once.
pub fn ping_strategy(platform: Platform, host: &str) -> (strategy: Strategy)
    ensures
        strategy.deep_view() == ping_view(platform, host@),
{
    let mut args: Vec<String> = Vec::new();
    match platform {
        Platform::Windows => {
            args.push("-n".to_owned());
            args.push("1".to_owned());
            args.push("-w".to_owned());
            args.push("3000".to_owned());
            args.push(host.to_owned());
            assert(args.deep_view() =~= seq!["-n"@, "1"@, "-w"@, "3000"@, host@]);
        },
        Platform::Other => {
            args.push("-c".to_owned());
            args.push("1".to_owned());
            args.push("-W".to_owned());
            args.push("3".to_owned());
            args.push(host.to_owned());
            assert(args.deep_view() =~= seq!["-c"@, "1"@, "-W"@, "3"@, host@]);
        },
    }
    Strategy {
        name: host.to_owned(),
        command: CommandLine {
            program: "ping".to_owned(),
            args,
            hide_window: platform.hides_window(),
        },
        extraction: Extraction::Plain,
    }
}

/// The chain that pings each of `hosts`, in their order.
pub fn ping_chain(platform: Platform, hosts: &Vec<String>) -> (chain: Vec<Strategy>)
    ensures
        chain.deep_view() == ping_chain_view(platform, hosts.deep_view()),
{
    let mut chain: Vec<Strategy> = Vec::new();
    let mut i: usize = 0;
    while i < hosts.len()
        invariant
            i <= hosts.len(),
            chain.len() == i,
            forall|j: int|
                0 <= j < i ==> (#[trigger] chain[j]).deep_view() == ping_view(platform, hosts[j]@),
        decreases hosts.len() - i,
    {
        chain.push(ping_strategy(platform, hosts[i].as_str()));
        i = i + 1;
    }
    assert(chain.deep_view() =~= ping_chain_view(platform, hosts.deep_view()));
    chain
}

/// Whether `conclusion` says that the internet is reachable.
pub fn reachable(conclusion: &Conclusion) -> (b: bool)
    ensures
        b == reachable_of(conclusion@),
{
    conclusion.is_resolved()
}

} // verus!
