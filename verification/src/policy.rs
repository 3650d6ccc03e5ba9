//! The routing, firewall and address translation of a VPN server, as a list of commands.

use vstd::prelude::*;

use crate::commands::{
    arg_list, is_conditional, is_required, must_run, probed_step, required_step, run_unless,
    step_outcome, takes_effect, CommandStep, CommandStepView, ProgramRun, StepOutcome,
};
use crate::models::{ManagedClientRecord, ManagedClientRecordView, ServerConfig, ServerConfigView};
use crate::text::views;

verus! {

/// `iptables` rules that drop what goes to each destination.
pub open spec fn drop_rules(destinations: Seq<Seq<char>>) -> Seq<CommandStepView> {
    Seq::new(
        destinations.len(),
        |i: int|
            must_run(
                "iptables"@,
                seq![
                    "-t"@,
                    "filter"@,
                    "-A"@,
                    "NTZ-FWD"@,
                    "-d"@,
                    destinations[i],
                    "-j"@,
                    "DROP"@,
                ],
            ),
    )
}

/// `iptables` rules that give each enabled client with an egress address that address.
pub open spec fn client_egress_rules(clients: Seq<ManagedClientRecordView>, wan: Seq<char>) -> Seq<
    CommandStepView,
>
    decreases clients.len(),
{
    if clients.len() == 0 {
        Seq::empty()
    } else {
        let before = client_egress_rules(clients.drop_last(), wan);
        let client = clients.last();
        match client.egress_ip {
            Some(egress_ip) => if client.enabled {
                before.push(
                    must_run(
                        "iptables"@,
                        seq![
                            "-t"@,
                            "nat"@,
                            "-A"@,
                            "NTZ-SNAT"@,
                            "-s"@,
                            client.assigned_ip + "/32"@,
                            "-o"@,
                            wan,
                            "-j"@,
                            "SNAT"@,
                            "--to-source"@,
                            egress_ip,
                        ],
                    ),
                )
            } else {
                before
            },
            None => before,
        }
    }
}

/// Creates a chain unless it exists.
pub open spec fn chain_step(table: Seq<char>, chain: Seq<char>) -> CommandStepView {
    run_unless("iptables"@, seq!["-t"@, table, "-L"@, chain], seq!["-t"@, table, "-N"@, chain])
}

/// Adds a jump from one chain to another unless it exists.
pub open spec fn jump_step(
    table: Seq<char>,
    source: Seq<char>,
    target: Seq<char>,
) -> CommandStepView {
    run_unless(
        "iptables"@,
        seq!["-t"@, table, "-C"@, source, "-j"@, target],
        seq!["-t"@, table, "-A"@, source, "-j"@, target],
    )
}

/// Empties a chain.
pub open spec fn flush_step(table: Seq<char>, chain: Seq<char>) -> CommandStepView {
    must_run("iptables"@, seq!["-t"@, table, "-F"@, chain])
}

/// Lets answers back in unless that is allowed already.
pub open spec fn established_step(tun: Seq<char>, wan: Seq<char>) -> CommandStepView {
    run_unless(
        "iptables"@,
        seq![
            "-C"@,
            "FORWARD"@,
            "-i"@,
            wan,
            "-o"@,
            tun,
            "-m"@,
            "conntrack"@,
            "--ctstate"@,
            "RELATED,ESTABLISHED"@,
            "-j"@,
            "ACCEPT"@,
        ],
        seq![
            "-A"@,
            "FORWARD"@,
            "-i"@,
            wan,
            "-o"@,
            tun,
            "-m"@,
            "conntrack"@,
            "--ctstate"@,
            "RELATED,ESTABLISHED"@,
            "-j"@,
            "ACCEPT"@,
        ],
    )
}

/// Lets clients out through the outside interface.
pub open spec fn accept_step(tun: Seq<char>, wan: Seq<char>) -> CommandStepView {
    must_run(
        "iptables"@,
        seq!["-t"@, "filter"@, "-A"@, "NTZ-FWD"@, "-i"@, tun, "-o"@, wan, "-j"@, "ACCEPT"@],
    )
}

/// The source address of all other clients: the first egress address, else that of the
/// interface.
pub open spec fn default_egress_step(
    cidr: Seq<char>,
    egress_ips: Seq<Seq<char>>,
    wan: Seq<char>,
) -> CommandStepView {
    if egress_ips.len() > 0 {
        must_run(
            "iptables"@,
            seq![
                "-t"@,
                "nat"@,
                "-A"@,
                "NTZ-SNAT"@,
                "-s"@,
                cidr,
                "-o"@,
                wan,
                "-j"@,
                "SNAT"@,
                "--to-source"@,
                egress_ips[0],
            ],
        )
    } else {
        must_run(
            "iptables"@,
            seq!["-t"@, "nat"@, "-A"@, "NTZ-SNAT"@, "-s"@, cidr, "-o"@, wan, "-j"@, "MASQUERADE"@],
        )
    }
}

/// The commands that bring up the interface and open the forwarding chain.
pub open spec fn opening_steps(config: ServerConfigView) -> Seq<CommandStepView> {
    seq![
        must_run("ip"@, seq!["link"@, "set"@, "dev"@, config.tun_name, "up"@]),
        must_run(
            "ip"@,
            seq!["route"@, "replace"@, config.client_cidr, "dev"@, config.tun_name],
        ),
        must_run("sysctl"@, seq!["-w"@, "net.ipv4.ip_forward=1"@]),
        chain_step("filter"@, "NTZ-FWD"@),
        jump_step("filter"@, "FORWARD"@, "NTZ-FWD"@),
        flush_step("filter"@, "NTZ-FWD"@),
    ]
}

/// The commands that let clients out, and open the address translation chain.
pub open spec fn forwarding_steps(
    config: ServerConfigView,
    wan: Seq<char>,
) -> Seq<CommandStepView> {
    seq![
        accept_step(config.tun_name, wan),
        established_step(config.tun_name, wan),
        chain_step("nat"@, "NTZ-SNAT"@),
        jump_step("nat"@, "POSTROUTING"@, "NTZ-SNAT"@),
        flush_step("nat"@, "NTZ-SNAT"@),
    ]
}

/// All commands, in order. A server without address translation needs none; one with it needs an
/// outside interface.
pub open spec fn policy_steps(config: ServerConfigView) -> Result<
    Seq<CommandStepView>,
    Seq<char>,
> {
    if !config.setup_nat {
        Ok(Seq::empty())
    } else {
        match config.nat_iface {
            Some(wan) => Ok(
                opening_steps(config) + drop_rules(config.firewall.protected_destinations)
                    + drop_rules(config.firewall.blocked_destinations) + forwarding_steps(
                    config,
                    wan,
                ) + client_egress_rules(config.allowed_clients, wan) + seq![
                    default_egress_step(config.client_cidr, config.egress_ips, wan),
                ],
            ),
            None => Err("NAT interface is required when setup_nat is enabled"@),
        }
    }
}

/// Creates a chain unless it exists.
fn ensure_chain(table: &str, chain: &str) -> (step: CommandStep)
    ensures
        step@ == chain_step(table@, chain@),
{
    let probe = arg_list(["-t", table, "-L", chain]);
    let args = arg_list(["-t", table, "-N", chain]);
    assert(views(probe@) =~= seq!["-t"@, table@, "-L"@, chain@]);
    assert(views(args@) =~= seq!["-t"@, table@, "-N"@, chain@]);
    probed_step("iptables", probe, args)
}

/// Adds a jump from one chain to another unless it exists.
fn ensure_jump(table: &str, source_chain: &str, target_chain: &str) -> (step: CommandStep)
    ensures
        step@ == jump_step(table@, source_chain@, target_chain@),
{
    let probe = arg_list(["-t", table, "-C", source_chain, "-j", target_chain]);
    let args = arg_list(["-t", table, "-A", source_chain, "-j", target_chain]);
    assert(views(probe@) =~= seq!["-t"@, table@, "-C"@, source_chain@, "-j"@, target_chain@]);
    assert(views(args@) =~= seq!["-t"@, table@, "-A"@, source_chain@, "-j"@, target_chain@]);
    probed_step("iptables", probe, args)
}

/// Empties a chain.
fn flush_chain(table: &str, chain: &str) -> (step: CommandStep)
    ensures
        step@ == flush_step(table@, chain@),
{
    let args = arg_list(["-t", table, "-F", chain]);
    assert(views(args@) =~= seq!["-t"@, table@, "-F"@, chain@]);
    required_step("iptables", args)
}

/// Lets answers back in unless that is allowed already.
fn ensure_established_rule(tun_name: &str, wan_iface: &str) -> (step: CommandStep)
    ensures
        step@ == established_step(tun_name@, wan_iface@),
{
    let probe = arg_list(
        [
            "-C",
            "FORWARD",
            "-i",
            wan_iface,
            "-o",
            tun_name,
            "-m",
            "conntrack",
            "--ctstate",
            "RELATED,ESTABLISHED",
            "-j",
            "ACCEPT",
        ],
    );
    let args = arg_list(
        [
            "-A",
            "FORWARD",
            "-i",
            wan_iface,
            "-o",
            tun_name,
            "-m",
            "conntrack",
            "--ctstate",
            "RELATED,ESTABLISHED",
            "-j",
            "ACCEPT",
        ],
    );
    let step = probed_step("iptables", probe, args);
    assert(step@.probe->Some_0 =~= established_step(tun_name@, wan_iface@).probe->Some_0);
    assert(step@.args =~= established_step(tun_name@, wan_iface@).args);
    step
}

/// Appends a rule for each destination that drops what goes there.
fn add_drop_rules(steps: &mut Vec<CommandStep>, destinations: &Vec<String>)
    ensures
        views(final(steps)@) == views(old(steps)@) + drop_rules(views(destinations@)),
{
    let n: usize = destinations.len();
    let ghost rules = drop_rules(views(destinations@));
    assert(views(steps@) =~= views(old(steps)@) + rules.take(0));
    for i in 0..n
        invariant
            n == destinations@.len(),
            rules == drop_rules(views(destinations@)),
            views(steps@) == views(old(steps)@) + rules.take(i as int),
    {
        let args = arg_list(
            ["-t", "filter", "-A", "NTZ-FWD", "-d", destinations[i].as_str(), "-j", "DROP"],
        );
        let step = required_step("iptables", args);
        assert(step@.args =~= rules[i as int].args);
        assert(step@ == rules[i as int]);
        let ghost before = views(steps@);
        steps.push(step);
        assert(views(steps@) =~= before.push(rules[i as int]));
        assert(rules.take(i + 1) =~= rules.take(i as int).push(rules[i as int]));
    }
    assert(rules.take(n as int) =~= rules);
}

/// Appends a rule for each enabled client with an egress address.
fn add_client_egress_rules(
    steps: &mut Vec<CommandStep>,
    clients: &Vec<ManagedClientRecord>,
    wan_iface: &str,
)
    ensures
        views(final(steps)@) == views(old(steps)@) + client_egress_rules(
            views(clients@),
            wan_iface@,
        ),
{
    let n: usize = clients.len();
    let ghost all = views(clients@);
    assert(views(steps@) =~= views(old(steps)@) + client_egress_rules(all.take(0), wan_iface@));
    for i in 0..n
        invariant
            n == clients@.len(),
            all == views(clients@),
            views(steps@) == views(old(steps)@) + client_egress_rules(
                all.take(i as int),
                wan_iface@,
            ),
    {
        let client = &clients[i];
        let ghost longer = client_egress_rules(all.take(i + 1), wan_iface@);
        assert(all.take(i + 1).drop_last() =~= all.take(i as int));
        assert(all.take(i + 1).last() == client@);
        if client.enabled {
            if let Some(egress_ip) = &client.egress_ip {
                let mut source = client.assigned_ip.clone();
                source.append("/32");
                let args = arg_list(
                    [
                        "-t",
                        "nat",
                        "-A",
                        "NTZ-SNAT",
                        "-s",
                        source.as_str(),
                        "-o",
                        wan_iface,
                        "-j",
                        "SNAT",
                        "--to-source",
                        egress_ip.as_str(),
                    ],
                );
                let step = required_step("iptables", args);
                assert(step@.args =~= longer.last().args);
                assert(step@ == longer.last());
                let ghost before = views(steps@);
                steps.push(step);
                assert(views(steps@) =~= before.push(longer.last()));
            }
        }
        assert(views(steps@) =~= views(old(steps)@) + longer);
    }
    assert(all.take(n as int) =~= all);
}

/// The commands that bring up the interface and open the forwarding chain.
fn opening_commands(config: &ServerConfig) -> (steps: Vec<CommandStep>)
    ensures
        views(steps@) == opening_steps(config@),
{
    let link = required_step(
        "ip",
        arg_list(["link", "set", "dev", config.tun_name.as_str(), "up"]),
    );
    let route = required_step(
        "ip",
        arg_list(
            [
                "route",
                "replace",
                config.client_cidr.as_str(),
                "dev",
                config.tun_name.as_str(),
            ],
        ),
    );
    let forward = required_step("sysctl", arg_list(["-w", "net.ipv4.ip_forward=1"]));
    let ghost expected = opening_steps(config@);
    assert(link@.args =~= expected[0].args);
    assert(route@.args =~= expected[1].args);
    assert(forward@.args =~= expected[2].args);
    let mut steps: Vec<CommandStep> = Vec::new();
    steps.push(link);
    steps.push(route);
    steps.push(forward);
    steps.push(ensure_chain("filter", "NTZ-FWD"));
    steps.push(ensure_jump("filter", "FORWARD", "NTZ-FWD"));
    steps.push(flush_chain("filter", "NTZ-FWD"));
    assert(views(steps@) =~= expected);
    steps
}

/// Appends the commands that let clients out, and open the address translation chain.
fn add_forwarding_commands(steps: &mut Vec<CommandStep>, config: &ServerConfig, wan_iface: &str)
    ensures
        views(final(steps)@) == views(old(steps)@) + forwarding_steps(config@, wan_iface@),
{
    let args = arg_list(
        [
            "-t",
            "filter",
            "-A",
            "NTZ-FWD",
            "-i",
            config.tun_name.as_str(),
            "-o",
            wan_iface,
            "-j",
            "ACCEPT",
        ],
    );
    let accept = required_step("iptables", args);
    let ghost expected = forwarding_steps(config@, wan_iface@);
    assert(accept@.args =~= expected[0].args);
    steps.push(accept);
    steps.push(ensure_established_rule(config.tun_name.as_str(), wan_iface));
    steps.push(ensure_chain("nat", "NTZ-SNAT"));
    steps.push(ensure_jump("nat", "POSTROUTING", "NTZ-SNAT"));
    steps.push(flush_chain("nat", "NTZ-SNAT"));
    assert(views(steps@) =~= views(old(steps)@) + expected);
}

/// The source address of all clients without one of their own.
fn default_egress_command(config: &ServerConfig, wan_iface: &str) -> (step: CommandStep)
    ensures
        step@ == default_egress_step(config@.client_cidr, config@.egress_ips, wan_iface@),
{
    let ghost expected = default_egress_step(config@.client_cidr, config@.egress_ips, wan_iface@);
    if config.egress_ips.len() > 0 {
        let args = arg_list(
            [
                "-t",
                "nat",
                "-A",
                "NTZ-SNAT",
                "-s",
                config.client_cidr.as_str(),
                "-o",
                wan_iface,
                "-j",
                "SNAT",
                "--to-source",
                config.egress_ips[0].as_str(),
            ],
        );
        let step = required_step("iptables", args);
        assert(step@.args =~= expected.args);
        step
    } else {
        let args = arg_list(
            [
                "-t",
                "nat",
                "-A",
                "NTZ-SNAT",
                "-s",
                config.client_cidr.as_str(),
                "-o",
                wan_iface,
                "-j",
                "MASQUERADE",
            ],
        );
        let step = required_step("iptables", args);
        assert(step@.args =~= expected.args);
        step
    }
}

/// The commands that bring the system in line with a configuration.
pub fn reconcile_server_policy(config: &ServerConfig) -> (r: Result<
    Vec<CommandStep>,
    &'static str,
>)
    ensures
        match r {
            Ok(steps) => policy_steps(config@) == Ok::<Seq<CommandStepView>, Seq<char>>(
                views(steps@),
            ),
            Err(message) => policy_steps(config@) == Err::<Seq<CommandStepView>, Seq<char>>(
                message@,
            ),
        },
{
    if !config.setup_nat {
        let steps: Vec<CommandStep> = Vec::new();
        assert(views(steps@) =~= Seq::<CommandStepView>::empty());
        return Ok(steps);
    }
    match &config.nat_iface {
        Some(wan_iface) => {
            let mut steps = opening_commands(config);
            add_drop_rules(&mut steps, &config.firewall.protected_destinations);
            add_drop_rules(&mut steps, &config.firewall.blocked_destinations);
            add_forwarding_commands(&mut steps, config, wan_iface.as_str());
            add_client_egress_rules(&mut steps, &config.allowed_clients, wan_iface.as_str());
            let step = default_egress_command(config, wan_iface.as_str());
            let ghost before = views(steps@);
            let ghost last = step@;
            steps.push(step);
            assert(views(steps@) =~= before + seq![last]);
            Ok(steps)
        },
        None => Err("NAT interface is required when setup_nat is enabled"),
    }
}

/// The rule that lets answers back in.
pub open spec fn established_rule(tun: Seq<char>, wan: Seq<char>) -> Seq<Seq<char>> {
    seq![
        "-i"@,
        wan,
        "-o"@,
        tun,
        "-m"@,
        "conntrack"@,
        "--ctstate"@,
        "RELATED,ESTABLISHED"@,
        "-j"@,
        "ACCEPT"@,
    ]
}

/// A step that looks for a rule in a chain and appends it where it is missing. `table` holds the
/// arguments that select the table, if any.
pub open spec fn append_unless_present(
    table: Seq<Seq<char>>,
    chain: Seq<char>,
    rule: Seq<Seq<char>>,
) -> CommandStepView {
    run_unless("iptables"@, table + seq!["-C"@, chain] + rule, table + seq!["-A"@, chain] + rule)
}

/// Whether a probe that looks for a rule in a chain answers truly, where it answers at all: it
/// succeeds exactly where the rule is there.
pub open spec fn answers_truly(
    probe: ProgramRun,
    chain: Seq<Seq<Seq<char>>>,
    rule: Seq<Seq<char>>,
) -> bool {
    match probe {
        ProgramRun::NotStarted => true,
        ProgramRun::Failed => !chain.contains(rule),
        ProgramRun::Succeeded => chain.contains(rule),
    }
}

/// The rules of a chain after a step that appends one: it is appended where the command is run and
/// succeeds.
pub open spec fn chain_after(
    chain: Seq<Seq<Seq<char>>>,
    rule: Seq<Seq<char>>,
    step: CommandStepView,
    probe: ProgramRun,
    command: ProgramRun,
) -> Seq<Seq<Seq<char>>> {
    if takes_effect(step, probe, command) {
        chain.push(rule)
    } else {
        chain
    }
}

/// The rules of a chain after runs of a step that appends one, each given by how its probe and its
/// command go.
pub open spec fn chain_after_runs(
    chain: Seq<Seq<Seq<char>>>,
    rule: Seq<Seq<char>>,
    step: CommandStepView,
    runs: Seq<(ProgramRun, ProgramRun)>,
) -> Seq<Seq<Seq<char>>>
    decreases runs.len(),
{
    if runs.len() == 0 {
        chain
    } else {
        chain_after(
            chain_after_runs(chain, rule, step, runs.drop_last()),
            rule,
            step,
            runs.last().0,
            runs.last().1,
        )
    }
}

/// Whether the probe of each run answers truly of the chain that it finds.
pub open spec fn all_answer_truly(
    chain: Seq<Seq<Seq<char>>>,
    rule: Seq<Seq<char>>,
    step: CommandStepView,
    runs: Seq<(ProgramRun, ProgramRun)>,
) -> bool {
    forall|n: int|
        0 <= n < runs.len() ==> answers_truly(
            (#[trigger] runs[n]).0,
            chain_after_runs(chain, rule, step, runs.take(n)),
            rule,
        )
}

/// Whether runs of a step append a rule at most once: not where it is there, and once at most
/// where it is missing. Where the last run ends well the rule is in the chain; where its probe
/// cannot be started, it ends with that failure, and appends nothing.
pub open spec fn appends_at_most_once(
    chain: Seq<Seq<Seq<char>>>,
    rule: Seq<Seq<char>>,
    step: CommandStepView,
    runs: Seq<(ProgramRun, ProgramRun)>,
) -> bool {
    let after = chain_after_runs(chain, rule, step, runs);
    &&& after == if chain.contains(rule) {
        chain
    } else if after.contains(rule) {
        chain.push(rule)
    } else {
        chain
    }
    &&& runs.len() > 0 ==> {
        let outcome = step_outcome(step, runs.last().0, runs.last().1);
        &&& outcome == StepOutcome::Done ==> after.contains(rule)
        &&& runs.last().0 == ProgramRun::NotStarted ==> outcome == StepOutcome::StartFailed
            && after == chain_after_runs(chain, rule, step, runs.drop_last())
    }
}

/// A step that appends a rule where it is missing appends it at most once.
proof fn lemma_appends_at_most_once(
    chain: Seq<Seq<Seq<char>>>,
    rule: Seq<Seq<char>>,
    step: CommandStepView,
    runs: Seq<(ProgramRun, ProgramRun)>,
)
    requires
        step.probe is Some,
        step.required,
        all_answer_truly(chain, rule, step, runs),
    ensures
        appends_at_most_once(chain, rule, step, runs),
    decreases runs.len(),
{
    if runs.len() > 0 {
        let fewer = runs.drop_last();
        let before = chain_after_runs(chain, rule, step, fewer);
        assert forall|n: int| 0 <= n < fewer.len() implies answers_truly(
            (#[trigger] fewer[n]).0,
            chain_after_runs(chain, rule, step, fewer.take(n)),
            rule,
        ) by {
            assert(fewer[n] == runs[n]);
            assert(fewer.take(n) =~= runs.take(n));
        }
        lemma_appends_at_most_once(chain, rule, step, fewer);
        assert(runs.take(runs.len() - 1) =~= fewer);
        assert(answers_truly(runs[runs.len() - 1].0, before, rule));
        assert(before.push(rule).last() == rule);
    }
}

/// The rule that lets answers back in is looked for and, where it is missing, appended: however
/// often the step is run, it appends the rule at most once, as long as the probes answer truly.
pub proof fn law_established_rule_is_appended_once(
    tun: Seq<char>,
    wan: Seq<char>,
    chain: Seq<Seq<Seq<char>>>,
    runs: Seq<(ProgramRun, ProgramRun)>,
)
    requires
        all_answer_truly(chain, established_rule(tun, wan), established_step(tun, wan), runs),
    ensures
        established_step(tun, wan) == append_unless_present(
            Seq::empty(),
            "FORWARD"@,
            established_rule(tun, wan),
        ),
        appends_at_most_once(chain, established_rule(tun, wan), established_step(tun, wan), runs),
{
    let step = established_step(tun, wan);
    let expected = append_unless_present(Seq::empty(), "FORWARD"@, established_rule(tun, wan));
    assert(step.probe->Some_0 =~= expected.probe->Some_0);
    assert(step.args =~= expected.args);
    lemma_appends_at_most_once(chain, established_rule(tun, wan), step, runs);
}

/// The jump from one chain to another is looked for and, where it is missing, appended: however
/// often the step is run, it appends the jump at most once, as long as the probes answer truly.
pub proof fn law_jump_is_appended_once(
    table: Seq<char>,
    source_chain: Seq<char>,
    target_chain: Seq<char>,
    chain: Seq<Seq<Seq<char>>>,
    runs: Seq<(ProgramRun, ProgramRun)>,
)
    requires
        all_answer_truly(
            chain,
            seq!["-j"@, target_chain],
            jump_step(table, source_chain, target_chain),
            runs,
        ),
    ensures
        jump_step(table, source_chain, target_chain) == append_unless_present(
            seq!["-t"@, table],
            source_chain,
            seq!["-j"@, target_chain],
        ),
        appends_at_most_once(
            chain,
            seq!["-j"@, target_chain],
            jump_step(table, source_chain, target_chain),
            runs,
        ),
{
    let step = jump_step(table, source_chain, target_chain);
    let rule = seq!["-j"@, target_chain];
    let expected = append_unless_present(seq!["-t"@, table], source_chain, rule);
    assert(step.probe->Some_0 =~= expected.probe->Some_0);
    assert(step.args =~= expected.args);
    lemma_appends_at_most_once(chain, rule, step, runs);
}

/// Every protected and every blocked destination is dropped by a rule that stands before the one
/// that lets clients out, behind the emptying of the chain.
pub proof fn law_destinations_are_dropped_first(config: ServerConfigView, destination: Seq<char>)
    requires
        config.setup_nat,
        config.nat_iface is Some,
        config.firewall.protected_destinations.contains(destination)
            || config.firewall.blocked_destinations.contains(destination),
    ensures
        policy_steps(config) matches Ok(steps) && exists|i: int, j: int, k: int|
            0 <= k < i < j < steps.len() && #[trigger] steps[k] == flush_step(
                "filter"@,
                "NTZ-FWD"@,
            ) && #[trigger] steps[i] == drop_rules(seq![destination])[0] && #[trigger] steps[j]
                == accept_step(config.tun_name, config.nat_iface->Some_0),
{
    let wan = config.nat_iface->Some_0;
    let steps = policy_steps(config)->Ok_0;
    let protected = config.firewall.protected_destinations;
    let blocked = config.firewall.blocked_destinations;
    let j = 6 + protected.len() + blocked.len();
    assert(steps[5] == flush_step("filter"@, "NTZ-FWD"@));
    assert(steps[j as int] == accept_step(config.tun_name, wan));
    let rule = drop_rules(seq![destination])[0];
    if protected.contains(destination) {
        let n = choose|n: int| 0 <= n < protected.len() && protected[n] == destination;
        assert(steps[6 + n] == drop_rules(protected)[n]);
        assert(steps[6 + n] == rule);
    } else {
        let n = choose|n: int| 0 <= n < blocked.len() && blocked[n] == destination;
        assert(steps[6 + protected.len() + n] == drop_rules(blocked)[n]);
        assert(steps[6 + protected.len() + n] == rule);
    }
}

/// Where the egress rule of an enabled client stands among the egress rules.
proof fn lemma_client_egress_rule(clients: Seq<ManagedClientRecordView>, wan: Seq<char>, n: int)
    requires
        0 <= n < clients.len(),
        clients[n].enabled,
        clients[n].egress_ip is Some,
    ensures
        exists|i: int|
            0 <= i < client_egress_rules(clients, wan).len() && #[trigger] client_egress_rules(
                clients,
                wan,
            )[i] == client_egress_rules(seq![clients[n]], wan)[0],
    decreases clients.len(),
{
    let rules = client_egress_rules(clients, wan);
    let before = client_egress_rules(clients.drop_last(), wan);
    let one = seq![clients[n]];
    assert(one.drop_last() =~= Seq::<ManagedClientRecordView>::empty());
    assert(client_egress_rules(one.drop_last(), wan) =~= Seq::<CommandStepView>::empty());
    if n == clients.len() - 1 {
        assert(rules[before.len() as int] == client_egress_rules(one, wan)[0]);
    } else {
        lemma_client_egress_rule(clients.drop_last(), wan, n);
        let i = choose|i: int|
            0 <= i < before.len() && #[trigger] before[i] == client_egress_rules(one, wan)[0];
        assert(rules[i] == before[i]);
    }
}

/// The egress address of an enabled client takes effect before the one for everybody: its rule
/// stands in the list, and the rule for everybody is the last.
pub proof fn law_client_egress_precedes_default(config: ServerConfigView, n: int)
    requires
        config.setup_nat,
        config.nat_iface is Some,
        0 <= n < config.allowed_clients.len(),
        config.allowed_clients[n].enabled,
        config.allowed_clients[n].egress_ip is Some,
    ensures
        policy_steps(config) matches Ok(steps) && steps.last() == default_egress_step(
            config.client_cidr,
            config.egress_ips,
            config.nat_iface->Some_0,
        ) && exists|i: int|
            0 <= i < steps.len() - 1 && #[trigger] steps[i] == client_egress_rules(
                seq![config.allowed_clients[n]],
                config.nat_iface->Some_0,
            )[0],
{
    let wan = config.nat_iface->Some_0;
    let steps = policy_steps(config)->Ok_0;
    let rules = client_egress_rules(config.allowed_clients, wan);
    lemma_client_egress_rule(config.allowed_clients, wan, n);
    let i = choose|i: int|
        0 <= i < rules.len() && #[trigger] rules[i] == client_egress_rules(
            seq![config.allowed_clients[n]],
            wan,
        )[0];
    let base = 11 + config.firewall.protected_destinations.len()
        + config.firewall.blocked_destinations.len();
    assert(steps[base + i] == rules[i]);
}

/// The commands that a server with address translation runs, in order: it brings up the tunnel
/// device, routes the client network to it and switches forwarding on; it makes its forwarding
/// chain, jumps to it and empties it; it drops what goes to protected and to blocked destinations;
/// it lets clients out and answers back in; it makes its translation chain, jumps to it and empties
/// it; the rest are the rules of that chain, and the last one is for the whole client network.
pub proof fn law_policy_commands(config: ServerConfigView, wan: Seq<char>, i: int)
    requires
        config.setup_nat,
        config.nat_iface == Some(wan),
    ensures
        ({
            let p = config.firewall.protected_destinations.len() as int;
            let b = config.firewall.blocked_destinations.len() as int;
            &&& policy_steps(config) matches Ok(steps)
            &&& steps.len() >= p + b + 12
            &&& is_required(
                steps[0],
                "ip"@,
                seq!["link"@, "set"@, "dev"@, config.tun_name, "up"@],
            )
            &&& is_required(
                steps[1],
                "ip"@,
                seq!["route"@, "replace"@, config.client_cidr, "dev"@, config.tun_name],
            )
            &&& is_required(steps[2], "sysctl"@, seq!["-w"@, "net.ipv4.ip_forward=1"@])
            &&& is_conditional(
                steps[3],
                "iptables"@,
                seq!["-t"@, "filter"@, "-L"@, "NTZ-FWD"@],
                seq!["-t"@, "filter"@, "-N"@, "NTZ-FWD"@],
            )
            &&& is_conditional(
                steps[4],
                "iptables"@,
                seq!["-t"@, "filter"@, "-C"@, "FORWARD"@, "-j"@, "NTZ-FWD"@],
                seq!["-t"@, "filter"@, "-A"@, "FORWARD"@, "-j"@, "NTZ-FWD"@],
            )
            &&& is_required(
                steps[5],
                "iptables"@,
                seq!["-t"@, "filter"@, "-F"@, "NTZ-FWD"@],
            )
            &&& 0 <= i < p ==> is_required(
                steps[6 + i],
                "iptables"@,
                seq![
                    "-t"@,
                    "filter"@,
                    "-A"@,
                    "NTZ-FWD"@,
                    "-d"@,
                    config.firewall.protected_destinations[i],
                    "-j"@,
                    "DROP"@,
                ],
            )
            &&& 0 <= i < b ==> is_required(
                steps[6 + p + i],
                "iptables"@,
                seq![
                    "-t"@,
                    "filter"@,
                    "-A"@,
                    "NTZ-FWD"@,
                    "-d"@,
                    config.firewall.blocked_destinations[i],
                    "-j"@,
                    "DROP"@,
                ],
            )
            &&& is_required(
                steps[6 + p + b],
                "iptables"@,
                seq![
                    "-t"@,
                    "filter"@,
                    "-A"@,
                    "NTZ-FWD"@,
                    "-i"@,
                    config.tun_name,
                    "-o"@,
                    wan,
                    "-j"@,
                    "ACCEPT"@,
                ],
            )
            &&& is_conditional(
                steps[7 + p + b],
                "iptables"@,
                seq![
                    "-C"@,
                    "FORWARD"@,
                    "-i"@,
                    wan,
                    "-o"@,
                    config.tun_name,
                    "-m"@,
                    "conntrack"@,
                    "--ctstate"@,
                    "RELATED,ESTABLISHED"@,
                    "-j"@,
                    "ACCEPT"@,
                ],
                seq![
                    "-A"@,
                    "FORWARD"@,
                    "-i"@,
                    wan,
                    "-o"@,
                    config.tun_name,
                    "-m"@,
                    "conntrack"@,
                    "--ctstate"@,
                    "RELATED,ESTABLISHED"@,
                    "-j"@,
                    "ACCEPT"@,
                ],
            )
            &&& is_conditional(
                steps[8 + p + b],
                "iptables"@,
                seq!["-t"@, "nat"@, "-L"@, "NTZ-SNAT"@],
                seq!["-t"@, "nat"@, "-N"@, "NTZ-SNAT"@],
            )
            &&& is_conditional(
                steps[9 + p + b],
                "iptables"@,
                seq!["-t"@, "nat"@, "-C"@, "POSTROUTING"@, "-j"@, "NTZ-SNAT"@],
                seq!["-t"@, "nat"@, "-A"@, "POSTROUTING"@, "-j"@, "NTZ-SNAT"@],
            )
            &&& is_required(
                steps[10 + p + b],
                "iptables"@,
                seq!["-t"@, "nat"@, "-F"@, "NTZ-SNAT"@],
            )
            &&& config.egress_ips.len() > 0 ==> is_required(
                steps.last(),
                "iptables"@,
                seq![
                    "-t"@,
                    "nat"@,
                    "-A"@,
                    "NTZ-SNAT"@,
                    "-s"@,
                    config.client_cidr,
                    "-o"@,
                    wan,
                    "-j"@,
                    "SNAT"@,
                    "--to-source"@,
                    config.egress_ips[0],
                ],
            )
            &&& config.egress_ips.len() == 0 ==> is_required(
                steps.last(),
                "iptables"@,
                seq![
                    "-t"@,
                    "nat"@,
                    "-A"@,
                    "NTZ-SNAT"@,
                    "-s"@,
                    config.client_cidr,
                    "-o"@,
                    wan,
                    "-j"@,
                    "MASQUERADE"@,
                ],
            )
        }),
{
    let p = config.firewall.protected_destinations.len() as int;
    let b = config.firewall.blocked_destinations.len() as int;
    let steps = policy_steps(config)->Ok_0;
    let open = opening_steps(config);
    let forward = forwarding_steps(config, wan);
    let drop_protected = drop_rules(config.firewall.protected_destinations);
    let drop_blocked = drop_rules(config.firewall.blocked_destinations);
    assert(steps[0] == open[0]);
    assert(steps[1] == open[1]);
    assert(steps[2] == open[2]);
    assert(steps[3] == open[3]);
    assert(steps[4] == open[4]);
    assert(steps[5] == open[5]);
    if 0 <= i < p {
        assert(steps[6 + i] == drop_protected[i]);
    }
    if 0 <= i < b {
        assert(steps[6 + p + i] == drop_blocked[i]);
    }
    assert(steps[6 + p + b] == forward[0]);
    assert(steps[7 + p + b] == forward[1]);
    assert(steps[8 + p + b] == forward[2]);
    assert(steps[9 + p + b] == forward[3]);
    assert(steps[10 + p + b] == forward[4]);
    assert(steps.last() == default_egress_step(config.client_cidr, config.egress_ips, wan));
}

/// A server without address translation runs nothing, and one with it needs an outside interface.
pub proof fn law_policy_needs_an_interface(config: ServerConfigView)
    ensures
        !config.setup_nat ==> policy_steps(config) == Ok::<Seq<CommandStepView>, Seq<char>>(
            Seq::empty(),
        ),
        config.setup_nat && config.nat_iface is None ==> policy_steps(config) == Err::<
            Seq<CommandStepView>,
            Seq<char>,
        >("NAT interface is required when setup_nat is enabled"@),
{
}

/// The arguments that give a client an egress address.
pub open spec fn egress_args(
    assigned_ip: Seq<char>,
    wan: Seq<char>,
    egress_ip: Seq<char>,
) -> Seq<Seq<char>> {
    seq![
        "-t"@,
        "nat"@,
        "-A"@,
        "NTZ-SNAT"@,
        "-s"@,
        assigned_ip + "/32"@,
        "-o"@,
        wan,
        "-j"@,
        "SNAT"@,
        "--to-source"@,
        egress_ip,
    ]
}

/// An enabled client with an egress address gets one rule more, which gives its tunnel address that
/// egress address; a disabled client, and one without, gets none.
pub proof fn law_client_egress_rules(
    clients: Seq<ManagedClientRecordView>,
    client: ManagedClientRecordView,
    wan: Seq<char>,
)
    ensures
        client_egress_rules(Seq::empty(), wan).len() == 0,
        client.enabled && client.egress_ip is Some ==> ({
            let rules = client_egress_rules(clients.push(client), wan);
            &&& rules.len() == client_egress_rules(clients, wan).len() + 1
            &&& rules.drop_last() == client_egress_rules(clients, wan)
            &&& is_required(
                rules.last(),
                "iptables"@,
                egress_args(client.assigned_ip, wan, client.egress_ip->Some_0),
            )
        }),
        !client.enabled || client.egress_ip is None ==> client_egress_rules(
            clients.push(client),
            wan,
        ) == client_egress_rules(clients, wan),
{
    assert(clients.push(client).drop_last() =~= clients);
    if client.enabled && client.egress_ip is Some {
        assert(client_egress_rules(clients.push(client), wan).drop_last() =~= client_egress_rules(
            clients,
            wan,
        ));
    }
}

/// The rules of clients stand between the emptying of the translation chain and the rule for the
/// whole client network, in the order of the clients.
pub proof fn law_egress_rules_have_their_place(config: ServerConfigView, wan: Seq<char>, i: int)
    requires
        config.setup_nat,
        config.nat_iface == Some(wan),
        0 <= i < client_egress_rules(config.allowed_clients, wan).len(),
    ensures
        ({
            let base = 11 + config.firewall.protected_destinations.len()
                + config.firewall.blocked_destinations.len();
            &&& policy_steps(config) matches Ok(steps)
            &&& steps[base + i] == client_egress_rules(config.allowed_clients, wan)[i]
            &&& steps.len() == base + client_egress_rules(config.allowed_clients, wan).len() + 1
        }),
{
}

} // verus!
